//! Composition of the group layer from per-servo halves.

use crate::group_reader::{ServoGroupReader, ServoGroupReaderHandle, ServoGroupReaderTask};
use crate::group_writer::ServoGroupWriter;
use crate::servo::{ServoReader, ServoWriter};
use vstd::prelude::*;

verus! {

/// Builds the group layer from six initialized servos.
pub struct ServoGroup;

impl ServoGroup {
    /// Splits six (writer, reader) pairs into the group writer, the feed
    /// handle and the one-time aggregation task; the shell spawns the task
    /// and serves requests through the other two.
    pub fn new(
        s01: (ServoWriter, ServoReader),
        s02: (ServoWriter, ServoReader),
        s03: (ServoWriter, ServoReader),
        s04: (ServoWriter, ServoReader),
        s05: (ServoWriter, ServoReader),
        s06: (ServoWriter, ServoReader),
    ) -> (r: (ServoGroupWriter, ServoGroupReaderHandle, ServoGroupReaderTask))
        requires
            s01.0.wf(),
            s02.0.wf(),
            s03.0.wf(),
            s04.0.wf(),
            s05.0.wf(),
            s06.0.wf(),
        ensures
            r.0.wf(),
            r.0.writers@ =~= seq![s01.0, s02.0, s03.0, s04.0, s05.0, s06.0],
            r.2.wf(),
            r.2.readers@ =~= seq![s01.1, s02.1, s03.1, s04.1, s05.1, s06.1],
    {
        let (s01_w, s01_r) = s01;
        let (s02_w, s02_r) = s02;
        let (s03_w, s03_r) = s03;
        let (s04_w, s04_r) = s04;
        let (s05_w, s05_r) = s05;
        let (s06_w, s06_r) = s06;
        let writer = ServoGroupWriter::new(s01_w, s02_w, s03_w, s04_w, s05_w, s06_w);
        let (reader_task, reader_handle) = ServoGroupReader::new(
            s01_r,
            s02_r,
            s03_r,
            s04_r,
            s05_r,
            s06_r,
        );
        (writer, reader_handle, reader_task)
    }
}

} // verus!
