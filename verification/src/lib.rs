//! Verified core of a multi-servo robotic-arm controller built on a 16-channel,
//! 12-bit PWM controller chip.
//!
//! The crate covers three tightly coupled layers:
//! the register-level driver protocol for the PWM chip, the per-servo motion
//! controller that maps angles to duty cycles and plans time-bounded
//! interpolated motion, and the group layer that fans a pose change out to all
//! servos and aggregates per-servo angle updates into one broadcast pose feed.
//!
//! All quantities are fixed point: angles are millidegrees (`i64`) and duty
//! cycles are parts per million of one PWM period (`i64`, `0 ..= 1_000_000`).
//! The bus itself and the timed loops are driven by an unverified shell; this
//! crate computes every register frame, every motion step and every decision,
//! and states what each computation returns.

pub mod calibration;
pub mod channels;
pub mod driver;
pub mod group;
pub mod group_reader;
pub mod group_writer;
pub mod math;
pub mod motion;
pub mod pose;
pub mod profiles;
pub mod registers;
pub mod rounding;
pub mod servo;
pub mod settings;
