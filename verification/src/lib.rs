//! Control core of a grid-tied solar micro-inverter.
//!
//! The crate holds the arithmetic and the decisions of three control loops:
//! calibration of the grid-voltage sampler, synthesis of the sine drive from a
//! fixed-point phase, and maximum-power-point tracking of the boost stage.
//! Everything here works on plain integers, so that each rule carries a
//! machine-checked contract; peripherals, timing and floating-point filters
//! are left to the firmware that links this crate.

pub mod calibration;
pub mod channel;
pub mod drive;
pub mod mppt;
pub mod phase;
pub mod zero_cross;
