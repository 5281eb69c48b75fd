//! Closed-loop control of a two-axis insertion device.
//!
//! An inserter approaches a moving tissue surface and a needle extends from it
//! to a commanded depth below that surface. This library holds the decisions
//! of the controller: the bounded histories of sensor and actuator readings,
//! the surface predictors, the safety checks made on every distance sample,
//! and the sequencer that walks the controller through calibration, insertion,
//! retraction and panic recovery. Talking to the devices and waiting are left
//! to the caller, which performs each action the sequencer asks for and hands
//! back what happened.

pub mod controller;
pub mod interface;
pub mod predictor;
