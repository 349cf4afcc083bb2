//! Control core of a switch-mode power supply: Kalman estimators, a PID
//! controller with anti-windup, and the supervisor that gates power delivery.
//!
//! * [`fixed`]: saturating Q32.32 fixed-point arithmetic;
//! * [`kalman`], [`kalman3`]: Kalman filters tracking a reading with one or
//!   two derivatives;
//! * [`pid`]: the PID controller;
//! * [`state`]: the telemetry record and its wire form;
//! * [`regulator`]: the supervisor state machine and the control cycle.
//!
//! All physical quantities are signed Q32.32 fixed-point numbers held in `i64`;
//! every arithmetic step saturates instead of overflowing.

pub mod fixed;
pub mod kalman;
pub mod kalman3;
pub mod pid;
pub mod binary32;
pub mod state;
pub mod regulator;
