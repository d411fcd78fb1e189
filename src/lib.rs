//! Control logic of a fireplace installation: key events from an input
//! device drive a heater over a serial line and two video players over
//! their control channels.
pub mod heater;
pub mod input;
pub mod presentation;
pub mod session;
pub mod status;
