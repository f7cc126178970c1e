//! Logic of a wireless presentation remote made of two radio boards.
//!
//! The sender scans a two-key matrix and broadcasts key events; the receiver turns each
//! received press into a keyboard tap. Everything that decides or computes lives here, free of
//! pins, timers and buses: the firmware asks a task what to do next, does it, and reports back.

pub mod bring_up;
pub mod laws;
pub mod led;
pub mod packet;
pub mod receiver;
pub mod sender;
