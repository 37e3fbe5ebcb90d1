//! Core logic of a small micro:bit firmware: a bounded line buffer for a
//! carriage-return delimited serial protocol, the decisions of the line
//! reversal and echo sessions, a single-slot cell for a shared hardware
//! resource, and the dispatcher run by the button interrupt.
pub mod cell;
pub mod event;
pub mod line_buffer;
pub mod session;
pub mod transport;
