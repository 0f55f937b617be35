//! Control logic for a small network-attached alarm/indicator device.
//!
//! Two independent tasks make up the device: a local-input decoder that
//! fuses a debounced mode-toggle button with a two-phase rotary encoder
//! into bounded PWM parameter updates, and a command dispatcher that
//! serves one TCP client at a time, mapping a request path to an output
//! actuation and a fixed response.  This crate holds the decision logic
//! of both, with contracts; the hardware and socket edges live outside.

pub mod button;
pub mod decoder;
pub mod dispatch;
pub mod http;
