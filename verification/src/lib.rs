//! Verified core of a minimal LED-blink firmware.
//!
//! The firmware drives one output pin and one serial transmitter: it toggles
//! the pin at a fixed interval and emits a status line for every transition.
//! Everything the toggle loop decides — which level to drive, which bytes to
//! send, how long to suspend — is computed and proved here. The driver around
//! this library owns the hardware: it performs each action the library hands
//! out (write the line, set the pin, suspend) and runs the loop forever.

pub mod blink;
pub mod message;
pub mod schedule;
pub mod serial;
