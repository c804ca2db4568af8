//! Control core of a battery-powered keyboard: key-matrix debouncing and
//! FN remapping, mode-switch debouncing, the battery charge/balance state
//! machine, a priority-ordered six-way event selector, the central event
//! dispatcher, and the single-slot channel the components talk through.
//!
//! Hardware access (matrix scanning, voltage measurement, GPIO edges) is
//! reached only through the capability traits each module declares; the
//! asynchronous driver loops around those traits live outside this crate
//! and call the step functions defined here.

use vstd::prelude::*;

pub mod channel;
pub mod dispatcher;
pub mod key_state;
pub mod keys;
pub mod leds;
pub mod mode_switch;
pub mod power_supply;
pub mod scancode;
pub mod select6;

verus! {

/// Coarse-grained power intent, propagated identically to every sink.
/// `Shutdown` is terminal per subsystem.
#[derive(Debug, PartialEq, Eq, Structural, Clone, Copy)]
pub enum PowerLevel {
    Normal,
    LowPower,
    Shutdown,
}

} // verus!
