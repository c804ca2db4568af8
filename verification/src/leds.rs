//! Capability contract of the status LEDs.

use vstd::prelude::*;

verus! {

/// The LED outputs the keyboard drives: the lock indicators and the PWM
/// sequence of the power LED. Implementations live with the hardware
/// drivers; animation content is theirs.
pub trait LedPins {
    /// Turns all LED outputs off.
    fn disable(&mut self);

    /// Sets the caps-lock indicator.
    fn set_caps_lock(&mut self, state: bool);

    /// Sets the scroll-lock indicator.
    fn set_scroll_lock(&mut self, state: bool);

    /// Installs the brightness sequence of the power LED.
    fn set_power_sequence(&mut self, sequence: [u16; 128]);
}

} // verus!
