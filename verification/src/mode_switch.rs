//! Debouncing for the rotary mode switch.
//!
//! The switch is bouncy: after an edge on either input line the driver
//! loop waits a fixed settle delay, re-samples the position, and hands it
//! to [`ModeSwitch::on_settled`], which emits it only when it differs
//! from the last emitted position. Edges during the settle delay are
//! absorbed: one settle round samples once and emits at most once.

use vstd::prelude::*;

verus! {

/// The three positions of the rotary switch.
#[derive(Clone, Copy, Debug, PartialEq, Eq, Structural)]
pub enum SwitchPosition {
    OffUsb,
    Profile1,
    Profile2,
}

/// Capability contract of the two switch input lines. `wait_for_change`
/// blocks until either line transitions, implemented so that no edge is
/// ever missed; implementations live with the hardware drivers.
pub trait ModeSwitchPins {
    /// Blocks until either switch line transitions.
    fn wait_for_change(&mut self);

    /// Samples both lines and derives the position.
    fn position(&mut self) -> SwitchPosition;
}

/// Milliseconds the switch must rest after an edge before it is
/// re-sampled and trusted.
pub const SETTLE_DELAY_MS: u64 = 100;

/// The position derived from the two switch lines; the second line takes
/// priority when both indicate a profile.
pub open spec fn spec_input_to_position(sw_1: bool, sw_2: bool) -> SwitchPosition {
    if sw_2 {
        SwitchPosition::Profile2
    } else if sw_1 {
        SwitchPosition::Profile1
    } else {
        SwitchPosition::OffUsb
    }
}

/// The position derived from the two switch lines.
pub fn input_to_position(sw_1: bool, sw_2: bool) -> (r: SwitchPosition)
    ensures
        r == spec_input_to_position(sw_1, sw_2),
{
    if sw_2 {
        SwitchPosition::Profile2
    } else if sw_1 {
        SwitchPosition::Profile1
    } else {
        SwitchPosition::OffUsb
    }
}

/// What one settle round does to the last emitted position: the sampled
/// position becomes the new baseline, and it is emitted exactly when it
/// differs from the previous one.
pub open spec fn spec_settle(last: Option<SwitchPosition>, sampled: SwitchPosition) -> (
    Option<SwitchPosition>,
    Option<SwitchPosition>,
) {
    if last == Some(sampled) {
        (Some(sampled), None)
    } else {
        (Some(sampled), Some(sampled))
    }
}

/// One settle round emits at most one position: the one sampled after
/// the settle delay that followed the last edge. However often the lines
/// bounced before that sample, nothing else can be emitted, and nothing
/// is emitted at all when the settled position equals the last emitted
/// one.
pub proof fn lemma_settle_emits_once(last: Option<SwitchPosition>, sampled: SwitchPosition)
    ensures
        spec_settle(last, sampled).0 == Some(sampled),
        spec_settle(last, sampled).1 is Some ==> spec_settle(last, sampled).1 == Some(sampled),
        spec_settle(last, sampled).1 is None <==> last == Some(sampled),
{
}

/// Mode-switch debouncer: tracks the last emitted position and turns
/// settled samples into emissions.
pub struct ModeSwitch<Pins: ModeSwitchPins> {
    pub pins: Pins,
    pub position: Option<SwitchPosition>,
}

impl<Pins: ModeSwitchPins> ModeSwitch<Pins> {
    /// Creates the debouncer; nothing has been emitted yet.
    pub fn new(pins: Pins) -> (r: ModeSwitch<Pins>)
        ensures
            r.position is None,
    {
        ModeSwitch { pins, position: None }
    }

    /// Samples the current position and returns it as the initial
    /// emission, so that downstream consumers have a position before any
    /// edge occurs.
    pub fn start(&mut self) -> (r: SwitchPosition)
        ensures
            final (self).position == Some(r),
    {
        let position = self.pins.position();
        self.position = Some(position);
        position
    }

    /// Records a position sampled after a settle delay; returns it as an
    /// emission exactly when it differs from the last emitted position.
    pub fn on_settled(&mut self, sampled: SwitchPosition) -> (r: Option<SwitchPosition>)
        ensures
            final (self).pins == old(self).pins,
            (final (self).position, r) == spec_settle(old(self).position, sampled),
    {
        let emit = match self.position {
            Some(position) => position != sampled,
            None => true,
        };
        self.position = Some(sampled);
        if emit {
            Some(sampled)
        } else {
            None
        }
    }

    /// Re-samples the position after the settle delay and emits it if it
    /// differs from the last emitted one. The caller waits for an edge
    /// and sleeps the settle delay before calling; the delay itself is
    /// not cancel-safe and always runs to completion.
    pub fn settle_and_sample(&mut self) -> (r: Option<SwitchPosition>)
        ensures
            match r {
                Some(p) => old(self).position != Some(p) && final (self).position == Some(p),
                None => final (self).position == old(self).position,
            },
    {
        let sampled = self.pins.position();
        self.on_settled(sampled)
    }
}

} // verus!
