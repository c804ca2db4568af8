//! The single-slot channel the subsystems talk through.
//!
//! Every channel in this system holds at most one pending value: a second
//! send while the first value has not been consumed does not go through,
//! and the sender stays suspended (the driver loop retries) until the
//! receiver has taken the slot. This bounds memory on the target and
//! gives natural backpressure; the shutdown-ordering guarantees depend on
//! it, so the capacity of one is deliberate.

use vstd::prelude::*;

verus! {

/// A point-to-point handoff holding at most one pending value.
#[derive(Debug, PartialEq, Clone)]
pub struct Channel<T> {
    pub slot: Option<T>,
}

/// What one send attempt does: into an empty channel the value is
/// stored; a full channel is left exactly as it is and the value comes
/// back to the sender. Nothing is ever dropped or overwritten.
pub open spec fn spec_try_send<T>(ch: Channel<T>, value: T) -> (Channel<T>, Result<(), T>) {
    if ch.slot is None {
        (Channel { slot: Some(value) }, Ok(()))
    } else {
        (ch, Err(value))
    }
}

/// What one receive attempt does: the pending value, if any, is taken
/// out and the slot becomes free.
pub open spec fn spec_try_recv<T>(ch: Channel<T>) -> (Channel<T>, Option<T>) {
    (Channel { slot: None }, ch.slot)
}

impl<T> Channel<T> {
    /// Creates an empty channel.
    pub fn new() -> (r: Channel<T>)
        ensures
            r.slot is None,
    {
        Channel { slot: None }
    }

    /// Whether a value is pending.
    pub fn is_full(&self) -> (r: bool)
        ensures
            r == (self.slot is Some),
    {
        self.slot.is_some()
    }

    /// Attempts to send `value`. Into an empty channel it is stored;
    /// a full channel stays untouched and the value is returned to the
    /// sender, which retries after the receiver has consumed the slot.
    pub fn try_send(&mut self, value: T) -> (r: Result<(), T>)
        ensures
            (*final (self), r) == spec_try_send(*old(self), value),
    {
        if self.slot.is_none() {
            self.slot = Some(value);
            Ok(())
        } else {
            Err(value)
        }
    }

    /// Takes the pending value out, if any.
    pub fn try_recv(&mut self) -> (r: Option<T>)
        ensures
            (*final (self), r) == spec_try_recv(*old(self)),
    {
        self.slot.take()
    }
}

/// Backpressure of the single slot: a send to a full channel neither
/// drops nor overwrites the pending value — the channel is unchanged and
/// the sender keeps its value — and only once the pending value has been
/// consumed does the next send go through, carrying exactly the value
/// that waited.
pub proof fn lemma_single_slot_backpressure<T>(ch: Channel<T>, first: T, second: T)
    ensures
        ({
            let (full, r1) = spec_try_send(Channel { slot: None }, first);
            let (still_full, r2) = spec_try_send(full, second);
            let (empty, taken) = spec_try_recv(still_full);
            let (after, r3) = spec_try_send(empty, second);
            &&& r1 == Ok::<(), T>(())
            &&& still_full == full
            &&& r2 == Err::<(), T>(second)
            &&& taken == Some(first)
            &&& after.slot == Some(second)
            &&& r3 == Ok::<(), T>(())
        }),
{
}

} // verus!
