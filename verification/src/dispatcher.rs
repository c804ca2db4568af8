//! The central event router.
//!
//! The dispatcher owns no hardware, only routing state: the last settled
//! switch position, the USB connection state as last published by the
//! power supply, and the routing derived from them. The driver loop
//! around it first feeds it the initial mode-switch position, then
//! selects over all six subsystem outputs in the fixed priority order of
//! [`crate::select6`] (keys, mode switch, power supply, USB, Bluetooth,
//! Unifying radio) and applies [`Dispatcher::handle_event`] to whichever
//! arrived; the returned actions are sent in order over the single-slot
//! channels. When a handled event demands shutdown the actions end the
//! subsystems, the phase becomes terminal, and the loop returns: only one
//! transition into `ShuttingDown` is possible.
//!
//! The profile-to-transport binding is a policy choice made explicit
//! here: the first profile routes key events to the Bluetooth sink, the
//! second to the Unifying radio sink, and the off position to USB.

use vstd::prelude::*;

use crate::key_state::KeyState;
use crate::keys::KeysInEvent;
use crate::keys::KeysOutEvent;
use crate::mode_switch::SwitchPosition;
use crate::power_supply::PowerSupplyMode;
use crate::power_supply::PowerSupplyState;
use crate::select6::Either6;
use crate::PowerLevel;

verus! {

/// Commands the dispatcher sends to the USB sink.
#[derive(PartialEq, Debug, Clone)]
pub enum UsbInEvent {
    KeysChanged(KeyState),
    PowerTransition(PowerLevel),
}

/// Notifications the USB sink produces.
#[derive(PartialEq, Debug, Clone)]
pub enum UsbOutEvent {
    PowerTransitionDone(PowerLevel),
    ChargingAllowed(bool),
}

/// Commands the dispatcher sends to a radio sink.
#[derive(PartialEq, Debug, Clone)]
pub enum RadioInEvent {
    KeysChanged(KeyState),
    PowerTransition(PowerLevel),
}

/// Notifications a radio sink produces.
#[derive(PartialEq, Debug, Clone)]
pub enum RadioOutEvent {
    PowerTransitionDone(PowerLevel),
}

/// The output sink key events are forwarded to.
#[derive(PartialEq, Eq, Structural, Debug, Clone, Copy)]
pub enum ActiveSink {
    Usb,
    Bluetooth,
    Unifying,
}

/// The routing state the dispatcher owns: which sink receives key
/// events, and which profile position selected it.
#[derive(PartialEq, Eq, Structural, Debug, Clone, Copy)]
pub struct RoutingState {
    pub active_sink: ActiveSink,
    pub current_profile: SwitchPosition,
}

/// The dispatcher's phase. `ShuttingDown` is terminal: no further event
/// is handled once it is reached.
#[derive(PartialEq, Eq, Structural, Debug, Clone, Copy)]
pub enum DispatcherPhase {
    WaitingForInitialState,
    Routing,
    ShuttingDown,
}

/// One send the driver loop performs on the dispatcher's behalf, in the
/// order returned.
#[derive(PartialEq, Debug, Clone)]
pub enum DispatcherAction {
    SendKeysIn(KeysInEvent),
    StopModeSwitch,
    StopPowerSupply,
    SendUsbIn(UsbInEvent),
    SendBluetoothIn(RadioInEvent),
    SendUnifyingIn(RadioInEvent),
}

/// One event arriving at the dispatcher, tagged by source in the fixed
/// select priority order.
pub type DispatcherEvent = Either6<
    KeysOutEvent,
    SwitchPosition,
    PowerSupplyState,
    UsbOutEvent,
    RadioOutEvent,
    RadioOutEvent,
>;

/// The routing a switch position selects: USB for the off position, the
/// Bluetooth sink for the first profile, the Unifying radio sink for the
/// second.
pub open spec fn spec_routing(pos: SwitchPosition) -> RoutingState {
    RoutingState {
        active_sink: match pos {
            SwitchPosition::OffUsb => ActiveSink::Usb,
            SwitchPosition::Profile1 => ActiveSink::Bluetooth,
            SwitchPosition::Profile2 => ActiveSink::Unifying,
        },
        current_profile: pos,
    }
}

/// The single send that forwards a key-state change to the active sink.
pub open spec fn spec_route_keys(sink: ActiveSink, keys: KeyState) -> DispatcherAction {
    match sink {
        ActiveSink::Usb => DispatcherAction::SendUsbIn(UsbInEvent::KeysChanged(keys)),
        ActiveSink::Bluetooth => DispatcherAction::SendBluetoothIn(RadioInEvent::KeysChanged(keys)),
        ActiveSink::Unifying => DispatcherAction::SendUnifyingIn(RadioInEvent::KeysChanged(keys)),
    }
}

/// The shutdown sequence, in program order: end the key handler, stop
/// the mode switch and the power supply, then shut down all three sinks.
/// Completion acknowledgments are not gathered here; the layer above the
/// dispatcher waits for every subsystem to finish before powering down.
pub open spec fn spec_shutdown_actions() -> Seq<DispatcherAction> {
    seq![
        DispatcherAction::SendKeysIn(KeysInEvent::PowerTransition(PowerLevel::Shutdown)),
        DispatcherAction::StopModeSwitch,
        DispatcherAction::StopPowerSupply,
        DispatcherAction::SendUsbIn(UsbInEvent::PowerTransition(PowerLevel::Shutdown)),
        DispatcherAction::SendBluetoothIn(RadioInEvent::PowerTransition(PowerLevel::Shutdown)),
        DispatcherAction::SendUnifyingIn(RadioInEvent::PowerTransition(PowerLevel::Shutdown)),
    ]
}

/// The central router's state.
pub struct Dispatcher {
    pub phase: DispatcherPhase,
    pub switch_position: SwitchPosition,
    pub usb_connected: bool,
    pub routing: RoutingState,
}

/// What handling one event does to the dispatcher and which sends it
/// demands.
///
/// A key-state change is forwarded to the active sink only. A settled
/// switch position updates the tracked position and the routing, and
/// demands shutdown when it is the off position while USB is
/// disconnected. A power-supply snapshot updates the tracked USB state,
/// and demands shutdown when the supply is low, or USB is disconnected
/// while the off position is selected. Sink notifications are policy
/// stubs: they are consumed without blocking the loop.
pub open spec fn spec_handle_event(s: Dispatcher, event: DispatcherEvent) -> (
    Dispatcher,
    Seq<DispatcherAction>,
) {
    match event {
        Either6::First(key_event) => match key_event {
            KeysOutEvent::KeysChanged(keys) => (
                s,
                seq![spec_route_keys(s.routing.active_sink, keys)],
            ),
            _ => (s, Seq::empty()),
        },
        Either6::Second(pos) => {
            let moved = Dispatcher { switch_position: pos, routing: spec_routing(pos), ..s };
            if !s.usb_connected && pos == SwitchPosition::OffUsb {
                (Dispatcher { phase: DispatcherPhase::ShuttingDown, ..moved },
                spec_shutdown_actions())
            } else {
                (moved, Seq::empty())
            }
        },
        Either6::Third(ps) => {
            let tracked_usb = Dispatcher { usb_connected: ps.usb_connected, ..s };
            if ps.mode == PowerSupplyMode::Low || (!ps.usb_connected && s.switch_position
                == SwitchPosition::OffUsb) {
                (Dispatcher { phase: DispatcherPhase::ShuttingDown, ..tracked_usb },
                spec_shutdown_actions())
            } else {
                (tracked_usb, Seq::empty())
            }
        },
        Either6::Fourth(_) => (s, Seq::empty()),
        Either6::Fifth(_) => (s, Seq::empty()),
        Either6::Sixth(_) => (s, Seq::empty()),
    }
}

impl Dispatcher {
    /// The routing always matches the tracked switch position.
    pub open spec fn wf(self) -> bool {
        self.routing == spec_routing(self.switch_position)
    }

    /// Creates the dispatcher, waiting for the initial switch position.
    /// USB is assumed connected until the power supply reports otherwise,
    /// so the system does not shut down before its first snapshot.
    pub fn new() -> (r: Dispatcher)
        ensures
            r.phase is WaitingForInitialState,
            r.usb_connected,
            r.switch_position is OffUsb,
            r.wf(),
    {
        Dispatcher {
            phase: DispatcherPhase::WaitingForInitialState,
            switch_position: SwitchPosition::OffUsb,
            usb_connected: true,
            routing: RoutingState {
                active_sink: ActiveSink::Usb,
                current_profile: SwitchPosition::OffUsb,
            },
        }
    }

    /// Records the initial settled switch position, the bootstrap state
    /// the router needs before it handles any event.
    pub fn on_initial_position(&mut self, pos: SwitchPosition)
        requires
            old(self).phase is WaitingForInitialState,
        ensures
            *final (self) == (Dispatcher {
                phase: DispatcherPhase::Routing,
                switch_position: pos,
                routing: spec_routing(pos),
                ..*old(self)
            }),
            final (self).wf(),
    {
        self.phase = DispatcherPhase::Routing;
        self.switch_position = pos;
        self.routing = routing_for(pos);
    }

    /// Handles one selected event and returns the sends to perform, in
    /// order. Callable only while routing: once shutdown has been
    /// demanded the phase is terminal and the driver loop returns, so
    /// the shutdown sequence can be demanded at most once.
    pub fn handle_event(&mut self, event: DispatcherEvent) -> (actions: Vec<DispatcherAction>)
        requires
            old(self).phase is Routing,
        ensures
            (*final (self), actions@) == spec_handle_event(*old(self), event),
            old(self).wf() ==> final (self).wf(),
    {
        let mut actions: Vec<DispatcherAction> = Vec::new();
        match event {
            Either6::First(key_event) => {
                match key_event {
                    KeysOutEvent::KeysChanged(keys) => {
                        let action = match self.routing.active_sink {
                            ActiveSink::Usb => DispatcherAction::SendUsbIn(
                                UsbInEvent::KeysChanged(keys),
                            ),
                            ActiveSink::Bluetooth => DispatcherAction::SendBluetoothIn(
                                RadioInEvent::KeysChanged(keys),
                            ),
                            ActiveSink::Unifying => DispatcherAction::SendUnifyingIn(
                                RadioInEvent::KeysChanged(keys),
                            ),
                        };
                        actions.push(action);
                        proof {
                            assert(actions@ =~= spec_handle_event(*old(self), event).1);
                        }
                    },
                    _ => {
                        proof {
                            assert(actions@ =~= spec_handle_event(*old(self), event).1);
                        }
                    },
                }
            },
            Either6::Second(pos) => {
                self.switch_position = pos;
                self.routing = routing_for(pos);
                if !self.usb_connected && pos == SwitchPosition::OffUsb {
                    self.phase = DispatcherPhase::ShuttingDown;
                    push_shutdown_actions(&mut actions);
                    proof {
                        assert(actions@ =~= spec_handle_event(*old(self), event).1);
                    }
                } else {
                    proof {
                        assert(actions@ =~= spec_handle_event(*old(self), event).1);
                    }
                }
            },
            Either6::Third(ps) => {
                self.usb_connected = ps.usb_connected;
                let low = match ps.mode {
                    PowerSupplyMode::Low => true,
                    _ => false,
                };
                if low || (!ps.usb_connected && match self.switch_position {
                    SwitchPosition::OffUsb => true,
                    _ => false,
                }) {
                    self.phase = DispatcherPhase::ShuttingDown;
                    push_shutdown_actions(&mut actions);
                    proof {
                        assert(actions@ =~= spec_handle_event(*old(self), event).1);
                    }
                } else {
                    proof {
                        assert(actions@ =~= spec_handle_event(*old(self), event).1);
                    }
                }
            },
            Either6::Fourth(_) => {
                proof {
                    assert(actions@ =~= spec_handle_event(*old(self), event).1);
                }
            },
            Either6::Fifth(_) => {
                proof {
                    assert(actions@ =~= spec_handle_event(*old(self), event).1);
                }
            },
            Either6::Sixth(_) => {
                proof {
                    assert(actions@ =~= spec_handle_event(*old(self), event).1);
                }
            },
        }
        actions
    }
}

/// The routing a switch position selects.
fn routing_for(pos: SwitchPosition) -> (r: RoutingState)
    ensures
        r == spec_routing(pos),
{
    RoutingState {
        active_sink: match pos {
            SwitchPosition::OffUsb => ActiveSink::Usb,
            SwitchPosition::Profile1 => ActiveSink::Bluetooth,
            SwitchPosition::Profile2 => ActiveSink::Unifying,
        },
        current_profile: pos,
    }
}

/// Appends the shutdown sequence, in program order.
fn push_shutdown_actions(actions: &mut Vec<DispatcherAction>)
    ensures
        final (actions)@ == old(actions)@ + spec_shutdown_actions(),
{
    actions.push(DispatcherAction::SendKeysIn(KeysInEvent::PowerTransition(PowerLevel::Shutdown)));
    actions.push(DispatcherAction::StopModeSwitch);
    actions.push(DispatcherAction::StopPowerSupply);
    actions.push(DispatcherAction::SendUsbIn(UsbInEvent::PowerTransition(PowerLevel::Shutdown)));
    actions.push(
        DispatcherAction::SendBluetoothIn(RadioInEvent::PowerTransition(PowerLevel::Shutdown)),
    );
    actions.push(
        DispatcherAction::SendUnifyingIn(RadioInEvent::PowerTransition(PowerLevel::Shutdown)),
    );
    proof {
        assert(actions@ =~= old(actions)@ + spec_shutdown_actions());
    }
}

/// A key-state change while the off position is selected is forwarded to
/// the USB sink and to no other: handling it demands exactly one send,
/// to USB, and leaves the state unchanged.
pub proof fn lemma_keys_forwarded_to_usb_only(s: Dispatcher, keys: KeyState)
    requires
        s.wf(),
        s.switch_position is OffUsb,
    ensures
        spec_handle_event(s, Either6::First(KeysOutEvent::KeysChanged(keys))).1 =~= seq![
            DispatcherAction::SendUsbIn(UsbInEvent::KeysChanged(keys)),
        ],
        spec_handle_event(s, Either6::First(KeysOutEvent::KeysChanged(keys))).0 == s,
{
}

/// A key-state change is forwarded to the single active sink, whatever
/// the position: exactly one send, chosen by the routing.
pub proof fn lemma_keys_forwarded_to_active_sink(s: Dispatcher, keys: KeyState)
    requires
        s.wf(),
    ensures
        spec_handle_event(s, Either6::First(KeysOutEvent::KeysChanged(keys))).1 =~= seq![
            spec_route_keys(spec_routing(s.switch_position).active_sink, keys),
        ],
{
}

/// A low or USB-disconnected-while-off power snapshot demands the full
/// shutdown sequence, exactly once and in program order, and moves the
/// dispatcher to its terminal phase; since `handle_event` requires the
/// routing phase, no second shutdown can ever be demanded.
pub proof fn lemma_power_event_shutdown(s: Dispatcher, ps: PowerSupplyState)
    requires
        ps.mode is Low || (!ps.usb_connected && s.switch_position is OffUsb),
    ensures
        spec_handle_event(s, Either6::Third(ps)).1 == spec_shutdown_actions(),
        spec_handle_event(s, Either6::Third(ps)).0.phase is ShuttingDown,
{
}

/// Moving the switch to the off position while USB is disconnected
/// demands the full shutdown sequence and ends the routing phase.
pub proof fn lemma_switch_off_shutdown(s: Dispatcher, pos: SwitchPosition)
    requires
        !s.usb_connected,
        pos is OffUsb,
    ensures
        spec_handle_event(s, Either6::Second(pos)).1 == spec_shutdown_actions(),
        spec_handle_event(s, Either6::Second(pos)).0.phase is ShuttingDown,
{
}

} // verus!
