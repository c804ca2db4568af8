use keyboard::dispatcher::Dispatcher;
use keyboard::dispatcher::DispatcherAction;
use keyboard::dispatcher::RadioInEvent;
use keyboard::dispatcher::RadioOutEvent;
use keyboard::dispatcher::UsbInEvent;
use keyboard::dispatcher::UsbOutEvent;
use keyboard::key_state::KeyState;
use keyboard::keys::KeysInEvent;
use keyboard::keys::KeysOutEvent;
use keyboard::mode_switch::SwitchPosition;
use keyboard::power_supply::PowerSupplyMode;
use keyboard::power_supply::PowerSupplyState;
use keyboard::scancode::ScanCode;
use keyboard::select6::Either6;
use keyboard::PowerLevel;

fn shutdown_actions() -> Vec<DispatcherAction> {
    vec![
        DispatcherAction::SendKeysIn(KeysInEvent::PowerTransition(PowerLevel::Shutdown)),
        DispatcherAction::StopModeSwitch,
        DispatcherAction::StopPowerSupply,
        DispatcherAction::SendUsbIn(UsbInEvent::PowerTransition(PowerLevel::Shutdown)),
        DispatcherAction::SendBluetoothIn(RadioInEvent::PowerTransition(PowerLevel::Shutdown)),
        DispatcherAction::SendUnifyingIn(RadioInEvent::PowerTransition(PowerLevel::Shutdown)),
    ]
}

#[test]
fn test_key_forwarding() {
    let mut dispatcher = Dispatcher::new();
    // Some initial state is required by the dispatcher.
    dispatcher.on_initial_position(SwitchPosition::OffUsb);

    // Keys are forwarded to the active sink: USB while the switch is
    // off, and only there.
    let mut keys = KeyState::new();
    keys.set_key(ScanCode::Escape);
    let actions = dispatcher.handle_event(Either6::First(KeysOutEvent::KeysChanged(keys.clone())));
    assert_eq!(
        actions,
        vec![DispatcherAction::SendUsbIn(UsbInEvent::KeysChanged(keys.clone()))],
        "key event not forwarded to the USB sink alone"
    );

    // Mode switches select a different sink.
    let actions = dispatcher.handle_event(Either6::Second(SwitchPosition::Profile1));
    assert_eq!(actions, vec![], "switch to a profile must not send anything");
    let actions = dispatcher.handle_event(Either6::First(KeysOutEvent::KeysChanged(keys.clone())));
    assert_eq!(
        actions,
        vec![DispatcherAction::SendBluetoothIn(RadioInEvent::KeysChanged(keys.clone()))],
        "key event not forwarded to the Bluetooth sink alone"
    );

    let actions = dispatcher.handle_event(Either6::Second(SwitchPosition::Profile2));
    assert_eq!(actions, vec![]);
    let actions = dispatcher.handle_event(Either6::First(KeysOutEvent::KeysChanged(keys.clone())));
    assert_eq!(
        actions,
        vec![DispatcherAction::SendUnifyingIn(RadioInEvent::KeysChanged(keys.clone()))],
        "key event not forwarded to the Unifying sink alone"
    );
}

#[test]
fn low_battery_triggers_shutdown_once() {
    let mut dispatcher = Dispatcher::new();
    dispatcher.on_initial_position(SwitchPosition::OffUsb);

    // A benign power snapshot is consumed without actions.
    let actions = dispatcher.handle_event(Either6::Third(PowerSupplyState {
        mode: PowerSupplyMode::Charging,
        battery_charge: 50,
        usb_connected: true,
    }));
    assert_eq!(actions, vec![]);

    // A low snapshot with USB disconnected at the off position demands
    // the five subsystem shutdown sends plus the two stop signals, in
    // program order, and ends the routing loop.
    let actions = dispatcher.handle_event(Either6::Third(PowerSupplyState {
        mode: PowerSupplyMode::Low,
        battery_charge: 10,
        usb_connected: false,
    }));
    assert_eq!(actions, shutdown_actions(), "wrong shutdown sequence");
}

#[test]
fn test_usb_disconnected_shutdown() {
    // Selecting the USB profile while USB is not connected would only
    // drain the batteries, so the device shuts down.
    let mut dispatcher = Dispatcher::new();
    dispatcher.on_initial_position(SwitchPosition::Profile1);

    // The power supply reports USB disconnected; a profile is selected,
    // so the device stays up.
    let actions = dispatcher.handle_event(Either6::Third(PowerSupplyState {
        mode: PowerSupplyMode::Normal,
        battery_charge: 80,
        usb_connected: false,
    }));
    assert_eq!(actions, vec![]);

    // Moving the switch to the off position now triggers the shutdown.
    let actions = dispatcher.handle_event(Either6::Second(SwitchPosition::OffUsb));
    assert_eq!(actions, shutdown_actions(), "wrong shutdown sequence");
}

#[test]
fn sink_notifications_do_not_block() {
    let mut dispatcher = Dispatcher::new();
    dispatcher.on_initial_position(SwitchPosition::Profile2);

    let actions = dispatcher.handle_event(Either6::Fourth(UsbOutEvent::ChargingAllowed(true)));
    assert_eq!(actions, vec![]);
    let actions = dispatcher.handle_event(Either6::Fifth(RadioOutEvent::PowerTransitionDone(
        PowerLevel::Normal,
    )));
    assert_eq!(actions, vec![]);
    let actions = dispatcher.handle_event(Either6::Sixth(RadioOutEvent::PowerTransitionDone(
        PowerLevel::Normal,
    )));
    assert_eq!(actions, vec![]);
}
