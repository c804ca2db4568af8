use keyboard::mode_switch::input_to_position;
use keyboard::mode_switch::ModeSwitch;
use keyboard::mode_switch::ModeSwitchPins;
use keyboard::mode_switch::SwitchPosition;

struct MockModeSwitchPins {
    position: SwitchPosition,
}

impl ModeSwitchPins for MockModeSwitchPins {
    fn wait_for_change(&mut self) {}

    fn position(&mut self) -> SwitchPosition {
        self.position
    }
}

#[test]
fn test_modes() {
    let pins = MockModeSwitchPins {
        position: SwitchPosition::Profile1,
    };
    let mut switch = ModeSwitch::new(pins);

    // The initial position is emitted immediately on start.
    let event = switch.start();
    assert_eq!(
        event,
        SwitchPosition::Profile1,
        "unexpected initial position returned"
    );
    for position in [
        SwitchPosition::OffUsb,
        SwitchPosition::Profile1,
        SwitchPosition::Profile2,
    ] {
        switch.pins.position = position;
        let event = switch.settle_and_sample();
        assert_eq!(event, Some(position), "unexpected position returned");
    }
}

#[test]
fn mode_switch_test_debouncing() {
    let pins = MockModeSwitchPins {
        position: SwitchPosition::OffUsb,
    };
    let mut switch = ModeSwitch::new(pins);

    let event = switch.start();
    assert_eq!(
        event,
        SwitchPosition::OffUsb,
        "unexpected initial position returned"
    );
    // The switch bounces to an intermediate position during the settle
    // delay; only the position sampled after the delay is emitted, and
    // only once.
    switch.pins.position = SwitchPosition::Profile1;
    switch.pins.position = SwitchPosition::Profile2;
    let event = switch.settle_and_sample();
    assert_eq!(
        event,
        Some(SwitchPosition::Profile2),
        "unexpected position returned"
    );
    // The settled position does not repeat without a new edge and settle.
    let event = switch.settle_and_sample();
    assert_eq!(event, None, "repeated emission after a single settle");
}

#[test]
fn switch_lines_map_to_positions() {
    assert_eq!(input_to_position(false, false), SwitchPosition::OffUsb);
    assert_eq!(input_to_position(true, false), SwitchPosition::Profile1);
    assert_eq!(input_to_position(false, true), SwitchPosition::Profile2);
    // The second line takes priority when both indicate a profile.
    assert_eq!(input_to_position(true, true), SwitchPosition::Profile2);
}
