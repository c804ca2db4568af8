use keyboard::power_supply::charge_policy;
use keyboard::power_supply::BatteryVoltage;
use keyboard::power_supply::ChargingHardware;
use keyboard::power_supply::PowerSupply;
use keyboard::power_supply::PowerSupplyMode;
use keyboard::power_supply::PowerSupplyState;
use keyboard::power_supply::UsbConnection;

struct MockChargingHardware {
    voltage: BatteryVoltage,
    charging: bool,
    discharging_low: bool,
    discharging_high: bool,
}

impl MockChargingHardware {
    fn new() -> Self {
        MockChargingHardware {
            voltage: BatteryVoltage { low: 0, high: 0 },
            charging: false,
            discharging_low: false,
            discharging_high: false,
        }
    }
}

impl ChargingHardware for MockChargingHardware {
    fn measure_battery_voltage(&mut self) -> BatteryVoltage {
        self.voltage
    }

    fn configure_charging(&mut self, active: bool) {
        self.charging = active;
    }

    fn configure_discharging(&mut self, low: bool, high: bool) {
        self.discharging_low = low;
        self.discharging_high = high;
    }
}

struct MockUsbConnection {
    connected: bool,
}

impl UsbConnection for MockUsbConnection {
    fn wait_for_change(&mut self) {}

    fn connected(&mut self) -> bool {
        self.connected
    }
}

#[derive(Debug)]
struct ChargingTest {
    low_voltage: u32,
    high_voltage: u32,
    usb_connected: bool,

    should_charge: bool,
    should_discharge_low: bool,
    should_discharge_high: bool,
    expected_mode: PowerSupplyMode,
}

fn charging_tests() -> Vec<ChargingTest> {
    vec![
        // Both batteries low.
        ChargingTest {
            low_voltage: 1050,
            high_voltage: 1050,
            usb_connected: false,
            should_charge: false,
            should_discharge_low: false,
            should_discharge_high: false,
            expected_mode: PowerSupplyMode::Low,
        },
        // One battery low.
        ChargingTest {
            low_voltage: 1050,
            high_voltage: 1400,
            usb_connected: false,
            should_charge: false,
            should_discharge_low: false,
            should_discharge_high: false,
            expected_mode: PowerSupplyMode::Low,
        },
        ChargingTest {
            low_voltage: 1400,
            high_voltage: 1050,
            usb_connected: false,
            should_charge: false,
            should_discharge_low: false,
            should_discharge_high: false,
            expected_mode: PowerSupplyMode::Low,
        },
        // Both batteries full.
        ChargingTest {
            low_voltage: 1400,
            high_voltage: 1400,
            usb_connected: false,
            should_charge: false,
            should_discharge_low: false,
            should_discharge_high: false,
            expected_mode: PowerSupplyMode::Normal,
        },
        // Both batteries full, USB connected.
        ChargingTest {
            low_voltage: 1400,
            high_voltage: 1400,
            usb_connected: true,
            should_charge: false,
            should_discharge_low: false,
            should_discharge_high: false,
            expected_mode: PowerSupplyMode::Normal,
        },
        // One battery full, USB connected (counts as "charging" as we
        // are balancing the batteries).
        ChargingTest {
            low_voltage: 1100,
            high_voltage: 1400,
            usb_connected: true,
            should_charge: false,
            should_discharge_low: false,
            should_discharge_high: true,
            expected_mode: PowerSupplyMode::Charging,
        },
        ChargingTest {
            low_voltage: 1400,
            high_voltage: 1100,
            usb_connected: true,
            should_charge: false,
            should_discharge_low: true,
            should_discharge_high: false,
            expected_mode: PowerSupplyMode::Charging,
        },
        // USB connected, charging without balancing.
        ChargingTest {
            low_voltage: 1100,
            high_voltage: 1100,
            usb_connected: true,
            should_charge: true,
            should_discharge_low: false,
            should_discharge_high: false,
            expected_mode: PowerSupplyMode::Charging,
        },
        // USB connected, charging with balancing.
        ChargingTest {
            low_voltage: 1100,
            high_voltage: 1200,
            usb_connected: true,
            should_charge: true,
            should_discharge_low: false,
            should_discharge_high: true,
            expected_mode: PowerSupplyMode::Charging,
        },
        ChargingTest {
            low_voltage: 1200,
            high_voltage: 1100,
            usb_connected: true,
            should_charge: true,
            should_discharge_low: true,
            should_discharge_high: false,
            expected_mode: PowerSupplyMode::Charging,
        },
        // USB disconnected again - we do not want to discharge if USB is
        // not connected.
        ChargingTest {
            low_voltage: 1200,
            high_voltage: 1100,
            usb_connected: false,
            should_charge: false,
            should_discharge_low: false,
            should_discharge_high: false,
            expected_mode: PowerSupplyMode::Normal,
        },
    ]
}

#[test]
fn test_charging() {
    let tests = charging_tests();

    // The first cycle runs in the constructor and its state is returned
    // for immediate publication.
    let mut hw = MockChargingHardware::new();
    hw.voltage = BatteryVoltage {
        low: tests[0].low_voltage,
        high: tests[0].high_voltage,
    };
    let usb = MockUsbConnection {
        connected: tests[0].usb_connected,
    };
    let (mut ps, initial) = PowerSupply::new(hw, usb);
    let mut state = initial;
    assert_eq!(initial.mode, tests[0].expected_mode, "initial mode wrong");
    assert_eq!(ps.charging_hw.charging, tests[0].should_charge, "charging wrong");
    assert_eq!(
        ps.charging_hw.discharging_low, tests[0].should_discharge_low,
        "discharging_low wrong"
    );
    assert_eq!(
        ps.charging_hw.discharging_high, tests[0].should_discharge_high,
        "discharging_high wrong"
    );

    for i in 1..tests.len() {
        println!("Test {}: {:?}", i, tests[i]);
        // In the recovery period, we must not charge the battery.
        ps.recovery();
        assert_eq!(ps.charging_hw.charging, false);
        assert_eq!(ps.charging_hw.discharging_low, false);
        assert_eq!(ps.charging_hw.discharging_high, false);

        // Whenever the USB connection state changes, a second event is
        // published before the charging period starts.
        ps.usb_conn.connected = tests[i].usb_connected;
        let usb_event = ps.check_usb();
        if tests[i - 1].usb_connected != tests[i].usb_connected {
            let event = usb_event.expect("waiting for USB update failed");
            state.usb_connected = tests[i].usb_connected;
            assert_eq!(event, state, "wrong USB update published");
        } else {
            assert_eq!(usb_event, None, "unexpected USB update published");
        }

        ps.charging_hw.voltage = BatteryVoltage {
            low: tests[i].low_voltage,
            high: tests[i].high_voltage,
        };
        let cycle_event = ps.charge_cycle();
        let expected_state = PowerSupplyState {
            mode: tests[i].expected_mode,
            battery_charge: 0,
            usb_connected: tests[i].usb_connected,
        };
        // An event is published only if the power supply state changed.
        if expected_state != state {
            let event = cycle_event.expect("expected a state update");
            assert_eq!(event, expected_state);
            state = event;
        } else {
            assert_eq!(cycle_event, None, "unexpected state update published");
        }

        assert_eq!(ps.charging_hw.charging, tests[i].should_charge, "charging wrong");
        assert_eq!(
            ps.charging_hw.discharging_low, tests[i].should_discharge_low,
            "discharging_low wrong"
        );
        assert_eq!(
            ps.charging_hw.discharging_high, tests[i].should_discharge_high,
            "discharging_high wrong"
        );
    }
}

#[test]
fn charge_policy_cases() {
    // Cells at (1050,1050), USB absent: low mode, everything off.
    let (d, s) = charge_policy(BatteryVoltage { low: 1050, high: 1050 }, false);
    assert_eq!(s.mode, PowerSupplyMode::Low);
    assert!(!d.charging && !d.discharge_low && !d.discharge_high);

    // Cells at (1100,1400), USB present: balance the higher cell only.
    let (d, s) = charge_policy(BatteryVoltage { low: 1100, high: 1400 }, true);
    assert_eq!(s.mode, PowerSupplyMode::Charging);
    assert!(!d.charging && !d.discharge_low && d.discharge_high);

    // Cells at (1100,1100), USB present: charge, no balancing.
    let (d, s) = charge_policy(BatteryVoltage { low: 1100, high: 1100 }, true);
    assert_eq!(s.mode, PowerSupplyMode::Charging);
    assert!(d.charging && !d.discharge_low && !d.discharge_high);

    // Cells at (1400,1400), USB present: everything off, normal mode.
    let (d, s) = charge_policy(BatteryVoltage { low: 1400, high: 1400 }, true);
    assert_eq!(s.mode, PowerSupplyMode::Normal);
    assert!(!d.charging && !d.discharge_low && !d.discharge_high);

    // The balance threshold is strict: 20 mV difference does not
    // discharge, 21 mV does.
    let (d, _) = charge_policy(BatteryVoltage { low: 1100, high: 1120 }, true);
    assert!(!d.discharge_high);
    let (d, _) = charge_policy(BatteryVoltage { low: 1100, high: 1121 }, true);
    assert!(d.discharge_high);

    // Exactly the end voltage stops charging.
    let (d, _) = charge_policy(BatteryVoltage { low: 1380, high: 1100 }, true);
    assert!(!d.charging);
    let (d, _) = charge_policy(BatteryVoltage { low: 1379, high: 1100 }, true);
    assert!(d.charging);

    // Exactly the discharge threshold is not yet low.
    let (_, s) = charge_policy(BatteryVoltage { low: 1100, high: 1100 }, false);
    assert_eq!(s.mode, PowerSupplyMode::Normal);
    let (_, s) = charge_policy(BatteryVoltage { low: 1099, high: 1100 }, false);
    assert_eq!(s.mode, PowerSupplyMode::Low);
}
