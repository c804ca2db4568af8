//! Battery charging and power states.
//!
//! The power supply alternates a charging window and a recovery window.
//! At the start of each charging window [`PowerSupply::charge_cycle`]
//! measures both cell voltages, applies [`charge_policy`], actuates the
//! charging hardware, and publishes the new state if it changed; during
//! the recovery window [`PowerSupply::recovery`] forces charging and
//! balancing off so the voltage can settle before the next measurement.
//! A concurrent USB-presence watcher calls [`PowerSupply::check_usb`]
//! whenever the presence line transitions, so connection changes
//! propagate faster than the charge cadence.
//!
//! The board always charges with a fixed current whenever USB power is
//! present; there is no charger detection.

use vstd::prelude::*;

verus! {

/// Milliseconds of one charging window.
pub const CHARGING_PERIOD_MS: u64 = 10000;

/// Milliseconds of one recovery window between charging windows.
pub const RECOVERY_PERIOD_MS: u64 = 3000;

/// Cell voltage (millivolts) at and above which charging stops.
pub const CHARGE_END_VOLTAGE: u32 = 1380;

/// Cell voltage (millivolts) below which the supply reports `Low`.
pub const DISCHARGED_VOLTAGE: u32 = 1100;

/// Difference (millivolts) above which the higher cell is discharged to
/// balance the pair.
pub const BALANCE_THRESHOLD: u32 = 20;

/// The two cell voltages of the series pair, in millivolts.
#[derive(Clone, Copy, Debug, PartialEq, Eq, Structural)]
pub struct BatteryVoltage {
    pub low: u32,
    pub high: u32,
}

/// Capability contract of the measurement and charging hardware;
/// implementations live with the hardware drivers. `measure` may block
/// while sampling.
pub trait ChargingHardware {
    /// Measures both cell voltages.
    fn measure_battery_voltage(&mut self) -> BatteryVoltage;

    /// Switches the charging current on or off.
    fn configure_charging(&mut self, active: bool);

    /// Switches the balancing discharge of each cell on or off.
    fn configure_discharging(&mut self, low: bool, high: bool);
}

/// Capability contract of the USB presence line.
pub trait UsbConnection {
    /// Blocks until the presence line transitions.
    fn wait_for_change(&mut self);

    /// Whether USB power is present.
    fn connected(&mut self) -> bool;
}

/// Power supply mode, derived once per charging window.
#[derive(Clone, Copy, PartialEq, Eq, Structural, Debug)]
pub enum PowerSupplyMode {
    /// The batteries are not low, and we are not charging the batteries.
    Normal,
    /// We are currently charging or balancing the batteries.
    Charging,
    /// We are not charging the batteries, and the voltage is low. In this
    /// state, the system should transition into system-off mode.
    Low,
}

/// Snapshot published to the dispatcher on every observable change.
#[derive(Clone, Copy, PartialEq, Eq, Structural, Debug)]
pub struct PowerSupplyState {
    pub mode: PowerSupplyMode,
    pub battery_charge: u8,
    pub usb_connected: bool,
}

/// What the charging hardware is told to do for one charging window.
#[derive(Clone, Copy, PartialEq, Eq, Structural, Debug)]
pub struct ChargeDecision {
    pub charging: bool,
    pub discharge_low: bool,
    pub discharge_high: bool,
}

/// The actuation policy of one charging window. Charging and balancing
/// are decided independently and both require USB power: charging needs
/// both cells below the end voltage, and the cell that exceeds the other
/// by more than the balance threshold is discharged.
pub open spec fn spec_charge_decision(voltage: BatteryVoltage, usb_connected: bool)
    -> ChargeDecision {
    ChargeDecision {
        charging: usb_connected && voltage.low < CHARGE_END_VOLTAGE && voltage.high
            < CHARGE_END_VOLTAGE,
        discharge_low: usb_connected && voltage.low > voltage.high + BALANCE_THRESHOLD,
        discharge_high: usb_connected && voltage.high > voltage.low + BALANCE_THRESHOLD,
    }
}

/// The mode derived from one measurement: with USB present, any active
/// charging or balancing counts as `Charging`; without USB, either cell
/// below the discharge threshold means `Low`.
pub open spec fn spec_power_mode(voltage: BatteryVoltage, usb_connected: bool) -> PowerSupplyMode {
    if usb_connected {
        if spec_charge_decision(voltage, usb_connected).charging || spec_charge_decision(
            voltage,
            usb_connected,
        ).discharge_low || spec_charge_decision(voltage, usb_connected).discharge_high {
            PowerSupplyMode::Charging
        } else {
            PowerSupplyMode::Normal
        }
    } else {
        if voltage.low < DISCHARGED_VOLTAGE || voltage.high < DISCHARGED_VOLTAGE {
            PowerSupplyMode::Low
        } else {
            PowerSupplyMode::Normal
        }
    }
}

/// The snapshot one measurement produces. Deriving the charge percentage
/// from the lower cell is not implemented yet and reads as zero.
pub open spec fn spec_supply_state(voltage: BatteryVoltage, usb_connected: bool)
    -> PowerSupplyState {
    PowerSupplyState {
        mode: spec_power_mode(voltage, usb_connected),
        battery_charge: 0,
        usb_connected,
    }
}

/// Evaluates the charging policy for one measurement: what to actuate,
/// and the state to publish.
pub fn charge_policy(voltage: BatteryVoltage, usb_connected: bool) -> (r: (
    ChargeDecision,
    PowerSupplyState,
))
    ensures
        r.0 == spec_charge_decision(voltage, usb_connected),
        r.1 == spec_supply_state(voltage, usb_connected),
{
    let charging = usb_connected && voltage.low < CHARGE_END_VOLTAGE && voltage.high
        < CHARGE_END_VOLTAGE;
    let discharge_low = usb_connected && voltage.low > voltage.high && voltage.low - voltage.high
        > BALANCE_THRESHOLD;
    let discharge_high = usb_connected && voltage.high > voltage.low && voltage.high - voltage.low
        > BALANCE_THRESHOLD;
    let mode = if usb_connected {
        if charging || discharge_low || discharge_high {
            PowerSupplyMode::Charging
        } else {
            PowerSupplyMode::Normal
        }
    } else {
        if voltage.low < DISCHARGED_VOLTAGE || voltage.high < DISCHARGED_VOLTAGE {
            PowerSupplyMode::Low
        } else {
            PowerSupplyMode::Normal
        }
    };
    let decision = ChargeDecision { charging, discharge_low, discharge_high };
    let state = PowerSupplyState { mode, battery_charge: 0, usb_connected };
    (decision, state)
}

/// Power supply and battery management: owns the charging hardware, the
/// USB presence line, and the last published snapshot. The driver loop
/// around it runs the charge/recovery cadence and the presence watcher;
/// both update the shared snapshot through the methods here, which must
/// be called under one mutual-exclusion discipline so that no
/// half-updated snapshot is published.
pub struct PowerSupply<ChargingHw: ChargingHardware, UsbConn: UsbConnection> {
    pub charging_hw: ChargingHw,
    pub usb_conn: UsbConn,
    pub state: PowerSupplyState,
}

impl<ChargingHw: ChargingHardware, UsbConn: UsbConnection> PowerSupply<ChargingHw, UsbConn> {
    /// Measures the cell voltages, actuates the hardware as the policy
    /// decides for them, and returns the measurement with the state it
    /// implies.
    pub fn configure_charging(charging_hw: &mut ChargingHw, usb_connected: bool) -> (r: (
        BatteryVoltage,
        PowerSupplyState,
    ))
        ensures
            r.1 == spec_supply_state(r.0, usb_connected),
    {
        let voltage = charging_hw.measure_battery_voltage();
        let (decision, state) = charge_policy(voltage, usb_connected);
        if decision.charging {
            charging_hw.configure_charging(true);
        }
        if decision.discharge_high {
            charging_hw.configure_discharging(false, true);
        } else if decision.discharge_low {
            charging_hw.configure_discharging(true, false);
        }
        (voltage, state)
    }

    /// Creates the power supply. One measurement and decision cycle runs
    /// synchronously, and the resulting snapshot is returned for
    /// immediate publication, so downstream consumers always have valid
    /// data before any other event.
    pub fn new(charging_hw: ChargingHw, usb_conn: UsbConn) -> (r: (
        PowerSupply<ChargingHw, UsbConn>,
        PowerSupplyState,
    ))
        ensures
            r.0.state == r.1,
            exists|v: BatteryVoltage| r.1 == spec_supply_state(v, r.1.usb_connected),
    {
        let mut charging_hw = charging_hw;
        let mut usb_conn = usb_conn;
        let usb_connected = usb_conn.connected();
        let (voltage, initial_state) = Self::configure_charging(&mut charging_hw, usb_connected);
        proof {
            assert(initial_state == spec_supply_state(voltage, initial_state.usb_connected));
        }
        (PowerSupply { charging_hw, usb_conn, state: initial_state }, initial_state)
    }

    /// Records a (possibly changed) USB presence reading: the tracked
    /// snapshot takes the new value, and the snapshot is returned for
    /// publication exactly when the presence actually flipped.
    pub fn usb_update(&mut self, connected: bool) -> (r: Option<PowerSupplyState>)
        ensures
            final (self).charging_hw == old(self).charging_hw,
            final (self).usb_conn == old(self).usb_conn,
            final (self).state == (PowerSupplyState { usb_connected: connected, ..old(self).state }),
            r == (if old(self).state.usb_connected != connected {
                Some(final (self).state)
            } else {
                None::<PowerSupplyState>
            }),
    {
        let prev_connected = self.state.usb_connected;
        self.state.usb_connected = connected;
        if prev_connected != connected {
            Some(self.state)
        } else {
            None
        }
    }

    /// Re-reads the USB presence line after a change notification and
    /// publishes the snapshot if the presence flipped.
    pub fn check_usb(&mut self) -> (r: Option<PowerSupplyState>)
        ensures
            final (self).charging_hw == old(self).charging_hw,
            match r {
                Some(st) => st == final (self).state && st.usb_connected
                    != old(self).state.usb_connected && final (self).state == (PowerSupplyState {
                    usb_connected: st.usb_connected,
                    ..old(self).state
                }),
                None => final (self).state == old(self).state,
            },
    {
        let connected = self.usb_conn.connected();
        self.usb_update(connected)
    }

    /// Runs the decision of one charging window: measures, actuates, and
    /// publishes the state exactly when it differs from the last
    /// published one.
    pub fn charge_cycle(&mut self) -> (r: Option<PowerSupplyState>)
        ensures
            final (self).usb_conn == old(self).usb_conn,
            final (self).state.usb_connected == old(self).state.usb_connected,
            exists|v: BatteryVoltage|
                {
                    let fresh = #[trigger] spec_supply_state(v, old(self).state.usb_connected);
                    if fresh != old(self).state {
                        final (self).state == fresh && r == Some(fresh)
                    } else {
                        final (self).state == old(self).state && r == None::<PowerSupplyState>
                    }
                },
    {
        let (voltage, new_state) = Self::configure_charging(
            &mut self.charging_hw,
            self.state.usb_connected,
        );
        if new_state != self.state {
            self.state = new_state;
            proof {
                assert(spec_supply_state(voltage, old(self).state.usb_connected) == new_state);
            }
            Some(new_state)
        } else {
            proof {
                assert(spec_supply_state(voltage, old(self).state.usb_connected) == new_state);
            }
            None
        }
    }

    /// Forces charging and balancing off for the recovery window, so the
    /// voltage settles before the next measurement.
    pub fn recovery(&mut self)
        ensures
            final (self).state == old(self).state,
            final (self).usb_conn == old(self).usb_conn,
    {
        self.charging_hw.configure_discharging(false, false);
        self.charging_hw.configure_charging(false);
    }
}

} // verus!
