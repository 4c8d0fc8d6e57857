//! The device catalog and the device-independent view of a peripheral:
//! what kind of device it is, how it is connected and what its battery reports.

use vstd::prelude::*;

use crate::battery::Battery;
use crate::protocol::PollingRate;

pub mod deathadder_v3_hyperspeed;

verus! {

/// What sort of peripheral a device is.
#[derive(Debug, Clone, Copy, PartialEq, Eq, Structural)]
pub enum DeviceKind {
    Mouse,
    Keyboard,
    Headset,
    Other,
}

/// Charging state as shown for any device; `Unknown` where a device does not report it.
#[derive(Debug, Clone, Copy, PartialEq, Eq, Structural)]
pub enum ChargingState {
    Charging,
    Discharging,
    Unknown,
}

impl ChargingState {
    /// The shown state of a mouse charging state.
    pub open spec fn spec_from_battery_state(value: crate::battery::ChargingState) -> ChargingState {
        match value {
            crate::battery::ChargingState::Charging => ChargingState::Charging,
            crate::battery::ChargingState::Discharging => ChargingState::Discharging,
        }
    }
}

impl From<crate::battery::ChargingState> for ChargingState {
    fn from(value: crate::battery::ChargingState) -> (state: ChargingState) {
        match value {
            crate::battery::ChargingState::Charging => ChargingState::Charging,
            crate::battery::ChargingState::Discharging => ChargingState::Discharging,
        }
    }
}

impl vstd::std_specs::convert::FromSpecImpl<crate::battery::ChargingState> for ChargingState {
    open spec fn obeys_from_spec() -> bool {
        true
    }

    open spec fn from_spec(value: crate::battery::ChargingState) -> ChargingState {
        ChargingState::spec_from_battery_state(value)
    }
}

/// How the device is physically talking to the host right now.
#[derive(Debug, Clone, Copy, PartialEq, Eq, Structural)]
pub enum ConnectionType {
    Usb,
    Wireless2_4Ghz,
    Bluetooth,
    Unknown,
}

/// A battery report of a device.
#[derive(Debug, Clone, Copy, PartialEq, Eq, Structural)]
pub struct BatteryStatus {
    pub percentage: u8,
    pub raw: u8,
    pub state: ChargingState,
    pub connection: ConnectionType,
}

/// The connection of a DeathAdder V3 HyperSpeed: the 2.4 GHz receiver or USB.
pub open spec fn spec_connection(wireless: bool) -> ConnectionType {
    if wireless {
        ConnectionType::Wireless2_4Ghz
    } else {
        ConnectionType::Usb
    }
}

impl BatteryStatus {
    /// The report made of a mouse battery reading and its connection.
    pub fn from_battery(battery: &Battery, wireless: bool) -> (status: BatteryStatus)
        ensures
            status.percentage == battery.percentage,
            status.raw == battery.raw,
            status.state == ChargingState::spec_from_battery_state(battery.state),
            status.connection == spec_connection(wireless),
    {
        let connection = if wireless {
            ConnectionType::Wireless2_4Ghz
        } else {
            ConnectionType::Usb
        };
        BatteryStatus {
            percentage: battery.percentage,
            raw: battery.raw,
            state: ChargingState::from(battery.state),
            connection,
        }
    }
}

/// An error of a device, as a message.
#[derive(Debug, Clone)]
pub struct DeviceError(pub String);

/// A peripheral that can be polled for its battery and, where supported,
/// read and set for its polling rate. Each backend implements it.
pub trait Device: Send {
    fn poll_battery(&mut self) -> Result<BatteryStatus, DeviceError>;

    fn supports_polling_rate(&self) -> bool;

    fn get_polling_rate(&mut self) -> Result<PollingRate, DeviceError>;

    fn set_polling_rate(&mut self, rate: PollingRate) -> Result<(), DeviceError>;
}

/// The backend that opens a catalogued device.
#[derive(Debug, Clone, Copy, PartialEq, Eq, Structural)]
pub enum Backend {
    DeathAdderV3HyperSpeed,
}

/// A device that the application knows how to open.
#[derive(Debug, Clone, Copy)]
pub struct DeviceDescriptor {
    pub brand: &'static str,
    pub model: &'static str,
    pub kind: DeviceKind,
    pub backend: Backend,
}

/// The devices that can be added: the Razer DeathAdder V3 HyperSpeed mouse.
pub fn catalog() -> (devices: Vec<DeviceDescriptor>)
    ensures
        devices@.len() == 1,
        devices@[0].brand@ == "Razer"@,
        devices@[0].model@ == "DeathAdder V3 HyperSpeed"@,
        devices@[0].kind == DeviceKind::Mouse,
        devices@[0].backend == Backend::DeathAdderV3HyperSpeed,
{
    let mut devices: Vec<DeviceDescriptor> = Vec::new();
    devices.push(
        DeviceDescriptor {
            brand: "Razer",
            model: "DeathAdder V3 HyperSpeed",
            kind: DeviceKind::Mouse,
            backend: Backend::DeathAdderV3HyperSpeed,
        },
    );
    devices
}

/// The mouse reports the 2.4 GHz connection exactly when it is reached
/// through its receiver, and USB otherwise.
pub proof fn lemma_connection(wireless: bool)
    ensures
        (spec_connection(wireless) == ConnectionType::Wireless2_4Ghz) <==> wireless,
        (spec_connection(wireless) == ConnectionType::Usb) <==> !wireless,
{
}

/// A mouse charging state is shown as the same state, never as unknown.
pub proof fn lemma_shown_battery_state(state: crate::battery::ChargingState)
    ensures
        (ChargingState::spec_from_battery_state(state) == ChargingState::Charging) <==> state
            == crate::battery::ChargingState::Charging,
        (ChargingState::spec_from_battery_state(state) == ChargingState::Discharging) <==> state
            == crate::battery::ChargingState::Discharging,
        ChargingState::spec_from_battery_state(state) != ChargingState::Unknown,
{
}

} // verus!
