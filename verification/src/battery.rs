//! Battery readings of the mouse.

use vstd::prelude::*;

verus! {

/// Whether the battery is being charged.
#[derive(Debug, Clone, Copy, PartialEq, Eq, Structural)]
pub enum ChargingState {
    Charging,
    Discharging,
}

impl ChargingState {
    /// The state that a charging-status byte stands for: `0x01` is charging,
    /// every other byte discharging.
    pub open spec fn spec_from_byte(value: u8) -> ChargingState {
        if value == 0x01 {
            ChargingState::Charging
        } else {
            ChargingState::Discharging
        }
    }

    pub fn is_charging(self) -> (charging: bool)
        ensures
            charging == (self == ChargingState::Charging),
    {
        match self {
            ChargingState::Charging => true,
            ChargingState::Discharging => false,
        }
    }

    pub fn is_discharging(self) -> (discharging: bool)
        ensures
            discharging == (self == ChargingState::Discharging),
    {
        match self {
            ChargingState::Charging => false,
            ChargingState::Discharging => true,
        }
    }
}

impl From<u8> for ChargingState {
    fn from(value: u8) -> (state: ChargingState) {
        if value == 0x01 {
            ChargingState::Charging
        } else {
            ChargingState::Discharging
        }
    }
}

impl vstd::std_specs::convert::FromSpecImpl<u8> for ChargingState {
    open spec fn obeys_from_spec() -> bool {
        true
    }

    open spec fn from_spec(value: u8) -> ChargingState {
        ChargingState::spec_from_byte(value)
    }
}

/// The battery level in percent for a raw level byte, where 255 is full.
pub open spec fn spec_percentage(raw: u8) -> u8 {
    ((raw as int * 100) / 255) as u8
}

/// A battery reading: the raw level byte, the level in percent and the charging state.
#[derive(Debug, Clone, Copy, PartialEq, Eq, Structural)]
pub struct Battery {
    pub raw: u8,
    pub percentage: u8,
    pub state: ChargingState,
}

impl Battery {
    /// The reading for a raw level byte and a charging state; the percentage
    /// is `raw * 100 / 255`, rounded down.
    pub fn from_readings(raw: u8, state: ChargingState) -> (battery: Battery)
        ensures
            battery.raw == raw,
            battery.percentage == spec_percentage(raw),
            battery.state == state,
    {
        let scaled: u16 = (raw as u16) * 100;
        let percentage: u8 = (scaled / 255) as u8;
        Battery { raw, percentage, state }
    }

    pub fn is_charging(&self) -> (charging: bool)
        ensures
            charging == (self.state == ChargingState::Charging),
    {
        self.state.is_charging()
    }

    pub fn is_discharging(&self) -> (discharging: bool)
        ensures
            discharging == (self.state == ChargingState::Discharging),
    {
        self.state.is_discharging()
    }
}

/// A battery is either charging or discharging, never both.
pub proof fn lemma_charging_exclusive(state: ChargingState)
    ensures
        (state == ChargingState::Charging) != (state == ChargingState::Discharging),
{
}

/// The percentage never exceeds 100, reaches 100 exactly at raw 255, is 0 at
/// raw 0, and does not fall as the raw level rises.
pub proof fn lemma_percentage_scale(raw: u8, higher: u8)
    requires
        raw <= higher,
    ensures
        spec_percentage(raw) <= 100,
        spec_percentage(raw) == 100 <==> raw == 255,
        spec_percentage(0) == 0,
        spec_percentage(raw) <= spec_percentage(higher),
{
    let a: int = raw as int;
    let b: int = higher as int;
    assert(0 <= a * 100 / 255 <= 100) by (nonlinear_arith)
        requires
            0 <= a <= 255,
    ;
    assert(a * 100 / 255 == 100 <==> a == 255) by (nonlinear_arith)
        requires
            0 <= a <= 255,
    ;
    assert(a * 100 / 255 <= b * 100 / 255) by (nonlinear_arith)
        requires
            0 <= a <= b,
    ;
}

/// The percentage is the raw level scaled to 0..100 and rounded down:
/// `percentage * 255 <= raw * 100 < (percentage + 1) * 255`.
pub proof fn lemma_percentage_rounds_down(raw: u8)
    ensures
        spec_percentage(raw) as int * 255 <= raw as int * 100,
        raw as int * 100 < (spec_percentage(raw) as int + 1) * 255,
{
    let a: int = raw as int;
    assert(0 <= a * 100 / 255 <= 100) by (nonlinear_arith)
        requires
            0 <= a <= 255,
    ;
    assert((a * 100 / 255) * 255 <= a * 100 < (a * 100 / 255 + 1) * 255) by (nonlinear_arith)
        requires
            0 <= a,
    ;
}

/// A charging-status byte means charging exactly when it is `0x01`.
pub proof fn lemma_charging_byte(value: u8)
    ensures
        (ChargingState::spec_from_byte(value) == ChargingState::Charging) <==> value == 0x01,
        (ChargingState::spec_from_byte(value) == ChargingState::Discharging) <==> value != 0x01,
{
}

} // verus!
