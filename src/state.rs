use vstd::prelude::*;

use crate::level::{Level, FULL_BITS};

verus! {

/// Status code of the raw record: the state could not be determined.
pub const STATE_UNKNOWN: isize = 0;

/// Status code of the raw record: running on battery.
pub const STATE_UNPLUGGED: isize = 1;

/// Status code of the raw record: plugged in and charging.
pub const STATE_CHARGING: isize = 2;

/// Status code of the raw record: plugged in and fully charged.
pub const STATE_FULL: isize = 3;

/// The record the platform reports: a charge fraction and a status code.
///
/// Known status codes are `0..=3`; any other value is out of domain.
#[derive(Clone, Copy, Debug, PartialEq, Eq, Structural)]
pub struct RawBattery {
    pub level: Level,
    pub state: isize,
}

/// Battery state of the device, exactly one variant at a time.
#[derive(Clone, Copy, Debug, PartialEq, Eq, Structural)]
pub enum BatteryState {
    /// Plugged in; the charge fraction.
    Charging(Level),
    /// Unplugged; the charge fraction.
    Discharging(Level),
    /// The platform could not tell.
    Unknown,
    /// The platform reported a status code outside the known domain.
    Error,
}

/// The state that the status code `state` with fraction `level` stands for.
pub open spec fn classified(level: Level, state: isize) -> BatteryState {
    if state == STATE_UNKNOWN {
        BatteryState::Unknown
    } else if state == STATE_UNPLUGGED {
        BatteryState::Discharging(level)
    } else if state == STATE_CHARGING {
        BatteryState::Charging(level)
    } else if state == STATE_FULL {
        BatteryState::Charging(Level::full_spec())
    } else {
        BatteryState::Error
    }
}

/// Classifies a raw reading. Total: codes outside `0..=3` give `Error`.
///
/// A fully charged report (code 3) carries the level `1.0`, whatever fraction
/// came with it; codes 1 and 2 carry the fraction unchanged.
pub fn classify(level: Level, state: isize) -> (r: BatteryState)
    ensures
        r == classified(level, state),
        state == 0 ==> r == BatteryState::Unknown,
        state == 1 ==> r == BatteryState::Discharging(level),
        state == 2 ==> r == BatteryState::Charging(level),
        state == 3 ==> r == BatteryState::Charging(Level::full_spec()),
        !(0 <= state <= 3) ==> r == BatteryState::Error,
{
    match state {
        STATE_UNKNOWN => BatteryState::Unknown,
        STATE_UNPLUGGED => BatteryState::Discharging(level),
        STATE_CHARGING => BatteryState::Charging(level),
        STATE_FULL => BatteryState::Charging(Level::full()),
        _ => BatteryState::Error,
    }
}

impl BatteryState {
    /// True exactly when the battery is charging at the full-scale level `1.0`.
    pub fn is_full(&self) -> (r: bool)
        ensures
            r == (*self == BatteryState::Charging(Level::full_spec())),
    {
        match self {
            BatteryState::Charging(level) => level.bits == FULL_BITS,
            _ => false,
        }
    }

    /// The charge fraction of `Charging` and `Discharging`, unchanged;
    /// `-1.0` for `Unknown` and `Error`, which carry no reading.
    pub fn level(&self) -> (r: Level)
        ensures
            *self matches BatteryState::Charging(l) ==> r == l,
            *self matches BatteryState::Discharging(l) ==> r == l,
            (*self is Unknown || *self is Error) ==> r == Level::no_reading_spec(),
    {
        match self {
            BatteryState::Charging(level) | BatteryState::Discharging(level) => *level,
            _ => Level::no_reading(),
        }
    }
}

impl From<&RawBattery> for BatteryState {
    fn from(raw: &RawBattery) -> (r: BatteryState)
        ensures
            r == classified(raw.level, raw.state),
    {
        classify(raw.level, raw.state)
    }
}

impl vstd::std_specs::convert::FromSpecImpl<&RawBattery> for BatteryState {
    open spec fn obeys_from_spec() -> bool {
        true
    }

    open spec fn from_spec(raw: &RawBattery) -> BatteryState {
        classified(raw.level, raw.state)
    }
}

} // verus!
