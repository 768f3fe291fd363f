//! Battery status of a device as a closed, strongly typed value.
//!
//! The platform reports a charge fraction and an integer status code; this
//! crate classifies that raw record into [`BatteryState`] and answers the two
//! policy queries on it, [`BatteryState::is_full`] and [`BatteryState::level`].
//! Charge fractions are held as [`Level`], the bit pattern of a binary32 value,
//! so that every rule here is stated and checked over integers.

mod error;
mod level;
mod state;

pub use error::Error;
pub use level::{Level, FULL_BITS, NO_READING_BITS};
pub use state::{
    classified, classify, BatteryState, RawBattery, STATE_CHARGING, STATE_FULL, STATE_UNKNOWN,
    STATE_UNPLUGGED,
};
