use vstd::prelude::*;

verus! {

/// Errors of this crate.
///
/// Battery anomalies reported by the platform are data, carried by
/// `BatteryState::Error`, not failures. `BatteryMissing` is kept for a caller
/// that finds no battery on the device; nothing here produces it.
#[derive(Clone, Copy, Debug, PartialEq, Eq, Structural)]
pub enum Error {
    BatteryMissing,
}

} // verus!
