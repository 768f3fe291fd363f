use vstd::prelude::*;

verus! {

/// Bit pattern of the binary32 value `1.0`, the full-scale charge fraction.
pub const FULL_BITS: u32 = 0x3F80_0000;

/// Bit pattern of the binary32 value `-1.0`, reported where there is no reading.
pub const NO_READING_BITS: u32 = 0xBF80_0000;

/// A charge fraction, held as the bit pattern of its IEEE-754 binary32 value.
///
/// The pattern is carried unchanged, so a level reads back exactly as the
/// platform reported it. Two levels are equal when their patterns are; for
/// the constants used here (`1.0`, `-1.0`) that is the same as numeric
/// equality, since no other binary32 value compares equal to them.
#[derive(Clone, Copy, Debug, PartialEq, Eq, Structural)]
pub struct Level {
    pub bits: u32,
}

impl Level {
    /// The level `1.0`: a full battery.
    pub open spec fn full_spec() -> Level {
        Level { bits: FULL_BITS }
    }

    /// The level `-1.0`: no meaningful reading.
    pub open spec fn no_reading_spec() -> Level {
        Level { bits: NO_READING_BITS }
    }

    /// The level whose binary32 bit pattern is `bits`.
    pub fn from_bits(bits: u32) -> (r: Level)
        ensures
            r.bits == bits,
    {
        Level { bits }
    }

    /// The binary32 bit pattern of this level.
    pub fn to_bits(&self) -> (r: u32)
        ensures
            r == self.bits,
    {
        self.bits
    }

    /// The level `1.0`.
    pub fn full() -> (r: Level)
        ensures
            r == Level::full_spec(),
    {
        Level { bits: FULL_BITS }
    }

    /// The level `-1.0`.
    pub fn no_reading() -> (r: Level)
        ensures
            r == Level::no_reading_spec(),
    {
        Level { bits: NO_READING_BITS }
    }
}

} // verus!
