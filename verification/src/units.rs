//! Quantities that several modules share.

use vstd::prelude::*;

verus! {

/// A point in time on a monotonic clock, or a length of time, in nanoseconds.
pub type Nanos = u128;

/// A loudness, a gain or a volume: a single-precision number, carried by its
/// bit pattern. The library stores such numbers and hands them back; whoever
/// calls it computes with them.
#[derive(Clone, Copy, PartialEq, Eq, Structural, Debug)]
pub struct Level {
    /// The IEEE 754 representation.
    pub bits: u32,
}

/// The bit pattern of one: the gain that changes nothing.
pub const UNITY_BITS: u32 = 0x3f80_0000;

/// The bit pattern of one half: the volume of a guild that has set none.
pub const HALF_BITS: u32 = 0x3f00_0000;

impl Level {
    /// The gain that changes nothing.
    pub open spec fn spec_unity() -> Level {
        Level { bits: UNITY_BITS }
    }

    /// The volume of a guild that has set none.
    pub open spec fn spec_half() -> Level {
        Level { bits: HALF_BITS }
    }

    /// The gain that changes nothing.
    #[verifier::when_used_as_spec(spec_unity)]
    pub fn unity() -> (r: Level)
        ensures
            r == Level::spec_unity(),
    {
        Level { bits: UNITY_BITS }
    }

    /// The volume of a guild that has set none.
    #[verifier::when_used_as_spec(spec_half)]
    pub fn half() -> (r: Level)
        ensures
            r == Level::spec_half(),
    {
        Level { bits: HALF_BITS }
    }
}

} // verus!
