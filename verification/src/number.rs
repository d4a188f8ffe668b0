//! Real numbers that the library hands on but never computes with.
//!
//! Speeds, accelerations and gains come from sensors, from parameters or from the
//! control algorithms and go back to them. In between they are only stored, chosen
//! among and copied, so that all the library needs is to keep them unaltered.

use vstd::prelude::*;

verus! {

/// A real number as it was written down or as it was received.
///
/// Whoever takes one turns it into the floating-point format of its destination: a
/// destination of single precision rounds a `Decimal` or a double to the nearest.
#[derive(Clone, Copy, Debug, PartialEq, Eq, Structural)]
pub enum Real {
    /// `units / 10^places` with its sign, for the numbers that stand in the source text.
    /// `places` is the least that will do.
    Decimal { negative: bool, units: u64, places: u32 },
    /// The IEEE 754 double with these bits.
    Double(u64),
}

impl Real {
    /// The number `units / 10^places`.
    #[verifier::allow_in_spec]
    pub fn plus(units: u64, places: u32) -> Real
        returns
            (Real::Decimal { negative: false, units, places }),
    {
        Real::Decimal { negative: false, units, places }
    }

    /// The number `-units / 10^places`.
    #[verifier::allow_in_spec]
    pub fn minus(units: u64, places: u32) -> Real
        returns
            (Real::Decimal { negative: true, units, places }),
    {
        Real::Decimal { negative: true, units, places }
    }

    /// The number 0, which fields hold that nobody has set.
    #[verifier::allow_in_spec]
    pub fn zero() -> Real
        returns
            Real::plus(0, 0),
    {
        Real::plus(0, 0)
    }
}

/// Numbers as they stand in the source text keep their digits and their sign: different digits,
/// places or signs give different numbers, and only 0 is written without either.
pub proof fn law_written_numbers_keep_their_digits(units: u64, places: u32)
    ensures
        Real::plus(units, places) == (Real::Decimal { negative: false, units, places }),
        Real::minus(units, places) == (Real::Decimal { negative: true, units, places }),
        Real::plus(units, places) != Real::minus(units, places),
        Real::zero() == Real::plus(units, places) <==> units == 0 && places == 0,
        Real::zero() != Real::minus(units, places),
{
}

} // verus!
