//! Amounts of money held as whole hundredths of a currency unit, and their
//! rounding to whole units.

use vstd::prelude::*;

verus! {

/// How many hundredths make one currency unit.
pub const HUNDREDTHS_PER_UNIT: i64 = 100;

/// The whole number of units nearest to an amount in hundredths. An amount
/// that lies exactly halfway between two whole numbers goes to the one
/// farther from zero.
pub open spec fn round_half_away(hundredths: int) -> int {
    if hundredths >= 0 {
        (hundredths + 50) / 100
    } else {
        -((50 - hundredths) / 100)
    }
}

/// `value` held to the range of a 32-bit signed integer.
pub open spec fn saturate_i32(value: int) -> int {
    if value < i32::MIN {
        i32::MIN as int
    } else if value > i32::MAX {
        i32::MAX as int
    } else {
        value
    }
}

/// Rounds an amount in hundredths to whole units, halves away from zero.
/// A result beyond the range of `i32` becomes the nearest bound.
pub fn round_to_units(hundredths: i64) -> (units: i32)
    ensures
        units == saturate_i32(round_half_away(hundredths as int)),
{
    let wide: i128 = hundredths as i128;
    if wide >= 0 {
        let quotient: i128 = (wide + 50) / 100;
        if quotient > i32::MAX as i128 {
            i32::MAX
        } else {
            quotient as i32
        }
    } else {
        let quotient: i128 = (50 - wide) / 100;
        if quotient > 0x8000_0000i128 {
            i32::MIN
        } else {
            (-quotient) as i32
        }
    }
}

/// Rounding moves an amount by at most half a unit.
pub proof fn lemma_round_is_nearest(hundredths: int)
    ensures
        -50 <= 100 * round_half_away(hundredths) - hundredths <= 50,
{
}

/// An amount of whole units rounds to that number of units.
pub proof fn lemma_round_whole_units(units: int)
    ensures
        round_half_away(100 * units) == units,
{
}

} // verus!
