//! Decimal numbers with three decimal places.

use vstd::prelude::*;

verus! {

/// A decimal number held as a whole count of thousandths: revolutions per
/// minute, percentages and brightness are measured in it.
#[derive(Debug, Clone, Copy, PartialEq, Eq)]
pub struct Fixed {
    /// The number times one thousand.
    pub thousandths: i32,
}

impl Fixed {
    /// The number that is `thousandths` thousandths.
    pub fn from_thousandths(thousandths: i32) -> (n: Fixed)
        ensures
            n.thousandths == thousandths,
    {
        Fixed { thousandths }
    }

    /// The whole number `units`, held at the largest or smallest number that
    /// fits where `units` is out of range.
    pub fn from_int(units: i32) -> (n: Fixed)
        ensures
            -2_147_483 <= units <= 2_147_483 ==> n.thousandths == units * 1000,
            units > 2_147_483 ==> n.thousandths == i32::MAX,
            units < -2_147_483 ==> n.thousandths == i32::MIN,
    {
        if units > 2_147_483 {
            Fixed { thousandths: i32::MAX }
        } else if units < -2_147_483 {
            Fixed { thousandths: i32::MIN }
        } else {
            Fixed { thousandths: units * 1000 }
        }
    }
}

} // verus!
