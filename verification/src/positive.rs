//! Positions and counts of LEDs, which are never zero.

use vstd::prelude::*;

verus! {

/// A `usize` that is at least one: the position of an LED on a device,
/// counted from one, or the number of LEDs in a region.
#[derive(Debug, Clone, Copy, PartialEq, Eq)]
pub struct Positive {
    value: usize,
}

impl View for Positive {
    type V = nat;

    closed spec fn view(&self) -> nat {
        self.value as nat
    }
}

impl Positive {
    #[verifier::type_invariant]
    spec fn at_least_one(self) -> bool {
        self.value >= 1
    }

    /// The sum of a position and an offset, held at the largest `usize`.
    pub open spec fn spec_saturating_add(self, other: nat) -> nat {
        if self@ + other > usize::MAX {
            usize::MAX as nat
        } else {
            self@ + other
        }
    }

    /// Two values with the same number are the same value.
    pub proof fn lemma_view_injective(self, other: Positive)
        requires
            self@ == other@,
        ensures
            self == other,
    {
    }

    /// The smallest value, one.
    pub fn one() -> (p: Positive)
        ensures
            p@ == 1,
    {
        Positive { value: 1 }
    }

    /// `value` as a `Positive`, or `None` for zero.
    pub fn new(value: usize) -> (p: Option<Positive>)
        ensures
            value == 0 <==> p is None,
            p matches Some(q) ==> q@ == value,
    {
        if value == 0 {
            None
        } else {
            Some(Positive { value })
        }
    }

    /// The number itself.
    pub fn get(self) -> (value: usize)
        ensures
            value == self@,
            value >= 1,
    {
        proof {
            use_type_invariant(self);
        }
        self.value
    }

    /// Adds `other`, stopping at the largest `usize` instead of wrapping.
    pub fn saturating_add(self, other: usize) -> (sum: Positive)
        ensures
            sum@ == self.spec_saturating_add(other as nat),
            sum@ >= self@,
            sum@ >= 1,
    {
        proof {
            use_type_invariant(self);
        }
        let value = if other > usize::MAX - self.value {
            usize::MAX
        } else {
            self.value + other
        };
        Positive { value }
    }
}

} // verus!
