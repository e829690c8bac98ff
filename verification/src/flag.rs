//! The condition flag.

use vstd::prelude::*;

verus! {

/// The condition flag: the sign of the value last written to a register by a
/// flag-setting write. Exactly one of the three holds at any time.
#[derive(Debug, Clone, Copy, PartialEq, Eq, Structural)]
pub enum Flag {
    /// The value was greater than zero as a two's-complement number.
    Positive,
    /// The value was zero.
    Zero,
    /// The value was less than zero as a two's-complement number.
    Negative,
}

impl Flag {
    /// The flag that a flag-setting write of `value` leaves: negative where
    /// bit 15 is set, zero for the zero word, positive otherwise.
    pub open spec fn of(value: u16) -> Flag {
        if value == 0 {
            Flag::Zero
        } else if value >= 0x8000 {
            Flag::Negative
        } else {
            Flag::Positive
        }
    }

    /// The flag as one bit of the three-bit `n z p` mask of a branch.
    pub open spec fn mask_spec(self) -> u16 {
        match self {
            Flag::Positive => 0b001,
            Flag::Zero => 0b010,
            Flag::Negative => 0b100,
        }
    }

    /// The flag that a flag-setting write of `value` leaves.
    pub fn for_value(value: u16) -> (flag: Flag)
        ensures
            flag == Flag::of(value),
    {
        if value == 0 {
            Flag::Zero
        } else if value >= 0x8000 {
            Flag::Negative
        } else {
            Flag::Positive
        }
    }

    /// The flag as one bit of the three-bit `n z p` mask of a branch.
    #[verifier::when_used_as_spec(mask_spec)]
    pub fn mask(self) -> (bits: u16)
        ensures
            bits == self.mask_spec(),
    {
        match self {
            Flag::Positive => 0b001,
            Flag::Zero => 0b010,
            Flag::Negative => 0b100,
        }
    }
}

} // verus!
