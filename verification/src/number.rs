//! Numbers as the library holds them.
use vstd::prelude::*;

verus! {

/// A real-valued setting, held as the 64 bits of its IEEE 754 binary64
/// encoding. The library stores such values and hands them on; it never
/// computes with them, so two numbers are equal when their bits are.
#[derive(Clone, Copy, Debug, PartialEq, Eq, Structural)]
pub struct Number {
    pub bits: u64,
}

impl Number {
    /// The number zero, whose encoding is all zero bits.
    pub open spec fn spec_zero() -> Number {
        Number { bits: 0 }
    }

    #[verifier::when_used_as_spec(spec_zero)]
    pub fn zero() -> (n: Number)
        ensures
            n == Number::spec_zero(),
    {
        Number { bits: 0 }
    }

    pub fn from_bits(bits: u64) -> (n: Number)
        ensures
            n.bits == bits,
    {
        Number { bits }
    }

    pub fn to_bits(self) -> (bits: u64)
        ensures
            bits == self.bits,
    {
        self.bits
    }
}

impl Default for Number {
    fn default() -> (n: Number)
        ensures
            n == Number::zero(),
    {
        Number::zero()
    }
}

/// The value that a numeric text field takes when `parsed` is what its new
/// text denotes: the number read, or the value it had where the text is no
/// number.
pub open spec fn kept_or(parsed: Option<Number>, prior: Number) -> Number {
    match parsed {
        Some(v) => v,
        None => prior,
    }
}

/// Overwrites `val` with the number that was read, and leaves it alone where
/// nothing was.
pub fn change_if_valid(parsed: Option<Number>, val: &mut Number)
    ensures
        *final(val) == kept_or(parsed, *old(val)),
{
    if let Some(v) = parsed {
        *val = v;
    }
}

} // verus!
