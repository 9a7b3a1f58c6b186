//! Single-precision numbers, held by their bits.
//!
//! Distances and factors reach the shell as IEEE 754 binary32 numbers. The shell passes most of
//! them on as they are; it compares two of them, by magnitude, to find the axis of a scroll, and
//! turns the sign of one over to scroll the other way.

use vstd::arithmetic::power2::*;
use vstd::prelude::*;

verus! {

/// An IEEE 754 binary32 number: one sign bit, eight bits of exponent, 23 bits of fraction.
#[derive(Clone, Copy, Debug, PartialEq, Eq, Structural)]
pub struct Single {
    pub bits: u32,
}

impl Single {
    /// The number without its sign bit.
    pub open spec fn unsigned_bits(self) -> u32 {
        self.bits % 0x8000_0000
    }

    /// Whether the bits stand for no number.
    pub open spec fn is_nan(self) -> bool {
        self.unsigned_bits() > 0x7f80_0000
    }

    /// The absolute value, in units of the smallest positive number (2 to the power -149).
    /// Infinity stands one step above the largest finite number.
    #[verifier::opaque]
    pub open spec fn magnitude(self) -> nat {
        let exponent = self.unsigned_bits() as nat / 0x80_0000;
        let fraction = self.unsigned_bits() as nat % 0x80_0000;
        if exponent == 0 {
            fraction
        } else {
            (0x80_0000 + fraction) * pow2((exponent - 1) as nat)
        }
    }

    /// The number itself, in the same units.
    pub open spec fn value(self) -> int {
        if self.bits < 0x8000_0000 {
            self.magnitude() as int
        } else {
            -(self.magnitude() as int)
        }
    }

    /// Positive zero.
    pub open spec fn spec_zero() -> Single {
        Single { bits: 0 }
    }

    /// Positive zero.
    #[verifier::when_used_as_spec(spec_zero)]
    pub fn zero() -> (number: Single)
        ensures
            number == Single::zero(),
            number.magnitude() == 0,
            !number.is_nan(),
    {
        proof {
            lemma_zero_has_no_magnitude();
        }
        Single { bits: 0 }
    }

    /// The number with the other sign; zero has the positive one.
    pub open spec fn spec_opposite(self) -> Single {
        if self.unsigned_bits() == 0 {
            Single::zero()
        } else if self.bits < 0x8000_0000 {
            Single { bits: (self.bits + 0x8000_0000) as u32 }
        } else {
            Single { bits: (self.bits - 0x8000_0000) as u32 }
        }
    }

    /// The number with the other sign; zero has the positive one.
    #[verifier::when_used_as_spec(spec_opposite)]
    pub fn opposite(self) -> (number: Single)
        ensures
            number == self.opposite(),
    {
        if self.bits % 0x8000_0000 == 0 {
            Single::zero()
        } else if self.bits < 0x8000_0000 {
            Single { bits: self.bits + 0x8000_0000 }
        } else {
            Single { bits: self.bits - 0x8000_0000 }
        }
    }

    /// Whether both are numbers and this one is at least as far from zero as `other`.
    pub fn outweighs(self, other: Single) -> (yes: bool)
        ensures
            yes == (!self.is_nan() && !other.is_nan() && self.magnitude() >= other.magnitude()),
    {
        let this: u32 = self.bits % 0x8000_0000;
        let that: u32 = other.bits % 0x8000_0000;
        proof {
            lemma_magnitude_is_ordered_as_bits(other, self);
        }
        this <= 0x7f80_0000 && that <= 0x7f80_0000 && this >= that
    }
}

/// Zero is the least magnitude.
pub proof fn lemma_zero_has_no_magnitude()
    ensures
        Single::zero().magnitude() == 0,
{
    reveal(Single::magnitude);
}

/// A number and its opposite add up to zero.
pub proof fn lemma_opposites_cancel(number: Single)
    ensures
        number.opposite().unsigned_bits() == number.unsigned_bits(),
        number.opposite().magnitude() == number.magnitude(),
        number.opposite().value() == -number.value(),
{
    reveal(Single::magnitude);
}

/// Without their signs, numbers are ordered as their bits are.
pub proof fn lemma_magnitude_is_ordered_as_bits(a: Single, b: Single)
    ensures
        a.unsigned_bits() <= b.unsigned_bits() <==> a.magnitude() <= b.magnitude(),
{
    if a.unsigned_bits() < b.unsigned_bits() {
        lemma_magnitude_grows(a, b);
    } else if b.unsigned_bits() < a.unsigned_bits() {
        lemma_magnitude_grows(b, a);
    } else {
        reveal(Single::magnitude);
    }
}

proof fn lemma_magnitude_grows(a: Single, b: Single)
    requires
        a.unsigned_bits() < b.unsigned_bits(),
    ensures
        a.magnitude() < b.magnitude(),
{
    reveal(Single::magnitude);
    let a_exponent = a.unsigned_bits() as nat / 0x80_0000;
    let a_fraction = a.unsigned_bits() as nat % 0x80_0000;
    let b_exponent = b.unsigned_bits() as nat / 0x80_0000;
    let b_fraction = b.unsigned_bits() as nat % 0x80_0000;
    if b_exponent > 0 {
        let b_unit = pow2((b_exponent - 1) as nat);
        lemma_pow2_pos((b_exponent - 1) as nat);
        if a_exponent == 0 {
            assert(0x80_0000 <= (0x80_0000 + b_fraction) * b_unit) by (nonlinear_arith)
                requires
                    b_unit >= 1,
            ;
        } else {
            let a_unit = pow2((a_exponent - 1) as nat);
            lemma_pow2_pos((a_exponent - 1) as nat);
            if a_exponent == b_exponent {
                assert((0x80_0000 + a_fraction) * a_unit < (0x80_0000 + b_fraction) * a_unit)
                    by (nonlinear_arith)
                    requires
                        a_fraction < b_fraction,
                        a_unit >= 1,
                ;
            } else {
                lemma_pow2_unfold(a_exponent);
                assert(2 * a_unit == pow2(a_exponent));
                assert(pow2(a_exponent) <= b_unit) by {
                    if a_exponent < b_exponent - 1 {
                        lemma_pow2_strictly_increases(a_exponent, (b_exponent - 1) as nat);
                    }
                }
                assert((0x80_0000 + a_fraction) * a_unit < (0x80_0000 + b_fraction) * b_unit)
                    by (nonlinear_arith)
                    requires
                        a_fraction < 0x80_0000,
                        a_unit >= 1,
                        2 * a_unit <= b_unit,
                ;
            }
        }
    }
}

} // verus!
