//! Single-precision values as bit patterns, and the numbers they stand for.
//!
//! A pattern has one sign bit, eight exponent bits and twenty-three fraction
//! bits. Every finite value is a whole multiple of 2^-149, the smallest
//! subnormal, so a finite value is modelled by that whole number.

use vstd::arithmetic::power2::{
    lemma_pow2_pos, lemma_pow2_strictly_increases, lemma_pow2_unfold, pow2,
};
use vstd::prelude::*;

verus! {

/// The pattern of positive zero.
pub const ZERO_BITS: u32 = 0;

/// The sign bit alone, which is also the pattern of negative zero.
pub const SIGN_BIT: u32 = 0x8000_0000;

/// The pattern of positive infinity: the largest one, sign bit aside, that is
/// still a number.
pub const INFINITY_BITS: u32 = 0x7F80_0000;

/// The number that a single-precision bit pattern stands for.
pub enum Number {
    /// Not a number: unordered with everything, itself included.
    Nan,
    /// An infinity; the flag is set for the negative one.
    Infinite(bool),
    /// A finite value `k * 2^-149`, given by `k`. Both zeros are `Finite(0)`.
    Finite(int),
}

impl Number {
    /// `self > other`: false whenever either side is not a number.
    pub open spec fn greater(self, other: Number) -> bool {
        match (self, other) {
            (Number::Finite(x), Number::Finite(y)) => x > y,
            (Number::Infinite(false), Number::Finite(_)) => true,
            (Number::Infinite(false), Number::Infinite(true)) => true,
            (Number::Finite(_), Number::Infinite(true)) => true,
            _ => false,
        }
    }

    /// `self >= other`: false whenever either side is not a number.
    pub open spec fn at_least(self, other: Number) -> bool {
        self != Number::Nan && other != Number::Nan && !other.greater(self)
    }

    /// `-self`.
    pub open spec fn negated(self) -> Number {
        match self {
            Number::Nan => Number::Nan,
            Number::Infinite(negative) => Number::Infinite(!negative),
            Number::Finite(k) => Number::Finite(-k),
        }
    }
}

/// A single-precision value, held as its bit pattern.
#[derive(Clone, Copy, Debug)]
pub struct Single {
    pub bits: u32,
}

impl Single {
    /// Whether the sign bit is set.
    pub open spec fn sign(self) -> bool {
        self.bits >= 0x8000_0000
    }

    /// The pattern without its sign bit.
    pub open spec fn unsigned_bits(self) -> nat {
        if self.sign() {
            (self.bits - 0x8000_0000) as nat
        } else {
            self.bits as nat
        }
    }

    /// The biased exponent, from 0 to 255.
    pub open spec fn exponent(self) -> nat {
        self.unsigned_bits() / 0x80_0000
    }

    /// The fraction field, below 2^23.
    pub open spec fn fraction(self) -> nat {
        self.unsigned_bits() % 0x80_0000
    }

    /// The pattern as a signed whole number: the pattern without its sign
    /// bit, taken below zero where the sign bit is set.
    pub open spec fn rank(self) -> int {
        if self.sign() {
            -(self.unsigned_bits() as int)
        } else {
            self.unsigned_bits() as int
        }
    }

    /// The absolute value in units of 2^-149, read off the exponent and
    /// fraction fields as for a finite pattern: the fraction alone for a
    /// subnormal, the fraction under an implicit leading one, scaled by the
    /// exponent, for a normal value.
    pub open spec fn magnitude(self) -> nat {
        if self.exponent() == 0 {
            self.fraction()
        } else {
            (0x80_0000 + self.fraction()) * pow2((self.exponent() - 1) as nat)
        }
    }
}

impl View for Single {
    type V = Number;

    open spec fn view(&self) -> Number {
        if self.exponent() == 255 {
            if self.fraction() == 0 {
                Number::Infinite(self.sign())
            } else {
                Number::Nan
            }
        } else if self.sign() {
            Number::Finite(-(self.magnitude() as int))
        } else {
            Number::Finite(self.magnitude() as int)
        }
    }
}

/// A larger pattern, sign bit aside, reads as a larger magnitude.
pub proof fn lemma_magnitude_increases(a: Single, b: Single)
    requires
        a.unsigned_bits() < b.unsigned_bits(),
    ensures
        a.magnitude() < b.magnitude(),
{
    let ea: nat = a.exponent();
    let eb: nat = b.exponent();
    let fa: nat = a.fraction();
    let fb: nat = b.fraction();
    assert(ea <= eb);
    if ea == eb {
        assert(fa < fb);
        if ea != 0 {
            let p: nat = pow2((ea - 1) as nat);
            lemma_pow2_pos((ea - 1) as nat);
            assert((0x80_0000 + fa) * p < (0x80_0000 + fb) * p) by (nonlinear_arith)
                requires
                    fa < fb,
                    p > 0,
            ;
        }
    } else {
        let q: nat = pow2((eb - 1) as nat);
        lemma_pow2_pos((eb - 1) as nat);
        assert(0x80_0000 * q <= (0x80_0000 + fb) * q) by (nonlinear_arith)
            requires
                q > 0,
        ;
        if ea == 0 {
            assert(0x80_0000 <= 0x80_0000 * q) by (nonlinear_arith)
                requires
                    q > 0,
            ;
        } else {
            let p: nat = pow2((ea - 1) as nat);
            lemma_pow2_pos((ea - 1) as nat);
            lemma_pow2_unfold(ea);
            if ea < eb - 1 {
                lemma_pow2_strictly_increases(ea, (eb - 1) as nat);
            }
            assert(2 * p <= q);
            assert((0x80_0000 + fa) * p < 0x80_0000 * q) by (nonlinear_arith)
                requires
                    fa < 0x80_0000,
                    p > 0,
                    2 * p <= q,
            ;
        }
    }
}

/// How a value stands to zero, read off its pattern: above zero from the
/// smallest subnormal up to positive infinity, zero for the two zeros, below
/// zero for the same patterns under a set sign bit, and not a number
/// beyond the infinities.
pub proof fn lemma_sign_of_pattern(s: Single)
    ensures
        s@.greater(Number::Finite(0)) <==> 0 < s.bits <= 0x7F80_0000,
        s@ == Number::Finite(0) <==> s.bits == 0 || s.bits == 0x8000_0000,
        Number::Finite(0).greater(s@) <==> 0x8000_0000 < s.bits <= 0xFF80_0000,
        s@ == Number::Nan <==> s.unsigned_bits() > 0x7F80_0000,
{
    if s.unsigned_bits() > 0 {
        lemma_magnitude_increases(Single { bits: 0 }, s);
    }
}

/// Numbers compare as their ranks do.
pub proof fn lemma_order_of_patterns(a: Single, b: Single)
    requires
        a@ != Number::Nan,
        b@ != Number::Nan,
    ensures
        a@.greater(b@) <==> a.rank() > b.rank(),
{
    if a.unsigned_bits() < b.unsigned_bits() {
        lemma_magnitude_increases(a, b);
    }
    if b.unsigned_bits() < a.unsigned_bits() {
        lemma_magnitude_increases(b, a);
    }
    if 0 < a.unsigned_bits() {
        lemma_magnitude_increases(Single { bits: 0 }, a);
    }
    if 0 < b.unsigned_bits() {
        lemma_magnitude_increases(Single { bits: 0 }, b);
    }
}

impl Single {
    /// The value with the given bit pattern.
    pub fn from_bits(bits: u32) -> (s: Single)
        ensures
            s.bits == bits,
    {
        Single { bits }
    }

    /// Positive zero.
    pub fn zero() -> (s: Single)
        ensures
            s.bits == ZERO_BITS,
            s@ == Number::Finite(0),
    {
        Single { bits: ZERO_BITS }
    }

    /// The pattern with its sign bit cleared.
    fn cleared(self) -> (m: u32)
        ensures
            m == self.unsigned_bits(),
            m < SIGN_BIT,
    {
        if self.bits >= SIGN_BIT {
            self.bits - SIGN_BIT
        } else {
            self.bits
        }
    }

    /// Whether the value is not a number.
    pub fn is_nan(self) -> (r: bool)
        ensures
            r == (self@ == Number::Nan),
    {
        self.cleared() > INFINITY_BITS
    }

    /// The value with its sign flipped.
    pub fn neg(self) -> (r: Single)
        ensures
            r@ == self@.negated(),
            r.sign() != self.sign(),
            r.unsigned_bits() == self.unsigned_bits(),
    {
        if self.bits >= SIGN_BIT {
            Single { bits: self.bits - SIGN_BIT }
        } else {
            Single { bits: self.bits + SIGN_BIT }
        }
    }

    /// `self > other`, as single-precision values compare: a value that is
    /// not a number is greater than nothing and nothing is greater than it,
    /// and the two zeros are equal.
    pub fn gt(self, other: Single) -> (r: bool)
        ensures
            r == self@.greater(other@),
    {
        if self.is_nan() || other.is_nan() {
            return false;
        }
        let a: u32 = self.cleared();
        let b: u32 = other.cleared();
        proof {
            lemma_order_of_patterns(self, other);
        }
        if self.bits >= SIGN_BIT {
            other.bits >= SIGN_BIT && a < b
        } else if other.bits >= SIGN_BIT {
            a != 0 || b != 0
        } else {
            a > b
        }
    }

    /// `self >= other`, as single-precision values compare: false whenever
    /// either side is not a number.
    pub fn ge(self, other: Single) -> (r: bool)
        ensures
            r == self@.at_least(other@),
    {
        !self.is_nan() && !other.is_nan() && !other.gt(self)
    }
}

} // verus!
