//! Single-precision numbers by their bit patterns.
//!
//! A [`Scalar`] is the 32-bit encoding of an IEEE 754 binary32 number: one
//! sign bit, eight exponent bits, twenty-three fraction bits. Nothing here
//! computes with such numbers; the module only orders them, which is all that
//! a threshold test needs.

use vstd::prelude::*;
use vstd::arithmetic::power2::{
    lemma2_to64, lemma_pow2_pos, lemma_pow2_strictly_increases, lemma_pow2_unfold, pow2,
};

verus! {

/// Weight of the sign bit.
pub const SIGN_BIT: u32 = 0x8000_0000;

/// Encoding of positive infinity; every magnitude above it is a NaN.
pub const INFINITY_BITS: u32 = 0x7f80_0000;

/// Number of encodings that share one exponent.
pub const FRACTION_SPAN: u32 = 0x0080_0000;

/// A binary32 number, held as the 32 bits that encode it.
///
/// `==` compares encodings: it tells the two zeros apart and finds a NaN equal
/// to itself. To compare the numbers, use [`Scalar::less`], [`Scalar::at_most`]
/// and [`Scalar::exceeds`].
#[derive(Clone, Copy, Debug, PartialEq, Eq, Structural)]
pub struct Scalar {
    pub bits: u32,
}

impl Scalar {
    /// The encoding without its sign bit.
    pub open spec fn magnitude(self) -> int {
        if self.bits >= SIGN_BIT {
            self.bits - SIGN_BIT
        } else {
            self.bits as int
        }
    }

    /// Whether the sign bit is set. True of negative zero and of some NaNs.
    pub open spec fn is_negative(self) -> bool {
        self.bits >= SIGN_BIT
    }

    /// Whether the encoding is that of a NaN.
    pub open spec fn is_nan(self) -> bool {
        self.magnitude() > INFINITY_BITS
    }

    /// Whether the number is zero, subnormal or normal.
    pub open spec fn is_finite(self) -> bool {
        self.magnitude() < INFINITY_BITS
    }

    /// Position of the number on the extended real line, for a number that is
    /// not a NaN: the magnitude, negated under a set sign bit. Both zeros have
    /// rank 0.
    pub open spec fn rank(self) -> int {
        if self.is_negative() {
            -self.magnitude()
        } else {
            self.magnitude()
        }
    }

    /// `self < other` as IEEE 754 defines it: false when either side is a NaN.
    pub open spec fn lt(self, other: Scalar) -> bool {
        !self.is_nan() && !other.is_nan() && self.rank() < other.rank()
    }

    /// `self <= other` as IEEE 754 defines it: false when either side is a NaN.
    pub open spec fn le(self, other: Scalar) -> bool {
        !self.is_nan() && !other.is_nan() && self.rank() <= other.rank()
    }

    /// `self > other` as IEEE 754 defines it.
    pub open spec fn gt(self, other: Scalar) -> bool {
        other.lt(self)
    }

    /// The biased exponent field.
    pub open spec fn exponent(self) -> int {
        self.magnitude() / (FRACTION_SPAN as int)
    }

    /// The fraction field.
    pub open spec fn fraction(self) -> int {
        self.magnitude() % (FRACTION_SPAN as int)
    }

    /// The absolute value of a finite number in units of 2^-149, the spacing of
    /// the subnormals. A subnormal is its fraction; a normal number is its
    /// fraction with the hidden bit, shifted by one less than its exponent.
    pub open spec fn units(self) -> nat {
        if self.exponent() == 0 {
            self.fraction() as nat
        } else {
            ((FRACTION_SPAN + self.fraction()) * pow2((self.exponent() - 1) as nat)) as nat
        }
    }

    /// The value of a finite number in units of 2^-149.
    pub open spec fn value(self) -> int {
        if self.is_negative() {
            -(self.units() as int)
        } else {
            self.units() as int
        }
    }

    /// Whether the number is the positive normal binary32 nearest to the
    /// fraction `num / den`: it differs from the fraction by at most half the
    /// spacing of the numbers that share its exponent.
    pub open spec fn rounds(self, num: nat, den: nat) -> bool {
        let e = self.exponent();
        let significand = FRACTION_SPAN + self.fraction();
        let error = den * significand - num * pow2((150 - e) as nat);
        &&& !self.is_negative()
        &&& 0 < e <= 150
        &&& -(den as int) <= 2 * error <= den
    }

    /// Wraps an encoding.
    pub fn from_bits(bits: u32) -> (s: Scalar)
        ensures
            s.bits == bits,
    {
        Scalar { bits }
    }

    /// The encoding.
    pub fn to_bits(self) -> (bits: u32)
        ensures
            bits == self.bits,
    {
        self.bits
    }

    fn magnitude_bits(self) -> (m: u32)
        ensures
            m == self.magnitude(),
            m < SIGN_BIT,
    {
        if self.bits >= SIGN_BIT {
            self.bits - SIGN_BIT
        } else {
            self.bits
        }
    }

    /// Tests for a NaN.
    pub fn nan(self) -> (r: bool)
        ensures
            r == self.is_nan(),
    {
        self.magnitude_bits() > INFINITY_BITS
    }

    /// IEEE 754 `<`.
    pub fn less(self, other: Scalar) -> (r: bool)
        ensures
            r == self.lt(other),
    {
        if self.nan() || other.nan() {
            return false;
        }
        let a: u32 = self.magnitude_bits();
        let b: u32 = other.magnitude_bits();
        if self.bits >= SIGN_BIT {
            if other.bits >= SIGN_BIT {
                b < a
            } else {
                a != 0 || b != 0
            }
        } else {
            other.bits < SIGN_BIT && a < b
        }
    }

    /// IEEE 754 `<=`.
    pub fn at_most(self, other: Scalar) -> (r: bool)
        ensures
            r == self.le(other),
    {
        if self.nan() || other.nan() {
            return false;
        }
        !other.less(self)
    }

    /// IEEE 754 `>`.
    pub fn exceeds(self, other: Scalar) -> (r: bool)
        ensures
            r == self.gt(other),
    {
        other.less(self)
    }
}

/// Among finite numbers of one sign, the larger magnitude encodes the number
/// that lies farther from zero.
pub proof fn lemma_units_increase(a: Scalar, b: Scalar)
    requires
        a.is_finite(),
        b.is_finite(),
        a.magnitude() < b.magnitude(),
    ensures
        a.units() < b.units(),
{
    let span = FRACTION_SPAN as int;
    let (ea, fa) = (a.exponent(), a.fraction());
    let (eb, fb) = (b.exponent(), b.fraction());
    assert(a.magnitude() == span * ea + fa && b.magnitude() == span * eb + fb);
    assert(0 <= fa < span && 0 <= fb < span);
    assert(0 <= ea <= eb);
    if ea == eb {
        if ea != 0 {
            let p = pow2((ea - 1) as nat);
            lemma_pow2_pos((ea - 1) as nat);
            assert((span + fa) * p < (span + fb) * p) by (nonlinear_arith)
                requires
                    fa < fb,
                    p > 0,
            ;
        }
    } else {
        // below: a lies under the first number of the next exponent
        let step = pow2(ea as nat);
        lemma_pow2_pos(ea as nat);
        assert(a.units() < span * step) by {
            if ea == 0 {
                assert(pow2(0) == 1) by {
                    lemma2_to64();
                }
            } else {
                let p = pow2((ea - 1) as nat);
                lemma_pow2_unfold(ea as nat);
                assert((span + fa) * p < span * (2 * p)) by (nonlinear_arith)
                    requires
                        fa < span,
                        p > 0,
                ;
            }
        }
        // above: b is at least the first number of its own exponent
        let q = pow2((eb - 1) as nat);
        if ea < eb - 1 {
            lemma_pow2_strictly_increases(ea as nat, (eb - 1) as nat);
        }
        assert(span * step <= (span + fb) * q) by (nonlinear_arith)
            requires
                step <= q,
                0 <= fb,
                span > 0,
        ;
    }
}

/// The order of the encodings is the order of the numbers: for finite `a` and
/// `b`, ranks compare as the values do. This is what makes a comparison of
/// ranks a comparison of the numbers themselves.
pub proof fn lemma_rank_orders_values(a: Scalar, b: Scalar)
    requires
        a.is_finite(),
        b.is_finite(),
    ensures
        a.rank() < b.rank() <==> a.value() < b.value(),
        a.rank() == b.rank() <==> a.value() == b.value(),
{
    let zero = Scalar { bits: 0 };
    assert(zero.units() == 0);
    if 0 < a.magnitude() {
        lemma_units_increase(zero, a);
    }
    if 0 < b.magnitude() {
        lemma_units_increase(zero, b);
    }
    if a.magnitude() < b.magnitude() {
        lemma_units_increase(a, b);
    }
    if b.magnitude() < a.magnitude() {
        lemma_units_increase(b, a);
    }
}

} // verus!
