//! Real quantities as ordered codes.
//!
//! A quantity is carried in the IEEE 754 binary64 interchange encoding: one
//! sign bit above 63 bits of magnitude. On that encoding the order of two
//! numbers is the order of their signed magnitudes, negation flips the sign
//! bit, and a magnitude above that of infinity is not a number. The library
//! compares, negates and takes magnitudes of quantities, all of which is exact
//! on the code; sums, products and every other rounding operation are the
//! caller's, who hands the library their results.
use vstd::prelude::*;

verus! {

/// The sign bit of a code.
pub const SIGN_BIT: u64 = 0x8000_0000_0000_0000;

/// The magnitude of infinity; every larger magnitude is not a number.
pub const INFINITY_BITS: u64 = 0x7FF0_0000_0000_0000;

/// A not-a-number code.
pub const NAN_BITS: u64 = 0x7FF8_0000_0000_0000;

/// The code of one.
pub const ONE_BITS: u64 = 0x3FF0_0000_0000_0000;

/// The code of two.
pub const TWO_BITS: u64 = 0x4000_0000_0000_0000;

/// The code of four.
pub const FOUR_BITS: u64 = 0x4010_0000_0000_0000;

/// The code of a quarter turn, the number nearest to pi / 2.
pub const FRAC_PI_2_BITS: u64 = 0x3FF9_21FB_5444_2D18;

/// A real quantity, not a number, or an infinity, as its binary64 code.
///
/// `==` on two scalars compares the codes: it tells the two zeros apart and
/// finds a not-a-number equal to itself. The numeric comparisons are
/// [`Scalar::lt`], [`Scalar::le`] and [`Scalar::same`].
#[derive(Clone, Copy, Debug, PartialEq, Eq, Structural)]
pub struct Scalar {
    pub bits: u64,
}

impl Scalar {
    /// Whether the sign bit is set.
    pub open spec fn negative(self) -> bool {
        self.bits >= SIGN_BIT
    }

    /// The code without its sign bit.
    pub open spec fn magnitude(self) -> int {
        if self.bits >= SIGN_BIT {
            self.bits - SIGN_BIT
        } else {
            self.bits as int
        }
    }

    /// Where the quantity stands among all numbers: the signed magnitude.
    /// Both zeros stand at 0. Of two numbers the smaller has the smaller rank.
    pub open spec fn rank(self) -> int {
        if self.negative() {
            -self.magnitude()
        } else {
            self.magnitude()
        }
    }

    pub open spec fn spec_is_nan(self) -> bool {
        self.magnitude() > INFINITY_BITS
    }

    pub open spec fn spec_is_zero(self) -> bool {
        self.magnitude() == 0
    }

    pub open spec fn spec_lt(self, other: Scalar) -> bool {
        !self.spec_is_nan() && !other.spec_is_nan() && self.rank() < other.rank()
    }

    pub open spec fn spec_le(self, other: Scalar) -> bool {
        !self.spec_is_nan() && !other.spec_is_nan() && self.rank() <= other.rank()
    }

    pub open spec fn spec_same(self, other: Scalar) -> bool {
        !self.spec_is_nan() && !other.spec_is_nan() && self.rank() == other.rank()
    }

    pub open spec fn spec_neg(self) -> Scalar {
        if self.bits >= SIGN_BIT {
            Scalar { bits: (self.bits - SIGN_BIT) as u64 }
        } else {
            Scalar { bits: (self.bits + SIGN_BIT) as u64 }
        }
    }

    pub open spec fn spec_abs(self) -> Scalar {
        Scalar { bits: self.magnitude() as u64 }
    }

    pub open spec fn spec_zero() -> Scalar {
        Scalar { bits: 0 }
    }

    pub open spec fn spec_neg_zero() -> Scalar {
        Scalar { bits: SIGN_BIT }
    }

    pub open spec fn spec_one() -> Scalar {
        Scalar { bits: ONE_BITS }
    }

    pub open spec fn spec_two() -> Scalar {
        Scalar { bits: TWO_BITS }
    }

    pub open spec fn spec_four() -> Scalar {
        Scalar { bits: FOUR_BITS }
    }

    pub open spec fn spec_frac_pi_2() -> Scalar {
        Scalar { bits: FRAC_PI_2_BITS }
    }

    pub open spec fn spec_nan() -> Scalar {
        Scalar { bits: NAN_BITS }
    }

    /// The quantity with code `bits`.
    pub fn from_bits(bits: u64) -> (r: Scalar)
        ensures
            r.bits == bits,
    {
        Scalar { bits }
    }

    /// The code of the quantity.
    pub fn to_bits(self) -> (r: u64)
        ensures
            r == self.bits,
    {
        self.bits
    }

    /// Positive zero.
    #[verifier::when_used_as_spec(spec_zero)]
    pub fn zero() -> (r: Scalar)
        ensures
            r == Scalar::spec_zero(),
    {
        Scalar { bits: 0 }
    }

    /// Negative zero.
    #[verifier::when_used_as_spec(spec_neg_zero)]
    pub fn neg_zero() -> (r: Scalar)
        ensures
            r == Scalar::spec_neg_zero(),
    {
        Scalar { bits: SIGN_BIT }
    }

    /// One.
    #[verifier::when_used_as_spec(spec_one)]
    pub fn one() -> (r: Scalar)
        ensures
            r == Scalar::spec_one(),
    {
        Scalar { bits: ONE_BITS }
    }

    /// Two.
    #[verifier::when_used_as_spec(spec_two)]
    pub fn two() -> (r: Scalar)
        ensures
            r == Scalar::spec_two(),
    {
        Scalar { bits: TWO_BITS }
    }

    /// Four.
    #[verifier::when_used_as_spec(spec_four)]
    pub fn four() -> (r: Scalar)
        ensures
            r == Scalar::spec_four(),
    {
        Scalar { bits: FOUR_BITS }
    }

    /// A quarter turn in radians.
    #[verifier::when_used_as_spec(spec_frac_pi_2)]
    pub fn frac_pi_2() -> (r: Scalar)
        ensures
            r == Scalar::spec_frac_pi_2(),
    {
        Scalar { bits: FRAC_PI_2_BITS }
    }

    /// A quantity that is not a number.
    #[verifier::when_used_as_spec(spec_nan)]
    pub fn nan() -> (r: Scalar)
        ensures
            r == Scalar::spec_nan(),
    {
        Scalar { bits: NAN_BITS }
    }

    /// Whether the quantity is not a number.
    #[verifier::when_used_as_spec(spec_is_nan)]
    pub fn is_nan(self) -> (r: bool)
        ensures
            r == self.spec_is_nan(),
    {
        self.abs().bits > INFINITY_BITS
    }

    /// Whether the quantity is one of the two zeros.
    #[verifier::when_used_as_spec(spec_is_zero)]
    pub fn is_zero(self) -> (r: bool)
        ensures
            r == self.spec_is_zero(),
    {
        self.abs().bits == 0
    }

    /// Whether the sign bit is set. It is set on negative zero, and may be
    /// set on a quantity that is not a number.
    pub fn is_sign_negative(self) -> (r: bool)
        ensures
            r == self.negative(),
    {
        self.bits >= SIGN_BIT
    }

    /// The quantity with its sign bit flipped: the negation.
    #[verifier::when_used_as_spec(spec_neg)]
    pub fn neg(self) -> (r: Scalar)
        ensures
            r == self.spec_neg(),
    {
        if self.bits >= SIGN_BIT {
            Scalar { bits: self.bits - SIGN_BIT }
        } else {
            Scalar { bits: self.bits + SIGN_BIT }
        }
    }

    /// The quantity with its sign bit cleared: the absolute value.
    #[verifier::when_used_as_spec(spec_abs)]
    pub fn abs(self) -> (r: Scalar)
        ensures
            r == self.spec_abs(),
    {
        if self.bits >= SIGN_BIT {
            Scalar { bits: self.bits - SIGN_BIT }
        } else {
            self
        }
    }

    /// Numeric `<`: false as soon as either side is not a number.
    #[verifier::when_used_as_spec(spec_lt)]
    pub fn lt(self, other: Scalar) -> (r: bool)
        ensures
            r == self.spec_lt(other),
    {
        if self.is_nan() || other.is_nan() {
            return false;
        }
        let a: u64 = self.abs().bits;
        let b: u64 = other.abs().bits;
        if self.is_sign_negative() {
            if other.is_sign_negative() {
                b < a
            } else {
                a > 0 || b > 0
            }
        } else {
            !other.is_sign_negative() && a < b
        }
    }

    /// Numeric `==`: the two zeros are the same number, and what is not a
    /// number is the same as nothing.
    #[verifier::when_used_as_spec(spec_same)]
    pub fn same(self, other: Scalar) -> (r: bool)
        ensures
            r == self.spec_same(other),
    {
        if self.is_nan() || other.is_nan() {
            return false;
        }
        let a: u64 = self.abs().bits;
        let b: u64 = other.abs().bits;
        if a == 0 && b == 0 {
            true
        } else {
            self.bits == other.bits
        }
    }

    /// Numeric `<=`.
    #[verifier::when_used_as_spec(spec_le)]
    pub fn le(self, other: Scalar) -> (r: bool)
        ensures
            r == self.spec_le(other),
    {
        self.lt(other) || self.same(other)
    }

    /// Numeric `>`.
    pub fn gt(self, other: Scalar) -> (r: bool)
        ensures
            r == other.spec_lt(self),
    {
        other.lt(self)
    }

    /// Numeric `>=`.
    pub fn ge(self, other: Scalar) -> (r: bool)
        ensures
            r == other.spec_le(self),
    {
        other.le(self)
    }
}

/// Negating twice gives the code back.
pub proof fn lemma_neg_involution(a: Scalar)
    ensures
        a.spec_neg().spec_neg() == a,
{
}

/// Negation keeps the magnitude, so what is not a number stays so, and it
/// mirrors the rank.
pub proof fn lemma_neg_mirrors(a: Scalar)
    ensures
        a.spec_neg().magnitude() == a.magnitude(),
        a.spec_neg().spec_is_nan() == a.spec_is_nan(),
        a.spec_neg().rank() == -a.rank(),
        a.spec_neg().spec_abs() == a.spec_abs(),
{
}

/// Negation reverses the order.
pub proof fn lemma_neg_reverses_order(a: Scalar, b: Scalar)
    ensures
        a.spec_lt(b) == b.spec_neg().spec_lt(a.spec_neg()),
        a.spec_same(b) == a.spec_neg().spec_same(b.spec_neg()),
{
}

/// The absolute value is never below zero and never above its own negation's
/// absolute value: it depends on the magnitude alone.
pub proof fn lemma_abs(a: Scalar)
    ensures
        !a.spec_abs().negative(),
        a.spec_abs().rank() == a.magnitude(),
        a.spec_abs().spec_abs() == a.spec_abs(),
        a.spec_abs().spec_is_nan() == a.spec_is_nan(),
        !a.spec_is_nan() ==> Scalar::spec_zero().spec_le(a.spec_abs()),
{
}

/// Among numbers exactly one of `<`, `==`, `>` holds; with something that is
/// not a number none does.
pub proof fn lemma_trichotomy(a: Scalar, b: Scalar)
    ensures
        !a.spec_is_nan() && !b.spec_is_nan() ==> (a.spec_lt(b) || a.spec_same(b) || b.spec_lt(a)),
        !(a.spec_lt(b) && a.spec_same(b)),
        !(a.spec_lt(b) && b.spec_lt(a)),
        a.spec_is_nan() || b.spec_is_nan() ==> !a.spec_lt(b) && !a.spec_same(b) && !b.spec_lt(a),
        a.spec_le(b) == (a.spec_lt(b) || a.spec_same(b)),
{
}

/// `<` is transitive, also through `==`.
pub proof fn lemma_lt_transitive(a: Scalar, b: Scalar, c: Scalar)
    ensures
        a.spec_lt(b) && b.spec_lt(c) ==> a.spec_lt(c),
        a.spec_le(b) && b.spec_lt(c) ==> a.spec_lt(c),
        a.spec_lt(b) && b.spec_le(c) ==> a.spec_lt(c),
        a.spec_le(b) && b.spec_le(c) ==> a.spec_le(c),
{
}

} // verus!
