//! Numbers as bit patterns.
//!
//! A [`Scalar`] is an IEEE-754 binary64 number held by its 64 bits: one sign
//! bit, then eleven exponent bits, then fifty-two fraction bits. Read as a
//! sign and a 63-bit magnitude, two numbers that are not NaN compare as their
//! signed magnitudes do, and the two zeros are equal. That makes comparison,
//! negation, absolute value and clamping exact integer work.

use vstd::prelude::*;
use vstd::arithmetic::power2::pow2;
use vstd::arithmetic::power2::lemma_pow2_pos;
use vstd::arithmetic::power2::lemma_pow2_unfold;
use vstd::arithmetic::power2::lemma_pow2_strictly_increases;

verus! {

/// The sign bit.
pub const SIGN_BIT: u64 = 0x8000_0000_0000_0000;

/// The magnitude of the two infinities; a larger magnitude is a NaN.
pub const INFINITY_MAGNITUDE: u64 = 0x7FF0_0000_0000_0000;

/// Two to the power fifty-two: one more than the largest fraction field.
pub const FRACTION_SPAN: u64 = 0x0010_0000_0000_0000;

/// The bits of the number one.
pub const ONE_BITS: u64 = 0x3FF0_0000_0000_0000;

/// The bits of the quiet NaN.
pub const QUIET_NAN_BITS: u64 = 0x7FF8_0000_0000_0000;

/// The bits of the tolerance `1e-8`, below which a length counts as zero.
pub const TOLERANCE_BITS: u64 = 0x3E45_798E_E230_8C3A;

/// An IEEE-754 binary64 number, held by its bit pattern.
#[derive(Clone, Copy, Debug)]
pub struct Scalar {
    pub bits: u64,
}

impl Scalar {
    /// Whether the sign bit is set.
    pub open spec fn spec_is_sign_negative(self) -> bool {
        self.bits >= SIGN_BIT
    }

    /// The low 63 bits: exponent and fraction, read as one integer.
    pub open spec fn magnitude(self) -> int {
        if self.bits >= SIGN_BIT {
            self.bits - SIGN_BIT
        } else {
            self.bits as int
        }
    }

    /// Whether the number is a NaN.
    pub open spec fn spec_is_nan(self) -> bool {
        self.magnitude() > INFINITY_MAGNITUDE
    }

    /// Whether the number is neither a NaN nor an infinity.
    pub open spec fn spec_is_finite(self) -> bool {
        self.magnitude() < INFINITY_MAGNITUDE
    }

    /// The eleven bits of the exponent field.
    pub open spec fn exponent_field(self) -> int {
        self.magnitude() / (FRACTION_SPAN as int)
    }

    /// The fifty-two bits of the fraction field.
    pub open spec fn fraction_field(self) -> int {
        self.magnitude() % (FRACTION_SPAN as int)
    }

    /// The significand of a number that is neither a NaN nor an infinity,
    /// as an integer: the fraction, with the hidden bit above it unless the
    /// number is subnormal. The absolute value of the number is
    /// `significand * 2^exponent`.
    pub open spec fn significand(self) -> int {
        if self.exponent_field() == 0 {
            self.fraction_field()
        } else {
            FRACTION_SPAN + self.fraction_field()
        }
    }

    /// The power of two by which the significand is scaled.
    pub open spec fn exponent(self) -> int {
        if self.exponent_field() == 0 {
            -1074
        } else {
            self.exponent_field() - 1075
        }
    }

    /// The absolute value of a number that is neither a NaN nor an
    /// infinity, times `2^1074`: an integer, since `2^-1074` is the least
    /// step between two numbers.
    pub open spec fn scaled_magnitude(self) -> int {
        self.significand() * pow2((self.exponent() + 1074) as nat)
    }

    /// A number that is neither a NaN nor an infinity, times `2^1074`.
    pub open spec fn scaled(self) -> int {
        if self.is_sign_negative() {
            -self.scaled_magnitude()
        } else {
            self.scaled_magnitude()
        }
    }

    /// The integer part of the absolute value times `2^k`.
    pub open spec fn scaled_floor(self, k: int) -> int {
        if self.exponent() + k >= 0 {
            self.significand() * pow2((self.exponent() + k) as nat)
        } else {
            self.significand() / (pow2((-(self.exponent() + k)) as nat) as int)
        }
    }

    /// The place of the number in the order of all numbers that are not NaN:
    /// the magnitude, negated where the sign bit is set. Both zeros have
    /// rank zero.
    pub open spec fn rank(self) -> int {
        if self.is_sign_negative() {
            -self.magnitude()
        } else {
            self.magnitude()
        }
    }

    /// `self < other`: false where either is a NaN.
    pub open spec fn spec_lt(self, other: Scalar) -> bool {
        !self.is_nan() && !other.is_nan() && self.rank() < other.rank()
    }

    /// `self <= other`: false where either is a NaN.
    pub open spec fn spec_le(self, other: Scalar) -> bool {
        !self.is_nan() && !other.is_nan() && self.rank() <= other.rank()
    }

    /// `self > other`: false where either is a NaN.
    pub open spec fn spec_gt(self, other: Scalar) -> bool {
        other.lt(self)
    }

    /// `self >= other`: false where either is a NaN.
    pub open spec fn spec_ge(self, other: Scalar) -> bool {
        other.le(self)
    }

    /// The number with the sign bit flipped.
    pub open spec fn negated(self) -> Scalar {
        if self.bits >= SIGN_BIT {
            Scalar { bits: (self.bits - SIGN_BIT) as u64 }
        } else {
            Scalar { bits: (self.bits + SIGN_BIT) as u64 }
        }
    }

    /// The number with the sign bit cleared.
    pub open spec fn absolute(self) -> Scalar {
        Scalar { bits: self.magnitude() as u64 }
    }

    /// Positive zero.
    pub open spec fn spec_zero() -> Scalar {
        Scalar { bits: 0 }
    }

    /// The number one.
    pub open spec fn spec_one() -> Scalar {
        Scalar { bits: ONE_BITS }
    }

    /// Positive infinity.
    pub open spec fn spec_infinity() -> Scalar {
        Scalar { bits: INFINITY_MAGNITUDE }
    }

    /// Negative infinity.
    pub open spec fn spec_neg_infinity() -> Scalar {
        Scalar { bits: 0xFFF0_0000_0000_0000 }
    }

    /// The tolerance `1e-8`.
    pub open spec fn spec_tolerance() -> Scalar {
        Scalar { bits: TOLERANCE_BITS }
    }

    /// One with the sign of `self`, also for a zero and an infinity; the
    /// quiet NaN for a NaN.
    pub open spec fn spec_signum(self) -> Scalar {
        if self.is_nan() {
            Scalar { bits: QUIET_NAN_BITS }
        } else if self.is_sign_negative() {
            Scalar { bits: (ONE_BITS + SIGN_BIT) as u64 }
        } else {
            Scalar { bits: ONE_BITS }
        }
    }

    /// The number with the given bit pattern.
    pub fn from_bits(bits: u64) -> (s: Scalar)
        ensures
            s.bits == bits,
    {
        Scalar { bits }
    }

    /// The bit pattern of the number.
    pub fn to_bits(self) -> (bits: u64)
        ensures
            bits == self.bits,
    {
        self.bits
    }

    /// Positive zero.
    #[verifier::when_used_as_spec(spec_zero)]
    pub fn zero() -> (s: Scalar)
        ensures
            s == Scalar::spec_zero(),
    {
        Scalar { bits: 0 }
    }

    /// The number one.
    #[verifier::when_used_as_spec(spec_one)]
    pub fn one() -> (s: Scalar)
        ensures
            s == Scalar::spec_one(),
    {
        Scalar { bits: ONE_BITS }
    }

    /// Positive infinity.
    #[verifier::when_used_as_spec(spec_infinity)]
    pub fn infinity() -> (s: Scalar)
        ensures
            s == Scalar::spec_infinity(),
    {
        Scalar { bits: INFINITY_MAGNITUDE }
    }

    /// Negative infinity.
    #[verifier::when_used_as_spec(spec_neg_infinity)]
    pub fn neg_infinity() -> (s: Scalar)
        ensures
            s == Scalar::spec_neg_infinity(),
    {
        Scalar { bits: 0xFFF0_0000_0000_0000 }
    }

    /// The tolerance `1e-8`.
    #[verifier::when_used_as_spec(spec_tolerance)]
    pub fn tolerance() -> (s: Scalar)
        ensures
            s == Scalar::spec_tolerance(),
    {
        Scalar { bits: TOLERANCE_BITS }
    }

    /// Whether the sign bit is set.
    #[verifier::when_used_as_spec(spec_is_sign_negative)]
    pub fn is_sign_negative(self) -> (r: bool)
        ensures
            r == self.spec_is_sign_negative(),
    {
        self.bits >= SIGN_BIT
    }

    /// The low 63 bits.
    pub fn magnitude_bits(self) -> (m: u64)
        ensures
            m == self.magnitude(),
    {
        if self.bits >= SIGN_BIT {
            self.bits - SIGN_BIT
        } else {
            self.bits
        }
    }

    /// Whether the number is a NaN.
    #[verifier::when_used_as_spec(spec_is_nan)]
    pub fn is_nan(self) -> (r: bool)
        ensures
            r == self.spec_is_nan(),
    {
        self.magnitude_bits() > INFINITY_MAGNITUDE
    }

    /// Whether the number is neither a NaN nor an infinity.
    #[verifier::when_used_as_spec(spec_is_finite)]
    pub fn is_finite(self) -> (r: bool)
        ensures
            r == self.spec_is_finite(),
    {
        self.magnitude_bits() < INFINITY_MAGNITUDE
    }

    /// The signed magnitude by which numbers that are not NaN are ordered.
    pub fn ordinal(self) -> (r: i64)
        ensures
            r == self.rank(),
    {
        let m: u64 = self.magnitude_bits();
        if self.bits >= SIGN_BIT {
            -(m as i64)
        } else {
            m as i64
        }
    }

    /// `self < other`.
    #[verifier::when_used_as_spec(spec_lt)]
    pub fn lt(self, other: Scalar) -> (r: bool)
        ensures
            r == self.spec_lt(other),
    {
        !self.is_nan() && !other.is_nan() && self.ordinal() < other.ordinal()
    }

    /// `self <= other`.
    #[verifier::when_used_as_spec(spec_le)]
    pub fn le(self, other: Scalar) -> (r: bool)
        ensures
            r == self.spec_le(other),
    {
        !self.is_nan() && !other.is_nan() && self.ordinal() <= other.ordinal()
    }

    /// `self > other`.
    #[verifier::when_used_as_spec(spec_gt)]
    pub fn gt(self, other: Scalar) -> (r: bool)
        ensures
            r == self.spec_gt(other),
    {
        other.lt(self)
    }

    /// `self >= other`.
    #[verifier::when_used_as_spec(spec_ge)]
    pub fn ge(self, other: Scalar) -> (r: bool)
        ensures
            r == self.spec_ge(other),
    {
        other.le(self)
    }

    /// `-self`: the sign bit flipped, also of a zero or a NaN.
    #[verifier::when_used_as_spec(negated)]
    pub fn neg(self) -> (r: Scalar)
        ensures
            r == self.negated(),
    {
        if self.bits >= SIGN_BIT {
            Scalar { bits: self.bits - SIGN_BIT }
        } else {
            Scalar { bits: self.bits + SIGN_BIT }
        }
    }

    /// `|self|`: the sign bit cleared.
    #[verifier::when_used_as_spec(absolute)]
    pub fn abs(self) -> (r: Scalar)
        ensures
            r == self.absolute(),
    {
        Scalar { bits: self.magnitude_bits() }
    }

    /// One with the sign of `self`, or a NaN for a NaN.
    #[verifier::when_used_as_spec(spec_signum)]
    pub fn signum(self) -> (r: Scalar)
        ensures
            r == self.spec_signum(),
    {
        if self.is_nan() {
            Scalar { bits: QUIET_NAN_BITS }
        } else if self.bits >= SIGN_BIT {
            Scalar { bits: ONE_BITS + SIGN_BIT }
        } else {
            Scalar { bits: ONE_BITS }
        }
    }
}

/// Among the numbers that are neither NaN nor infinite, a greater bit
/// pattern below the sign bit is a greater absolute value.
pub proof fn lemma_magnitude_orders_values(a: Scalar, b: Scalar)
    requires
        a.is_finite(),
        b.is_finite(),
    ensures
        a.magnitude() < b.magnitude() <==> a.scaled_magnitude() < b.scaled_magnitude(),
        a.magnitude() == b.magnitude() <==> a.scaled_magnitude() == b.scaled_magnitude(),
        a.scaled_magnitude() >= 0,
        a.magnitude() == 0 <==> a.scaled_magnitude() == 0,
{
    lemma_magnitude_step(a, b);
    lemma_magnitude_step(b, a);
    lemma_magnitude_step(Scalar::zero(), a);
    assert(Scalar::zero().scaled_magnitude() == 0) by {
        assert(Scalar::zero().magnitude() == 0);
        assert(Scalar::zero().exponent_field() == 0);
        assert(Scalar::zero().fraction_field() == 0);
        assert(0 * pow2(0) == 0);
    }
}

/// One direction of `lemma_magnitude_orders_values`.
proof fn lemma_magnitude_step(a: Scalar, b: Scalar)
    requires
        a.is_finite(),
        b.is_finite(),
    ensures
        a.magnitude() < b.magnitude() ==> a.scaled_magnitude() < b.scaled_magnitude(),
        a.magnitude() == b.magnitude() ==> a.scaled_magnitude() == b.scaled_magnitude(),
{
    let span = FRACTION_SPAN as int;
    let ea = a.exponent_field();
    let eb = b.exponent_field();
    let ma = a.fraction_field();
    let mb = b.fraction_field();
    assert(a.magnitude() == ea * span + ma && 0 <= ma < span && 0 <= ea < 0x7FF);
    assert(b.magnitude() == eb * span + mb && 0 <= mb < span && 0 <= eb < 0x7FF);
    if a.magnitude() < b.magnitude() {
        assert(ea <= eb);
        let pa = pow2((a.exponent() + 1074) as nat) as int;
        let pb = pow2((b.exponent() + 1074) as nat) as int;
        lemma_pow2_pos((a.exponent() + 1074) as nat);
        lemma_pow2_pos((b.exponent() + 1074) as nat);
        if ea == eb {
            assert(ma < mb);
            assert(pa == pb);
            assert(a.significand() < b.significand());
            assert(a.significand() * pa < b.significand() * pa) by (nonlinear_arith)
                requires
                    a.significand() < b.significand(),
                    pa > 0,
            ;
        } else if ea == 0 {
            assert(pow2(0) == 1) by {
                vstd::arithmetic::power2::lemma2_to64();
            }
            assert(a.scaled_magnitude() == ma * 1);
            assert(b.significand() * pb >= span) by (nonlinear_arith)
                requires
                    b.significand() >= span,
                    pb >= 1,
                    span > 0,
            ;
        } else {
            let ka = (ea - 1) as nat;
            let kb = (eb - 1) as nat;
            assert(pa == pow2(ka) && pb == pow2(kb));
            lemma_pow2_unfold(ka + 1);
            assert(pow2(ka + 1) == 2 * pow2(ka));
            if ka + 1 < kb {
                lemma_pow2_strictly_increases(ka + 1, kb);
            }
            assert(pow2(ka + 1) <= pb);
            assert(a.significand() * pa < 2 * span * pa) by (nonlinear_arith)
                requires
                    a.significand() < 2 * span,
                    pa > 0,
            ;
            assert(2 * span * pa == span * (2 * pa)) by (nonlinear_arith);
            assert(span * (2 * pa) <= span * pb) by (nonlinear_arith)
                requires
                    2 * pa <= pb,
                    span > 0,
            ;
            assert(span * pb <= b.significand() * pb) by (nonlinear_arith)
                requires
                    span <= b.significand(),
                    pb > 0,
            ;
        }
    }
}

/// The order of the bit patterns is the order of the numbers: of two
/// numbers that are neither NaN nor infinite, the one of lower rank is the
/// lower number, and two of equal rank are the same number.
pub proof fn lemma_rank_orders_values(a: Scalar, b: Scalar)
    requires
        a.is_finite(),
        b.is_finite(),
    ensures
        a.lt(b) <==> a.scaled() < b.scaled(),
        a.le(b) <==> a.scaled() <= b.scaled(),
        a.rank() == b.rank() <==> a.scaled() == b.scaled(),
{
    lemma_magnitude_orders_values(a, b);
    lemma_magnitude_orders_values(b, a);
}

/// The two infinities lie beyond every other number, and the order of the
/// numbers that are not NaN is total.
pub proof fn lemma_order_is_total(a: Scalar, b: Scalar, c: Scalar)
    ensures
        !a.is_nan() ==> Scalar::neg_infinity().le(a) && a.le(Scalar::infinity()),
        !a.is_nan() && !b.is_nan() ==> a.lt(b) || b.le(a),
        a.lt(b) ==> a.le(b) && !b.le(a),
        a.le(b) && b.le(c) ==> a.le(c),
        a.le(b) && b.le(a) ==> a.rank() == b.rank(),
        !a.is_nan() ==> a.le(a),
        a.is_nan() ==> !a.le(b) && !b.le(a) && !a.lt(b) && !b.lt(a),
{
}

/// Flipping the sign reverses the order, twice flipping gives the number
/// back, and an absolute value is never below zero.
pub proof fn lemma_negation_reverses(a: Scalar, b: Scalar)
    ensures
        a.negated().negated() == a,
        a.negated().is_nan() == a.is_nan(),
        a.lt(b) <==> b.negated().lt(a.negated()),
        a.le(b) <==> b.negated().le(a.negated()),
        a.negated().rank() == -a.rank(),
        !a.is_nan() ==> a.absolute().ge(Scalar::zero()),
        !a.is_nan() ==> a.absolute().rank() == if a.rank() < 0 { -a.rank() } else { a.rank() },
{
}

} // verus!
