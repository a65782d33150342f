//! Binary32 numbers held by their bit patterns.
//!
//! Verified code never computes with floating-point numbers. It carries them
//! as the 32 bits of their IEEE 754 encoding, reads sign and class from those
//! bits, and compares them as the hardware would.

use vstd::prelude::*;
use vstd::arithmetic::power2::{
    lemma2_to64, lemma_pow2_adds, lemma_pow2_pos, lemma_pow2_strictly_increases,
    lemma_pow2_unfold, pow2,
};

verus! {

/// The sign bit of a binary32 bit pattern.
pub const SIGN_BIT: u32 = 0x8000_0000;

/// The bit pattern of positive infinity. Every magnitude above it is a NaN.
pub const INFINITY_BITS: u32 = 0x7f80_0000;

/// The weight of the exponent field in a bit pattern, which is also the
/// hidden leading bit of a normal number's significand: `2^23`.
pub const HIDDEN_BIT: u32 = 0x0080_0000;

/// The bit pattern of `0.0`.
pub const ZERO_BITS: u32 = 0x0000_0000;

/// The bit pattern of `1.0`.
pub const ONE_BITS: u32 = 0x3f80_0000;

/// A binary32 number, held by its bit pattern.
///
/// `==` on two scalars asks whether the bit patterns are identical. Whether
/// two scalars are the same number is [`Scalar::same_number`]: there a NaN
/// differs from everything and the two zeros are equal.
#[derive(Clone, Copy, Debug, PartialEq, Eq, Hash, Structural)]
pub struct Scalar {
    pub bits: u32,
}

impl Scalar {
    /// The bit pattern with the sign bit cleared.
    pub open spec fn magnitude(self) -> u32 {
        if self.bits >= SIGN_BIT {
            (self.bits - SIGN_BIT) as u32
        } else {
            self.bits
        }
    }

    /// A NaN: the magnitude lies above that of infinity.
    pub open spec fn spec_is_nan(self) -> bool {
        self.magnitude() > INFINITY_BITS
    }

    /// Neither infinite nor a NaN: the magnitude lies below that of infinity.
    pub open spec fn spec_is_finite(self) -> bool {
        self.magnitude() < INFINITY_BITS
    }

    /// One of the two zeros.
    pub open spec fn spec_is_zero(self) -> bool {
        self.magnitude() == 0
    }

    /// The sign bit is clear.
    pub open spec fn spec_is_sign_positive(self) -> bool {
        self.bits < SIGN_BIT
    }

    /// Numeric equality: neither side is a NaN, and the two are the same bit
    /// pattern or are both zeros.
    pub open spec fn spec_same_number(self, other: Scalar) -> bool {
        &&& !self.spec_is_nan()
        &&& !other.spec_is_nan()
        &&& (self.bits == other.bits || (self.spec_is_zero() && other.spec_is_zero()))
    }

    /// The same bits with the sign bit cleared.
    pub open spec fn spec_abs(self) -> Scalar {
        Scalar { bits: self.magnitude() }
    }

    /// The same bits with the sign bit flipped.
    pub open spec fn spec_negated(self) -> Scalar {
        Scalar {
            bits: if self.bits >= SIGN_BIT {
                (self.bits - SIGN_BIT) as u32
            } else {
                (self.bits + SIGN_BIT) as u32
            },
        }
    }

    /// The exponent field: the eight bits below the sign bit.
    pub open spec fn exponent(self) -> nat {
        (self.magnitude() / HIDDEN_BIT) as nat
    }

    /// The fraction field: the lowest 23 bits.
    pub open spec fn fraction(self) -> nat {
        (self.magnitude() % HIDDEN_BIT) as nat
    }

    /// The significand as a whole number: the fraction, under a leading one
    /// unless the exponent field is zero.
    pub open spec fn significand(self) -> nat {
        if self.exponent() == 0 {
            self.fraction()
        } else {
            (HIDDEN_BIT + self.fraction()) as nat
        }
    }

    /// The power of two that scales the significand, counted from the
    /// least: nought for the exponent fields zero and one, and one more for
    /// each step of the field above that.
    pub open spec fn scaling(self) -> nat {
        if self.exponent() == 0 {
            0
        } else {
            (self.exponent() - 1) as nat
        }
    }

    /// How many times the least positive number, `2^-149`, goes into the
    /// magnitude of a finite scalar.
    pub open spec fn steps(self) -> nat {
        self.significand() * pow2(self.scaling())
    }

    /// The number that a finite scalar stands for, in units of `2^-149`.
    /// Both zeros stand for nought.
    pub open spec fn value(self) -> int {
        if self.spec_is_sign_positive() {
            self.steps() as int
        } else {
            -(self.steps() as int)
        }
    }

    /// The scalar with the given bit pattern.
    pub fn from_bits(bits: u32) -> (s: Scalar)
        ensures
            s.bits == bits,
    {
        Scalar { bits }
    }

    /// The bit pattern.
    pub fn to_bits(self) -> (bits: u32)
        ensures
            bits == self.bits,
    {
        self.bits
    }

    /// Whether this is a NaN.
    #[verifier::when_used_as_spec(spec_is_nan)]
    pub fn is_nan(self) -> (r: bool)
        ensures
            r == self.spec_is_nan(),
    {
        self.abs().bits > INFINITY_BITS
    }

    /// Whether this is neither infinite nor a NaN.
    #[verifier::when_used_as_spec(spec_is_finite)]
    pub fn is_finite(self) -> (r: bool)
        ensures
            r == self.spec_is_finite(),
    {
        self.abs().bits < INFINITY_BITS
    }

    /// Whether this is one of the two zeros.
    #[verifier::when_used_as_spec(spec_is_zero)]
    pub fn is_zero(self) -> (r: bool)
        ensures
            r == self.spec_is_zero(),
    {
        self.abs().bits == 0
    }

    /// Whether the sign bit is clear. True of `+0.0` and of a NaN with a
    /// clear sign bit too.
    #[verifier::when_used_as_spec(spec_is_sign_positive)]
    pub fn is_sign_positive(self) -> (r: bool)
        ensures
            r == self.spec_is_sign_positive(),
    {
        self.bits < SIGN_BIT
    }

    /// Whether the two are the same number.
    #[verifier::when_used_as_spec(spec_same_number)]
    pub fn same_number(self, other: Scalar) -> (r: bool)
        ensures
            r == self.spec_same_number(other),
    {
        !self.is_nan() && !other.is_nan() && (self.bits == other.bits || (self.is_zero()
            && other.is_zero()))
    }

    /// The absolute value: the same bits with the sign bit cleared.
    #[verifier::when_used_as_spec(spec_abs)]
    pub fn abs(self) -> (r: Scalar)
        ensures
            r == self.spec_abs(),
    {
        if self.bits >= SIGN_BIT {
            Scalar { bits: self.bits - SIGN_BIT }
        } else {
            self
        }
    }

    /// The negation: the same bits with the sign bit flipped.
    #[verifier::when_used_as_spec(spec_negated)]
    pub fn negated(self) -> (r: Scalar)
        ensures
            r == self.spec_negated(),
    {
        if self.bits >= SIGN_BIT {
            Scalar { bits: self.bits - SIGN_BIT }
        } else {
            Scalar { bits: self.bits + SIGN_BIT }
        }
    }
}

/// Being the same number is an equivalence on the scalars that are numbers:
/// it is symmetric and transitive, and every scalar but a NaN is the same
/// number as itself.
pub proof fn law_same_number_is_an_equivalence_but_for_nan(a: Scalar, b: Scalar, c: Scalar)
    ensures
        a.spec_same_number(a) <==> !a.spec_is_nan(),
        a.spec_same_number(b) ==> b.spec_same_number(a),
        a.spec_same_number(b) && b.spec_same_number(c) ==> a.spec_same_number(c),
        a == b && !a.spec_is_nan() ==> a.spec_same_number(b),
{
}

/// A greater magnitude of the bit pattern is a greater count of steps.
pub proof fn lemma_steps_follow_magnitude(a: Scalar, b: Scalar)
    requires
        a.magnitude() < b.magnitude(),
    ensures
        a.steps() < b.steps(),
{
    let low = a.significand() as int;
    let high = b.significand() as int;
    let low_scale = pow2(a.scaling()) as int;
    let high_scale = pow2(b.scaling()) as int;
    lemma_pow2_pos(a.scaling());
    lemma_pow2_pos(b.scaling());
    assert(a.magnitude() == a.exponent() * HIDDEN_BIT + a.fraction());
    assert(b.magnitude() == b.exponent() * HIDDEN_BIT + b.fraction());
    if a.exponent() == b.exponent() {
        assert(low * low_scale < high * low_scale) by (nonlinear_arith)
            requires
                low < high,
                low_scale > 0,
        ;
    } else {
        assert(a.exponent() < b.exponent()) by (nonlinear_arith)
            requires
                a.exponent() * HIDDEN_BIT + a.fraction() < b.exponent() * HIDDEN_BIT
                    + b.fraction(),
                a.fraction() < HIDDEN_BIT,
                b.fraction() < HIDDEN_BIT,
                a.exponent() != b.exponent(),
        ;
        assert(HIDDEN_BIT * high_scale <= high * high_scale) by (nonlinear_arith)
            requires
                HIDDEN_BIT <= high,
                high_scale > 0,
        ;
        if a.exponent() == 0 {
            assert(HIDDEN_BIT * 1 <= HIDDEN_BIT * high_scale) by (nonlinear_arith)
                requires
                    1 <= high_scale,
            ;
            assert(pow2(0) == 1) by {
                lemma2_to64();
            }
        } else {
            let next = (a.scaling() + 1) as nat;
            lemma_pow2_unfold(next);
            if next < b.scaling() {
                lemma_pow2_strictly_increases(next, b.scaling());
            }
            assert(low * low_scale < (2 * HIDDEN_BIT) * low_scale) by (nonlinear_arith)
                requires
                    low < 2 * HIDDEN_BIT,
                    low_scale > 0,
            ;
            assert(HIDDEN_BIT * (2 * low_scale) <= HIDDEN_BIT * high_scale) by (nonlinear_arith)
                requires
                    2 * low_scale <= high_scale,
            ;
            assert((2 * HIDDEN_BIT) * low_scale == HIDDEN_BIT * (2 * low_scale))
                by (nonlinear_arith);
        }
    }
}

/// A scalar counts no steps exactly when it is a zero.
pub proof fn lemma_only_zeros_have_no_steps(s: Scalar)
    ensures
        s.steps() == 0 <==> s.spec_is_zero(),
{
    let zero = Scalar { bits: ZERO_BITS };
    assert(zero.steps() == 0) by (nonlinear_arith)
        requires
            zero.significand() == 0,
            zero.steps() == zero.significand() * pow2(zero.scaling()),
    ;
    if s.magnitude() > 0 {
        lemma_steps_follow_magnitude(zero, s);
    } else {
        assert(s.steps() == 0) by (nonlinear_arith)
            requires
                s.significand() == 0,
                s.steps() == s.significand() * pow2(s.scaling()),
        ;
    }
}

/// Two finite scalars are the same number exactly when they stand for the
/// same value.
pub proof fn law_same_number_is_same_value(a: Scalar, b: Scalar)
    requires
        a.spec_is_finite(),
        b.spec_is_finite(),
    ensures
        a.spec_same_number(b) <==> a.value() == b.value(),
{
    lemma_only_zeros_have_no_steps(a);
    lemma_only_zeros_have_no_steps(b);
    if a.magnitude() < b.magnitude() {
        lemma_steps_follow_magnitude(a, b);
    }
    if b.magnitude() < a.magnitude() {
        lemma_steps_follow_magnitude(b, a);
    }
}

/// An infinite scalar is the same number as itself and as no other scalar.
pub proof fn law_infinities_stand_alone(a: Scalar, b: Scalar)
    requires
        a.magnitude() == INFINITY_BITS,
    ensures
        a.spec_same_number(b) <==> a == b,
{
}

/// Negation turns the value about nought and the absolute value drops its
/// sign.
pub proof fn law_sign_of_value(a: Scalar)
    ensures
        a.spec_negated().value() == -a.value(),
        a.spec_abs().value() == a.steps(),
        a.spec_is_sign_positive() ==> a.value() >= 0,
        !a.spec_is_sign_positive() ==> a.value() <= 0,
{
}

/// The bit pattern of `1.0` stands for one: `2^149` steps of `2^-149`.
pub proof fn law_one_stands_for_one()
    ensures
        (Scalar { bits: ONE_BITS }).spec_is_finite(),
        (Scalar { bits: ONE_BITS }).value() == pow2(149),
        (Scalar { bits: ZERO_BITS }).value() == 0,
{
    let one = Scalar { bits: ONE_BITS };
    assert(one.exponent() == 127 && one.fraction() == 0);
    lemma_pow2_adds(23, 126);
    assert(pow2(23) == HIDDEN_BIT) by {
        lemma2_to64();
    }
    lemma_only_zeros_have_no_steps(Scalar { bits: ZERO_BITS });
}

/// Sign and magnitude are apart: negating twice gives the scalar back, the
/// absolute value has a clear sign bit and is blind to negation, and
/// neither operation makes or unmakes a NaN, a zero or a finite number.
pub proof fn law_sign_is_apart_from_magnitude(a: Scalar)
    ensures
        a.spec_negated().spec_negated() == a,
        a.spec_negated() != a,
        a.spec_abs().spec_is_sign_positive(),
        a.spec_abs().spec_abs() == a.spec_abs(),
        a.spec_negated().spec_abs() == a.spec_abs(),
        a.spec_is_sign_positive() ==> a.spec_abs() == a,
        !a.spec_is_sign_positive() ==> a.spec_abs() == a.spec_negated(),
        a.spec_negated().spec_is_sign_positive() == !a.spec_is_sign_positive(),
        a.spec_negated().spec_is_nan() == a.spec_is_nan(),
        a.spec_negated().spec_is_zero() == a.spec_is_zero(),
        a.spec_negated().spec_is_finite() == a.spec_is_finite(),
        a.spec_abs().spec_is_nan() == a.spec_is_nan(),
        a.spec_abs().spec_is_zero() == a.spec_is_zero(),
        a.spec_abs().spec_is_finite() == a.spec_is_finite(),
{
}

} // verus!
