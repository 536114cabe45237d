use vstd::prelude::*;
use crate::sign::Sign;

verus! {

/// A real-valued request field, held as the 64 bits of its IEEE 754 binary64
/// encoding: one sign bit, eleven exponent bits, fifty-two fraction bits.
///
/// The library never computes with such a value. It carries it from the
/// request to the numerical kernel unchanged, and reads from the encoding
/// only how the value is ordered against zero and against other values, and
/// whether it is infinite. Two values are equal when their encodings are,
/// so the two zeros differ and a not-a-number equals itself.
#[derive(Clone, Copy, Debug, PartialEq, Eq, Structural)]
pub struct Binary64 {
    pub bits: u64,
}

/// Two to the power 63: the weight of the sign bit.
pub const SIGN_WEIGHT: u64 = 0x8000_0000_0000_0000;

/// Two to the power 52: the weight of the lowest exponent bit.
pub const EXPONENT_WEIGHT: u64 = 0x10_0000_0000_0000;

/// The exponent field with all eleven bits set: infinities and not-a-numbers.
pub const EXPONENT_SPECIAL: u64 = 2047;

impl Binary64 {
    /// The sign bit is set.
    pub open spec fn sign_bit(self) -> bool {
        self.bits >= SIGN_WEIGHT
    }

    /// The encoding without its sign bit.
    pub open spec fn magnitude(self) -> int {
        self.bits as int % SIGN_WEIGHT as int
    }

    /// The eleven exponent bits, as a number.
    pub open spec fn exponent_field(self) -> int {
        self.magnitude() / EXPONENT_WEIGHT as int
    }

    /// The fifty-two fraction bits, as a number.
    pub open spec fn fraction_field(self) -> int {
        self.magnitude() % EXPONENT_WEIGHT as int
    }

    /// The encoding is a not-a-number.
    pub open spec fn is_nan(self) -> bool {
        self.exponent_field() == EXPONENT_SPECIAL && self.fraction_field() != 0
    }

    /// The encoding is plus or minus infinity.
    pub open spec fn is_infinite(self) -> bool {
        self.exponent_field() == EXPONENT_SPECIAL && self.fraction_field() == 0
    }

    /// The encoding is plus or minus zero.
    pub open spec fn is_zero(self) -> bool {
        self.magnitude() == 0
    }

    /// How the encoded value compares with zero. Both zeros compare equal to
    /// zero; a not-a-number is not ordered against it; the infinities are
    /// above and below it like any other value of their sign.
    pub open spec fn sign(self) -> Sign {
        if self.is_nan() {
            Sign::Undefined
        } else if self.is_zero() {
            Sign::Zero
        } else if self.sign_bit() {
            Sign::Negative
        } else {
            Sign::Positive
        }
    }

    /// Wraps an encoding.
    pub fn from_bits(bits: u64) -> (r: Binary64)
        ensures
            r.bits == bits,
    {
        Binary64 { bits }
    }

    /// The encoding.
    pub fn to_bits(self) -> (r: u64)
        ensures
            r == self.bits,
    {
        self.bits
    }

    /// Reads from the encoding how the value compares with zero.
    pub fn classify(self) -> (r: Sign)
        ensures
            r == self.sign(),
    {
        let magnitude: u64 = self.bits % SIGN_WEIGHT;
        let exponent: u64 = magnitude / EXPONENT_WEIGHT;
        let fraction: u64 = magnitude % EXPONENT_WEIGHT;
        if exponent == EXPONENT_SPECIAL && fraction != 0 {
            Sign::Undefined
        } else if magnitude == 0 {
            Sign::Zero
        } else if self.bits >= SIGN_WEIGHT {
            Sign::Negative
        } else {
            Sign::Positive
        }
    }

    /// Tests whether the value is plus or minus infinity.
    pub fn check_infinite(self) -> (r: bool)
        ensures
            r == self.is_infinite(),
    {
        let magnitude: u64 = self.bits % SIGN_WEIGHT;
        magnitude / EXPONENT_WEIGHT == EXPONENT_SPECIAL && magnitude % EXPONENT_WEIGHT == 0
    }

    /// Tests `self < 0`.
    pub fn is_negative(self) -> (r: bool)
        ensures
            r == self.sign().below_zero(),
    {
        self.classify().is_negative()
    }

    /// Tests `self <= 0`.
    pub fn is_non_positive(self) -> (r: bool)
        ensures
            r == self.sign().at_most_zero(),
    {
        self.classify().is_non_positive()
    }

    /// The place of the encoded value on the number line, as far as order
    /// goes: encodings of greater values have greater keys, and the two
    /// zeros share the key zero. Meaningless for a not-a-number.
    pub open spec fn order_key(self) -> int {
        if self.sign_bit() {
            -self.magnitude()
        } else {
            self.magnitude()
        }
    }

    /// `self > other` as IEEE 754 orders the two values: false whenever one
    /// of them is a not-a-number.
    pub open spec fn greater_than(self, other: Binary64) -> bool {
        !self.is_nan() && !other.is_nan() && self.order_key() > other.order_key()
    }

    /// The encoding of the absolute value: the same bits with the sign bit
    /// cleared.
    pub open spec fn spec_abs(self) -> Binary64 {
        Binary64 { bits: self.magnitude() as u64 }
    }

    /// The absolute value.
    pub fn abs(self) -> (r: Binary64)
        ensures
            r == self.spec_abs(),
            !r.sign_bit(),
            r.magnitude() == self.magnitude(),
    {
        Binary64 { bits: self.bits % SIGN_WEIGHT }
    }

    /// The encoding of the value with the opposite sign: the same bits with
    /// the sign bit flipped.
    pub open spec fn spec_negated(self) -> Binary64 {
        if self.sign_bit() {
            Binary64 { bits: (self.bits - SIGN_WEIGHT) as u64 }
        } else {
            Binary64 { bits: (self.bits + SIGN_WEIGHT) as u64 }
        }
    }

    /// The value with the opposite sign.
    pub fn negated(self) -> (r: Binary64)
        ensures
            r == self.spec_negated(),
            r.magnitude() == self.magnitude(),
            r.sign_bit() != self.sign_bit(),
    {
        if self.bits >= SIGN_WEIGHT {
            Binary64 { bits: self.bits - SIGN_WEIGHT }
        } else {
            Binary64 { bits: self.bits + SIGN_WEIGHT }
        }
    }

    /// The greater of the value and zero: the value itself where it is
    /// greater than zero, and positive zero otherwise, also for a
    /// not-a-number.
    pub open spec fn spec_positive_part(self) -> Binary64 {
        if self.greater_than(Binary64 { bits: 0 }) {
            self
        } else {
            Binary64 { bits: 0 }
        }
    }

    /// The greater of the value and zero.
    pub fn positive_part(self) -> (r: Binary64)
        ensures
            r == self.spec_positive_part(),
    {
        if self.exceeds(Binary64 { bits: 0 }) {
            self
        } else {
            Binary64 { bits: 0 }
        }
    }

    /// Tests `self > other`.
    pub fn exceeds(self, other: Binary64) -> (r: bool)
        ensures
            r == self.greater_than(other),
    {
        let mine: u64 = self.bits % SIGN_WEIGHT;
        let theirs: u64 = other.bits % SIGN_WEIGHT;
        proof {
            lemma_special_magnitudes(self);
            lemma_special_magnitudes(other);
        }
        if mine > INFINITY_MAGNITUDE || theirs > INFINITY_MAGNITUDE {
            return false;
        }
        let mine_negative: bool = self.bits >= SIGN_WEIGHT;
        let theirs_negative: bool = other.bits >= SIGN_WEIGHT;
        if mine_negative {
            theirs_negative && mine < theirs
        } else if theirs_negative {
            mine > 0 || theirs > 0
        } else {
            mine > theirs
        }
    }
}

/// The magnitude of the two infinities: the special exponent over a zero
/// fraction.
pub const INFINITY_MAGNITUDE: u64 = 0x7FF0_0000_0000_0000;

/// A not-a-number is exactly an encoding whose magnitude lies above that of
/// infinity, and an infinity exactly one whose magnitude equals it.
pub proof fn lemma_special_magnitudes(x: Binary64)
    ensures
        x.is_nan() <==> x.magnitude() > INFINITY_MAGNITUDE,
        x.is_infinite() <==> x.magnitude() == INFINITY_MAGNITUDE,
        0 <= x.magnitude() < SIGN_WEIGHT,
        0 <= x.exponent_field() <= EXPONENT_SPECIAL,
{
    let m = x.magnitude();
    let w = EXPONENT_WEIGHT as int;
    assert(m == w * (m / w) + m % w) by {
        vstd::arithmetic::div_mod::lemma_fundamental_div_mod(m, w);
    }
}

/// Comparing with zero and ordering against the encoding of zero are the
/// same thing: a value is above zero exactly when it is greater than zero,
/// below zero exactly when zero is greater than it.
pub proof fn lemma_sign_is_order_against_zero(x: Binary64)
    ensures
        x.sign() == Sign::Positive <==> x.greater_than(Binary64 { bits: 0 }),
        x.sign() == Sign::Negative <==> (Binary64 { bits: 0 }).greater_than(x),
        x.sign() == Sign::Zero <==> !x.is_nan() && x.order_key() == 0,
{
    lemma_special_magnitudes(x);
    lemma_special_magnitudes(Binary64 { bits: 0 });
}

/// The greater of a value and zero is never below zero and never a
/// not-a-number, and it is above zero exactly when the value is.
pub proof fn lemma_positive_part_sign(x: Binary64)
    ensures
        x.spec_positive_part().sign() == Sign::Positive || x.spec_positive_part().sign()
            == Sign::Zero,
        x.spec_positive_part().sign() == Sign::Positive <==> x.sign() == Sign::Positive,
        x.sign() == Sign::Positive ==> x.spec_positive_part() == x,
{
    lemma_sign_is_order_against_zero(x);
}

/// Changing the sign swaps the sides of zero and leaves zeros and
/// not-a-numbers what they are.
pub proof fn lemma_negated_sign(x: Binary64)
    ensures
        x.spec_negated().sign() == match x.sign() {
            Sign::Positive => Sign::Negative,
            Sign::Negative => Sign::Positive,
            Sign::Zero => Sign::Zero,
            Sign::Undefined => Sign::Undefined,
        },
        x.spec_negated().spec_negated() == x,
{
    lemma_special_magnitudes(x);
    lemma_special_magnitudes(x.spec_negated());
}

} // verus!
