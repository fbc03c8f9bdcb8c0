use vstd::prelude::*;

verus! {

/// The bit that holds the sign.
pub const SIGN_BIT: u64 = 0x8000_0000_0000_0000;

/// The bit pattern of positive infinity. A magnitude above it is not a number.
pub const INFINITY_BITS: u64 = 0x7ff0_0000_0000_0000;

/// The bit pattern of the number one.
pub const ONE_BITS: u64 = 0x3ff0_0000_0000_0000;

/// A binary64 number of IEEE 754, held by its bit pattern.
///
/// The crate stores, moves and orders such numbers and leaves their arithmetic
/// to the caller. `==` compares bit patterns, so a value is found again exactly
/// as it was stored; the order of the numbers themselves is [`Double::lt`].
#[derive(Clone, Copy, Debug, PartialEq, Eq, Hash, Structural)]
pub struct Double {
    pub bits: u64,
}

impl Double {
    /// The bits without the sign.
    pub open spec fn magnitude(self) -> int {
        if self.bits >= SIGN_BIT {
            self.bits - SIGN_BIT
        } else {
            self.bits as int
        }
    }

    /// Whether the sign bit is set.
    pub open spec fn negative(self) -> bool {
        self.bits >= SIGN_BIT
    }

    /// Whether the pattern stands for no number at all.
    pub open spec fn nan(self) -> bool {
        self.magnitude() > INFINITY_BITS
    }

    /// The place of a number on the line: among patterns that stand for numbers,
    /// a smaller rank is a smaller number, and both zeros have rank 0.
    pub open spec fn rank(self) -> int {
        if self.negative() {
            -self.magnitude()
        } else {
            self.magnitude()
        }
    }

    /// `self < other` as numbers: false as soon as one of them is not a number.
    pub open spec fn below(self, other: Double) -> bool {
        !self.nan() && !other.nan() && self.rank() < other.rank()
    }

    /// `self == other` as numbers: the two zeros are equal, and what is not a
    /// number equals nothing.
    pub open spec fn same_number(self, other: Double) -> bool {
        !self.nan() && !other.nan() && self.rank() == other.rank()
    }

    /// The lesser of two numbers, passing over what is not a number. Of two
    /// equal numbers it is `self`.
    pub open spec fn lesser(self, other: Double) -> Double {
        if self.nan() {
            other
        } else if other.below(self) {
            other
        } else {
            self
        }
    }

    /// The greater of two numbers, passing over what is not a number. Of two
    /// equal numbers it is `self`.
    pub open spec fn greater(self, other: Double) -> Double {
        if self.nan() {
            other
        } else if self.below(other) {
            other
        } else {
            self
        }
    }

    pub open spec fn spec_zero() -> Double {
        Double { bits: 0 }
    }

    pub open spec fn spec_one() -> Double {
        Double { bits: ONE_BITS }
    }

    pub open spec fn spec_minus_one() -> Double {
        Double { bits: (SIGN_BIT + ONE_BITS) as u64 }
    }

    pub open spec fn spec_infinity() -> Double {
        Double { bits: INFINITY_BITS }
    }

    pub fn from_bits(bits: u64) -> (r: Double)
        ensures
            r.bits == bits,
    {
        Double { bits }
    }

    pub fn to_bits(self) -> (r: u64)
        ensures
            r == self.bits,
    {
        self.bits
    }

    /// Positive zero.
    #[verifier::when_used_as_spec(spec_zero)]
    pub fn zero() -> (r: Double)
        ensures
            r == Double::spec_zero(),
    {
        Double { bits: 0 }
    }

    #[verifier::when_used_as_spec(spec_one)]
    pub fn one() -> (r: Double)
        ensures
            r == Double::spec_one(),
    {
        Double { bits: ONE_BITS }
    }

    #[verifier::when_used_as_spec(spec_minus_one)]
    pub fn minus_one() -> (r: Double)
        ensures
            r == Double::spec_minus_one(),
    {
        Double { bits: SIGN_BIT + ONE_BITS }
    }

    /// Positive infinity: no number lies above it.
    #[verifier::when_used_as_spec(spec_infinity)]
    pub fn infinity() -> (r: Double)
        ensures
            r == Double::spec_infinity(),
    {
        Double { bits: INFINITY_BITS }
    }

    #[verifier::when_used_as_spec(nan)]
    pub fn is_nan(self) -> (r: bool)
        ensures
            r == self.nan(),
    {
        if self.bits >= SIGN_BIT {
            self.bits - SIGN_BIT > INFINITY_BITS
        } else {
            self.bits > INFINITY_BITS
        }
    }

    fn rank_of(self) -> (r: i64)
        ensures
            r == self.rank(),
    {
        if self.bits >= SIGN_BIT {
            let magnitude: u64 = self.bits - SIGN_BIT;
            -(magnitude as i64)
        } else {
            self.bits as i64
        }
    }

    #[verifier::when_used_as_spec(below)]
    pub fn lt(self, other: Double) -> (r: bool)
        ensures
            r == self.below(other),
    {
        !self.is_nan() && !other.is_nan() && self.rank_of() < other.rank_of()
    }

    /// `self > other` as numbers.
    pub fn gt(self, other: Double) -> (r: bool)
        ensures
            r == other.below(self),
    {
        other.lt(self)
    }

    #[verifier::when_used_as_spec(same_number)]
    pub fn num_eq(self, other: Double) -> (r: bool)
        ensures
            r == self.same_number(other),
    {
        !self.is_nan() && !other.is_nan() && self.rank_of() == other.rank_of()
    }

    #[verifier::when_used_as_spec(lesser)]
    pub fn min(self, other: Double) -> (r: Double)
        ensures
            r == self.lesser(other),
    {
        if self.is_nan() {
            other
        } else if other.lt(self) {
            other
        } else {
            self
        }
    }

    #[verifier::when_used_as_spec(greater)]
    pub fn max(self, other: Double) -> (r: Double)
        ensures
            r == self.greater(other),
    {
        if self.is_nan() {
            other
        } else if self.lt(other) {
            other
        } else {
            self
        }
    }
}

/// Among numbers the order is strict and total up to the two zeros: no number
/// is below itself, and of two numbers one is below the other or they are equal.
pub proof fn lemma_order_of_numbers(a: Double, b: Double, c: Double)
    ensures
        !a.below(a),
        a.below(b) ==> !b.below(a),
        a.below(b) && b.below(c) ==> a.below(c),
        !a.nan() && !b.nan() ==> a.below(b) || b.below(a) || a.same_number(b),
        !a.nan() ==> !Double::spec_infinity().below(a),
{
}

} // verus!
