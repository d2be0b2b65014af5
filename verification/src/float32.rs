//! Single-precision values held by their bit patterns and ordered by what they stand for.

use vstd::arithmetic::mul::{lemma_mul_inequality, lemma_mul_is_associative, lemma_mul_strict_inequality};
use vstd::arithmetic::power2::{lemma2_to64, lemma_pow2_pos, lemma_pow2_strictly_increases, lemma_pow2_unfold, pow2};
use vstd::prelude::*;

verus! {

/// A single-precision floating-point value, by its bit pattern.
#[derive(Debug, Clone, Copy, PartialEq, Eq, Structural)]
pub struct Real32 {
    /// The bit pattern: sign, eight exponent bits and twenty-three fraction bits.
    pub bits: u32,
}

/// The bits below the sign.
pub open spec fn unsigned_bits(bits: u32) -> nat {
    (bits % 0x8000_0000) as nat
}

/// The absolute value that bits below the sign stand for, in units of the smallest positive one.
pub open spec fn magnitude(bits: nat) -> nat {
    let exponent = bits / 0x80_0000;
    let fraction = bits % 0x80_0000;
    if exponent == 0 {
        fraction
    } else {
        (0x80_0000 + fraction) * pow2((exponent - 1) as nat)
    }
}

impl Real32 {
    /// Whether the pattern is no number.
    pub open spec fn nan(self) -> bool {
        unsigned_bits(self.bits) > 0x7f80_0000
    }

    /// Whether the pattern is a number other than the two infinities.
    pub open spec fn finite(self) -> bool {
        unsigned_bits(self.bits) < 0x7f80_0000
    }

    /// The value, in units of the smallest positive one; an infinity counts as two to the power
    /// of 128.
    pub open spec fn scaled(self) -> int {
        if self.bits >= 0x8000_0000 {
            -(magnitude(unsigned_bits(self.bits)) as int)
        } else {
            magnitude(unsigned_bits(self.bits)) as int
        }
    }

    /// Whether one value is at most another; never with a pattern that is no number.
    pub open spec fn at_most_spec(self, other: Self) -> bool {
        !self.nan() && !other.nan() && self.scaled() <= other.scaled()
    }

    /// Whether two values are the same number; a pattern that is no number is not even the same
    /// as itself.
    pub open spec fn same_number(self, other: Self) -> bool {
        self.at_most_spec(other) && other.at_most_spec(self)
    }

    /// The value with a bit pattern.
    pub fn from_bits(bits: u32) -> (value: Self)
        ensures
            value.bits == bits,
    {
        Real32 { bits }
    }

    /// Tells whether the pattern is a number other than the two infinities.
    pub fn is_finite(self) -> (answer: bool)
        ensures
            answer == self.finite(),
    {
        self.bits % 0x8000_0000 < 0x7f80_0000
    }

    /// The position of a value in the order of the values.
    fn order_key(self) -> (key: i64)
        ensures
            key == if self.bits >= 0x8000_0000 {
                -(unsigned_bits(self.bits) as int)
            } else {
                unsigned_bits(self.bits) as int
            },
    {
        let unsigned: u32 = self.bits % 0x8000_0000;
        if self.bits >= 0x8000_0000 {
            -(unsigned as i64)
        } else {
            unsigned as i64
        }
    }

    /// Tells whether one value is at most another.
    pub fn at_most(self, other: Self) -> (answer: bool)
        ensures
            answer == self.at_most_spec(other),
    {
        let number: bool = self.bits % 0x8000_0000 <= 0x7f80_0000 && other.bits % 0x8000_0000
            <= 0x7f80_0000;
        proof {
            let a = unsigned_bits(self.bits);
            let b = unsigned_bits(other.bits);
            magnitude_order(a, b);
            magnitude_order(b, a);
            magnitude_order(0, a);
            magnitude_order(0, b);
        }
        number && self.order_key() <= other.order_key()
    }

    /// Tells whether two values are the same number.
    pub fn equals(self, other: Self) -> (answer: bool)
        ensures
            answer == self.same_number(other),
    {
        self.at_most(other) && other.at_most(self)
    }
}

/// The pattern of zero.
pub const ZERO_BITS: u32 = 0x0000_0000;

/// The pattern of one.
pub const ONE_BITS: u32 = 0x3f80_0000;

/// The pattern of one hundred.
pub const HUNDRED_BITS: u32 = 0x42c8_0000;

/// Larger patterns below the sign stand for larger absolute values.
pub proof fn magnitude_order(a: nat, b: nat)
    ensures
        a < b ==> magnitude(a) < magnitude(b),
        a == 0 ==> magnitude(a) == 0,
{
    if a < b {
        let low = a / 0x80_0000;
        let high = b / 0x80_0000;
        let f = a % 0x80_0000;
        let g = b % 0x80_0000;
        assert(low <= high);
        if high > 0 {
            lemma_pow2_pos((high - 1) as nat);
        }
        if low == high {
            assert(f < g);
            if low > 0 {
                lemma_mul_strict_inequality(
                    (0x80_0000 + f) as int,
                    (0x80_0000 + g) as int,
                    pow2((low - 1) as nat) as int,
                );
            }
        } else {
            let unit = pow2((high - 1) as nat);
            lemma_mul_inequality(0x80_0000, (0x80_0000 + g) as int, unit as int);
            if low == 0 {
                lemma_mul_inequality(1, unit as int, 0x80_0000);
                assert(0x80_0000 * unit >= 0x80_0000) by (nonlinear_arith)
                    requires
                        unit >= 1,
                ;
            } else {
                let small = pow2((low - 1) as nat);
                lemma_pow2_pos((low - 1) as nat);
                lemma_pow2_unfold(low);
                if low < high - 1 {
                    lemma_pow2_strictly_increases(low, (high - 1) as nat);
                }
                assert(pow2(low) <= unit);
                assert((0x80_0000 + f) * small < 0x80_0000 * unit) by (nonlinear_arith)
                    requires
                        f < 0x80_0000,
                        small > 0,
                        2 * small <= unit,
                ;
            }
        }
    }
}

/// The constants are what they are named after: `2^149` units make one.
pub proof fn constants_are_exact()
    ensures
        (Real32 { bits: ZERO_BITS }).scaled() == 0,
        (Real32 { bits: ONE_BITS }).scaled() == pow2(149),
        (Real32 { bits: HUNDRED_BITS }).scaled() == 100 * pow2(149),
{
    lemma2_to64();
    vstd::arithmetic::power2::lemma_pow2_adds(23, 126);
    vstd::arithmetic::power2::lemma_pow2_adds(17, 132);
    assert(0x42c8_0000nat / 0x80_0000 == 133);
    assert(0x42c8_0000nat % 0x80_0000 == 0x48_0000);
    assert(0xc8_0000 * pow2(132) == 100 * (0x2_0000 * pow2(132))) by {
        lemma_mul_is_associative(100, 0x2_0000, pow2(132) as int);
    }
}

/// What is a number, and what is a finite one: exponents that are not all ones make finite numbers, and
/// without a fraction such an exponent is an infinity.
pub proof fn patterns_are_classified(value: Real32)
    ensures
        value.finite() <==> value.bits / 0x80_0000 % 0x100 != 0xff,
        value.nan() <==> value.bits / 0x80_0000 % 0x100 == 0xff && value.bits % 0x80_0000 != 0,
{
    let bits = value.bits;
    assert(bits % 0x8000_0000 < 0x7f80_0000 <==> bits / 0x80_0000 % 0x100 != 0xff) by (bit_vector);
    assert(bits % 0x8000_0000 > 0x7f80_0000 <==> (bits / 0x80_0000 % 0x100 == 0xff && bits % 0x80_0000
        != 0)) by (bit_vector);
}

/// Numbers are ordered by their value: any two are, a sign turns the order round, and of two positive
/// patterns the larger one is the larger number.
pub proof fn numbers_are_ordered(a: Real32, b: Real32)
    requires
        !a.nan(),
        !b.nan(),
    ensures
        a.at_most_spec(b) || b.at_most_spec(a),
        a.at_most_spec(a),
        a.same_number(b) <==> a.scaled() == b.scaled(),
        a.bits < 0x8000_0000 && b.bits < 0x8000_0000 ==> (a.at_most_spec(b) <==> a.bits <= b.bits),
        a.bits >= 0x8000_0000 && b.bits >= 0x8000_0000 ==> (a.at_most_spec(b) <==> a.bits >= b.bits),
        a.bits >= 0x8000_0000 && b.bits < 0x8000_0000 ==> a.at_most_spec(b),
        a.bits < 0x8000_0000 && b.bits >= 0x8000_0000 ==> (a.at_most_spec(b) <==> a.bits == 0 && b.bits
            == 0x8000_0000),
{
    let x = unsigned_bits(a.bits);
    let y = unsigned_bits(b.bits);
    magnitude_order(x, y);
    magnitude_order(y, x);
    magnitude_order(0, x);
    magnitude_order(0, y);
}

/// Nothing is compared with what is no number.
pub proof fn no_numbers_are_not_compared(a: Real32, b: Real32)
    requires
        a.nan() || b.nan(),
    ensures
        !a.at_most_spec(b),
        !a.same_number(b),
{
}

} // verus!
