//! Binary64 numbers by their IEEE 754 bit patterns.
//!
//! The library orders, negates and bounds tracking values and hands them on; it never rounds one.
//! All of that can be said of the bit pattern, which is what a `Real` holds.
use vstd::arithmetic::power2::{lemma2_to64, lemma2_to64_rest, lemma_pow2_unfold, pow2};
use vstd::prelude::*;

verus! {

/// Weight of the sign bit.
pub const SIGN: u64 = 0x8000_0000_0000_0000;

/// Bits of positive infinity; a larger magnitude is not a number.
pub const INFINITY: u64 = 0x7ff0_0000_0000_0000;

/// Bits of one million.
pub const MILLION: u64 = 0x412e_8480_0000_0000;

/// Bits of one.
pub const ONE: u64 = 0x3ff0_0000_0000_0000;

/// Weight of the lowest exponent bit: two to the number of fraction bits.
pub const IMPLICIT: u64 = 0x0010_0000_0000_0000;

/// A binary64 number, given by its bits.
#[derive(Clone, Copy, Debug, PartialEq, Eq, Structural)]
pub struct Real {
    pub bits: u64,
}

impl Real {
    pub open spec fn negative(self) -> bool {
        self.bits >= SIGN
    }

    /// The bits but for the sign.
    pub open spec fn magnitude(self) -> int {
        if self.negative() {
            self.bits - SIGN
        } else {
            self.bits as int
        }
    }

    pub open spec fn is_nan(self) -> bool {
        self.magnitude() > INFINITY
    }

    /// Orders the numbers as their values do: `a <= b` in value exactly if the rank of `a` is at
    /// most that of `b`, for any two that are numbers. Both zeros have rank zero.
    pub open spec fn rank(self) -> int {
        if self.negative() {
            -self.magnitude()
        } else {
            self.magnitude()
        }
    }

    /// Is this the integer `n`, which has at most 53 significant bits? A nonzero number of
    /// exponent `e` and fraction `f` has the value `(IMPLICIT + f) * 2^(e - 1075)`.
    pub open spec fn denotes(self, n: int) -> bool {
        let size = if n < 0 {
            -n
        } else {
            n
        };
        let exponent = self.magnitude() / IMPLICIT as int;
        let fraction = self.magnitude() % IMPLICIT as int;
        &&& self.negative() == (n < 0)
        &&& if n == 0 {
            self.bits == 0
        } else {
            &&& 1023 <= exponent <= 1075
            &&& IMPLICIT + fraction == size * pow2((1075 - exponent) as nat)
        }
    }

    /// The number with the other sign.
    pub open spec fn spec_negated(self) -> Real {
        if self.negative() {
            Real { bits: (self.bits - SIGN) as u64 }
        } else {
            Real { bits: (self.bits + SIGN) as u64 }
        }
    }

    /// The nearest number between minus and plus one million; what is not a number stays as it is.
    pub open spec fn spec_clamped(self) -> Real {
        if self.is_nan() {
            self
        } else if self.rank() > MILLION {
            Real { bits: MILLION }
        } else if self.rank() < -MILLION {
            Real { bits: (SIGN + MILLION) as u64 }
        } else {
            self
        }
    }

    pub fn zero() -> (r: Real)
        ensures
            r == (Real { bits: 0 }),
            r.denotes(0),
    {
        Real { bits: 0 }
    }

    pub fn one() -> (r: Real)
        ensures
            r == (Real { bits: ONE }),
            r.denotes(1),
    {
        proof {
            lemma2_to64_rest();
        }
        Real { bits: ONE }
    }

    /// Flips the sign.
    pub fn negated(self) -> (r: Real)
        ensures
            r == self.spec_negated(),
    {
        if self.bits >= SIGN {
            Real { bits: self.bits - SIGN }
        } else {
            Real { bits: self.bits + SIGN }
        }
    }

    /// Bounds the number by one million on either side.
    pub fn clamped(self) -> (r: Real)
        ensures
            r == self.spec_clamped(),
    {
        let negative: bool = self.bits >= SIGN;
        let magnitude: u64 = if negative {
            self.bits - SIGN
        } else {
            self.bits
        };
        if magnitude > INFINITY || magnitude <= MILLION {
            self
        } else if negative {
            Real { bits: SIGN + MILLION }
        } else {
            Real { bits: MILLION }
        }
    }

    /// The number that is the integer `n`.
    pub fn from_integer(n: i64) -> (r: Real)
        requires
            -0x20_0000_0000_0000 < n < 0x20_0000_0000_0000,
        ensures
            r.denotes(n as int),
    {
        if n == 0 {
            return Real { bits: 0 };
        }
        let size: u64 = if n < 0 {
            (-n) as u64
        } else {
            n as u64
        };
        let mut significand: u64 = size;
        let mut exponent: u64 = 1075;
        let ghost mut shift: nat = 0;
        proof {
            lemma2_to64();
        }
        while significand < IMPLICIT
            invariant
                0 < size < 2 * IMPLICIT,
                shift == 1075 - exponent,
                significand == size * pow2(shift),
                0 < significand < 2 * IMPLICIT,
                shift <= 52,
                significand >= pow2(shift),
            decreases exponent,
        {
            proof {
                if shift == 52 {
                    lemma2_to64_rest();
                    assert(false);
                }
                lemma_pow2_unfold((shift + 1) as nat);
                assert(size * (2 * pow2(shift)) == 2 * (size * pow2(shift))) by (nonlinear_arith);
                shift = shift + 1;
            }
            significand = significand * 2;
            exponent = exponent - 1;
        }
        let bits: u64 = exponent * IMPLICIT + (significand - IMPLICIT);
        proof {
            assert(bits as int / IMPLICIT as int == exponent && bits as int % IMPLICIT as int
                == significand - IMPLICIT) by (nonlinear_arith)
                requires
                    bits == exponent * IMPLICIT + (significand - IMPLICIT),
                    IMPLICIT <= significand < 2 * IMPLICIT,
            ;
        }
        if n < 0 {
            Real { bits: SIGN + bits }
        } else {
            Real { bits }
        }
    }

    /// Negating twice changes nothing.
    pub proof fn law_negated_twice(self)
        ensures
            self.spec_negated().spec_negated() == self,
            self.spec_negated().rank() == -self.rank(),
    {
    }

    /// The rank is the bit pattern of a number without a sign, and the negation of the rest of the
    /// bit pattern of one with a sign.
    pub proof fn law_rank(rest: u64)
        requires
            rest < 0x8000_0000_0000_0000,
        ensures
            (Real { bits: rest }).rank() == rest,
            (Real { bits: (0x8000_0000_0000_0000 + rest) as u64 }).rank() == -rest,
            (Real { bits: rest }).is_nan() <==> rest > 0x7ff0_0000_0000_0000,
            (Real { bits: (0x8000_0000_0000_0000 + rest) as u64 }).is_nan() <==> rest
                > 0x7ff0_0000_0000_0000,
    {
    }

    /// Negation exchanges the two numbers that differ in the sign alone, whichever of them it is
    /// given.
    pub proof fn law_negation_exchanges_signs(rest: u64)
        requires
            rest < 0x8000_0000_0000_0000,
        ensures
            (Real { bits: rest }).spec_negated().bits == 0x8000_0000_0000_0000 + rest,
            (Real { bits: (0x8000_0000_0000_0000 + rest) as u64 }).spec_negated().bits == rest,
    {
    }

    /// Bounding keeps every number from minus to plus one million bit by bit, whatever its sign and
    /// however small, and so does it keep what is no number; all that is larger becomes one
    /// million, with its own sign.
    pub proof fn law_bounding_keeps_what_is_within(rest: u64)
        requires
            rest < 0x8000_0000_0000_0000,
        ensures
            ({
                let plus = Real { bits: rest };
                let minus = Real { bits: (0x8000_0000_0000_0000 + rest) as u64 };
                let bound = 0x412e_8480_0000_0000u64;
                &&& rest <= bound || rest > 0x7ff0_0000_0000_0000 ==> plus.spec_clamped() == plus
                    && minus.spec_clamped() == minus
                &&& bound < rest <= 0x7ff0_0000_0000_0000 ==> plus.spec_clamped().bits == bound
                    && minus.spec_clamped().bits == 0x8000_0000_0000_0000 + bound
                &&& (Real { bits: bound }).denotes(1_000_000)
            }),
    {
        vstd::arithmetic::power2::lemma2_to64();
        vstd::arithmetic::power2::lemma2_to64_rest();
    }

    /// One more in the exponent is twice the integer, the other sign is its negation, and the
    /// integers one and zero are what they are in every binary64 number.
    pub proof fn law_denotes_scales(self, n: int)
        requires
            self.denotes(n),
        ensures
            (Real { bits: 0x3ff0_0000_0000_0000 }).denotes(1),
            (Real { bits: 0 }).denotes(0),
            n != 0 && self.magnitude() / 0x0010_0000_0000_0000int < 1075 ==> (Real {
                bits: (self.bits + 0x0010_0000_0000_0000) as u64,
            }).denotes(2 * n),
            n != 0 ==> self.spec_negated().denotes(-n),
    {
        lemma2_to64();
        lemma2_to64_rest();
        if n != 0 {
            let e = self.magnitude() / IMPLICIT as int;
            lemma_split(self.magnitude());
            if e < 1075 {
                let next = Real { bits: (self.bits + IMPLICIT) as u64 };
                assert(next.magnitude() == self.magnitude() + IMPLICIT);
                assert(next.magnitude() / IMPLICIT as int == e + 1);
                assert(next.magnitude() % IMPLICIT as int == self.magnitude() % IMPLICIT as int);
                lemma_pow2_unfold((1075 - e) as nat);
                let size = if n < 0 { -n } else { n };
                let power = pow2((1074 - e) as nat);
                assert(size * (2 * power) == (2 * size) * power) by (nonlinear_arith);
            }
        }
    }

    /// A bounded number lies within the bounds, bounding keeps the order of numbers, and bounding
    /// again changes nothing.
    pub proof fn law_clamped(self, other: Real)
        ensures
            !self.is_nan() ==> -MILLION <= self.spec_clamped().rank() <= MILLION,
            !self.is_nan() && !other.is_nan() && self.rank() <= other.rank()
                ==> self.spec_clamped().rank() <= other.spec_clamped().rank(),
            self.spec_clamped().spec_clamped() == self.spec_clamped(),
    {
    }

    /// No two bit patterns denote one integer, and none denotes two.
    pub proof fn law_denotes_is_exact(self, other: Real, n: int, m: int)
        requires
            self.denotes(n),
        ensures
            other.denotes(n) ==> other == self,
            self.denotes(m) ==> n == m,
    {
        let e = self.magnitude() / IMPLICIT as int;
        let g = other.magnitude() / IMPLICIT as int;
        lemma_split(self.magnitude());
        lemma_split(other.magnitude());
        if other.denotes(n) && n != 0 {
            let size = if n < 0 { -n } else { n };
            if e < g {
                lemma_next_power(size, (1075 - g) as nat, (1075 - e) as nat);
            } else if g < e {
                lemma_next_power(size, (1075 - e) as nat, (1075 - g) as nat);
            }
        }
        if self.denotes(m) && n != 0 && m != 0 {
            let power = pow2((1075 - e) as nat);
            let a = if n < 0 { -n } else { n };
            let b = if m < 0 { -m } else { m };
            vstd::arithmetic::power2::lemma_pow2_pos((1075 - e) as nat);
            assert(a == b) by (nonlinear_arith)
                requires
                    a * power == b * power,
                    power > 0,
            ;
        }
    }
}

proof fn lemma_split(magnitude: int)
    requires
        0 <= magnitude,
    ensures
        magnitude == (magnitude / IMPLICIT as int) * IMPLICIT + magnitude % IMPLICIT as int,
        0 <= magnitude % (IMPLICIT as int) < IMPLICIT,
{
}

/// A larger power at least doubles the product.
proof fn lemma_next_power(size: int, low: nat, high: nat)
    requires
        size > 0,
        low < high,
    ensures
        2 * (size * pow2(low)) <= size * pow2(high),
    decreases high,
{
    lemma_pow2_unfold(high);
    assert(size * (2 * pow2((high - 1) as nat)) == 2 * (size * pow2((high - 1) as nat)))
        by (nonlinear_arith);
    if low + 1 < high {
        lemma_next_power(size, low, (high - 1) as nat);
        vstd::arithmetic::power2::lemma_pow2_pos((high - 1) as nat);
        assert(0 <= size * pow2((high - 1) as nat)) by (nonlinear_arith)
            requires
                size > 0,
        ;
    }
}

} // verus!
