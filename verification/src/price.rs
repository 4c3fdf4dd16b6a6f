//! Prices as IEEE 754 single-precision bit patterns.
//!
//! A price is carried as the 32 bits of its binary32 encoding, so that it can
//! be compared and ordered with integer arithmetic alone. The caller converts
//! with `f32::to_bits` and `f32::from_bits`.

use vstd::arithmetic::power2::{
    lemma_pow2_pos, lemma_pow2_strictly_increases, lemma_pow2_unfold, pow2,
};
use vstd::prelude::*;

verus! {

/// The sign bit of a binary32 value.
pub const SIGN_BIT: u32 = 0x8000_0000;

/// The encoding of positive infinity; every larger magnitude is a NaN.
pub const INFINITY_BITS: u32 = 0x7f80_0000;

/// The number of values that the fraction field takes: 2 to the 23rd.
pub const FRACTION_SPAN: u32 = 0x80_0000;

/// A binary32 number, held as its bits.
#[derive(Clone, Copy, Debug, PartialEq, Eq, Structural)]
pub struct Price {
    pub bits: u32,
}

impl Price {
    /// The encoding with the sign bit cleared.
    pub open spec fn magnitude(self) -> int {
        if self.bits >= SIGN_BIT {
            self.bits - SIGN_BIT
        } else {
            self.bits as int
        }
    }

    /// Whether the sign bit is set.
    pub open spec fn negative(self) -> bool {
        self.bits >= SIGN_BIT
    }

    /// Whether the bits encode a NaN.
    pub open spec fn nan(self) -> bool {
        self.magnitude() > INFINITY_BITS
    }

    /// The place of the price in the order used for sorting: numbers by
    /// value (the two zeros together), then every NaN, above infinity.
    pub open spec fn rank(self) -> int {
        if self.nan() {
            INFINITY_BITS + 1
        } else if self.negative() {
            -self.magnitude()
        } else {
            self.magnitude()
        }
    }

    /// The value of the number, times 2 to the 149th: an integer. Infinity
    /// counts as the first step beyond the largest number; of a NaN it says
    /// nothing.
    pub open spec fn scaled(self) -> int {
        if self.negative() {
            -scaled_magnitude(self.magnitude())
        } else {
            scaled_magnitude(self.magnitude())
        }
    }

    /// Numeric `<`: false as soon as either side is a NaN.
    pub open spec fn value_lt(self, other: Price) -> bool {
        !self.nan() && !other.nan() && self.rank() < other.rank()
    }

    /// `self` may stand before `other` in a sorted column.
    pub open spec fn sorts_le(self, other: Price) -> bool {
        self.rank() <= other.rank()
    }

    pub fn from_bits(bits: u32) -> (p: Price)
        ensures
            p.bits == bits,
    {
        Price { bits }
    }

    pub fn to_bits(self) -> (bits: u32)
        ensures
            bits == self.bits,
    {
        self.bits
    }

    pub fn is_nan(self) -> (b: bool)
        ensures
            b == self.nan(),
    {
        let magnitude: u32 = if self.bits >= SIGN_BIT {
            self.bits - SIGN_BIT
        } else {
            self.bits
        };
        magnitude > INFINITY_BITS
    }

    /// The rank as a machine integer.
    fn rank_exec(self) -> (r: i64)
        ensures
            r == self.rank(),
    {
        let negative: bool = self.bits >= SIGN_BIT;
        let magnitude: u32 = if negative {
            self.bits - SIGN_BIT
        } else {
            self.bits
        };
        if magnitude > INFINITY_BITS {
            0x7f80_0001i64
        } else if negative {
            -(magnitude as i64)
        } else {
            magnitude as i64
        }
    }

    /// Numeric `<`.
    pub fn lt(self, other: Price) -> (b: bool)
        ensures
            b == self.value_lt(other),
    {
        !self.is_nan() && !other.is_nan() && self.rank_exec() < other.rank_exec()
    }

    /// Numeric `>`.
    pub fn gt(self, other: Price) -> (b: bool)
        ensures
            b == other.value_lt(self),
    {
        other.lt(self)
    }

    /// Whether `self` may stand before `other` in a sorted column.
    pub fn sort_le(self, other: Price) -> (b: bool)
        ensures
            b == self.sorts_le(other),
    {
        self.rank_exec() <= other.rank_exec()
    }
}

/// The absolute value, times 2 to the 149th, of the binary32 number with
/// magnitude bits `m`: the fraction alone while the exponent field is 0,
/// else the fraction with its leading one, doubled once for each step of the
/// exponent above 1. Infinity counts as the first step beyond the largest
/// number.
pub open spec fn scaled_magnitude(m: int) -> int {
    if m / (FRACTION_SPAN as int) == 0 {
        m % (FRACTION_SPAN as int)
    } else {
        (FRACTION_SPAN + m % (FRACTION_SPAN as int)) * pow2(
            (m / (FRACTION_SPAN as int) - 1) as nat,
        )
    }
}

/// The value of a magnitude lies in the band of its exponent.
proof fn lemma_scaled_magnitude_band(m: int)
    requires
        0 <= m,
    ensures
        m / (FRACTION_SPAN as int) == 0 ==> scaled_magnitude(m) == m,
        m / (FRACTION_SPAN as int) > 0 ==> FRACTION_SPAN * pow2(
            (m / (FRACTION_SPAN as int) - 1) as nat,
        ) <= scaled_magnitude(m) < FRACTION_SPAN * pow2((m / (FRACTION_SPAN as int)) as nat),
{
    let e = m / (FRACTION_SPAN as int);
    let f = m % (FRACTION_SPAN as int);
    if e > 0 {
        let p = pow2((e - 1) as nat) as int;
        lemma_pow2_pos((e - 1) as nat);
        lemma_pow2_unfold(e as nat);
        assert(FRACTION_SPAN * p <= (FRACTION_SPAN + f) * p < FRACTION_SPAN * (2 * p))
            by (nonlinear_arith)
            requires
                0 <= f < FRACTION_SPAN,
                p > 0,
        ;
    }
}

/// A larger magnitude stands for a larger absolute value.
pub proof fn lemma_scaled_magnitude_increases(m1: int, m2: int)
    requires
        0 <= m1 < m2,
    ensures
        0 <= scaled_magnitude(m1) < scaled_magnitude(m2),
{
    let e1 = m1 / (FRACTION_SPAN as int);
    let e2 = m2 / (FRACTION_SPAN as int);
    let f1 = m1 % (FRACTION_SPAN as int);
    let f2 = m2 % (FRACTION_SPAN as int);
    lemma_scaled_magnitude_band(m1);
    lemma_scaled_magnitude_band(m2);
    if e1 == e2 {
        if e1 > 0 {
            let p = pow2((e1 - 1) as nat) as int;
            lemma_pow2_pos((e1 - 1) as nat);
            assert((FRACTION_SPAN + f1) * p < (FRACTION_SPAN + f2) * p) by (nonlinear_arith)
                requires
                    f1 < f2,
                    p > 0,
            ;
        }
    } else {
        // The band of the smaller exponent ends where that of the next begins.
        lemma_pow2_pos(0);
        if e1 + 1 < e2 {
            lemma_pow2_strictly_increases(e1 as nat, (e2 - 1) as nat);
        }
        let top = pow2(e1 as nat) as int;
        let bottom = pow2((e2 - 1) as nat) as int;
        assert(FRACTION_SPAN * top <= FRACTION_SPAN * bottom) by (nonlinear_arith)
            requires
                top <= bottom,
        ;
        if e1 == 0 {
            assert(pow2(0) == 1) by {
                vstd::arithmetic::power2::lemma2_to64();
            }
        }
    }
}

/// The rank orders numbers by their value: of two prices that are no NaN,
/// the one of smaller value has the smaller rank, and equal values, such as
/// the two zeros, have equal ranks.
pub proof fn lemma_rank_orders_by_value(a: Price, b: Price)
    requires
        !a.nan(),
        !b.nan(),
    ensures
        a.rank() < b.rank() <==> a.scaled() < b.scaled(),
        a.rank() == b.rank() <==> a.scaled() == b.scaled(),
        a.value_lt(b) <==> a.scaled() < b.scaled(),
{
    let ma = a.magnitude();
    let mb = b.magnitude();
    assert(scaled_magnitude(0) == 0);
    if ma < mb {
        lemma_scaled_magnitude_increases(ma, mb);
    } else if mb < ma {
        lemma_scaled_magnitude_increases(mb, ma);
    }
    if 0 < ma {
        lemma_scaled_magnitude_increases(0, ma);
    }
    if 0 < mb {
        lemma_scaled_magnitude_increases(0, mb);
    }
}

/// Every NaN ranks above every number, infinity included, and with every
/// other NaN.
pub proof fn lemma_nan_ranks_last(a: Price, b: Price)
    requires
        a.nan(),
    ensures
        b.sorts_le(a),
        !b.nan() ==> !a.sorts_le(b),
        b.nan() ==> a.sorts_le(b),
{
}

} // verus!
