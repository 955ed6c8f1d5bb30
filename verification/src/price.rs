//! Prices as IEEE 754 double-precision bit patterns.
//!
//! A price arrives and is shown as a binary64 number. This module keeps the number as its 64 bits
//! and answers the comparisons that the alert rules need. The contracts speak of the number itself,
//! measured in units of 2^-1074, which is the smallest step of the format: in these units every
//! number of the format is an integer.

use vstd::arithmetic::power2::*;
use vstd::prelude::*;

verus! {

/// The bit that carries the sign of a number.
pub const SIGN_BIT: u64 = 0x8000_0000_0000_0000;

/// The weight of the lowest exponent bit, which is also the number of fractions per exponent.
pub const EXPONENT_STEP: u64 = 0x0010_0000_0000_0000;

/// The magnitude of infinity. Every larger magnitude belongs to a NaN.
pub const INFINITY_MAGNITUDE: u64 = 0x7ff0_0000_0000_0000;

/// A binary64 number, held as its bits.
#[derive(Clone, Copy, Debug, PartialEq, Eq, Structural)]
pub struct Price {
    /// Sign, exponent and fraction, from the highest bit down.
    pub bits: u64,
}

/// The value, in units of 2^-1074, of the nonnegative number whose bits are `magnitude`.
///
/// With a zero exponent field the fraction counts the units directly. With the exponent field `e`
/// the number is 1.fraction times 2^(e - 1023). Infinity gets the value that would follow the
/// largest finite number.
pub open spec fn units_of(magnitude: int) -> int {
    let exponent = magnitude / EXPONENT_STEP as int;
    let fraction = magnitude % EXPONENT_STEP as int;
    if exponent == 0 {
        fraction
    } else {
        (EXPONENT_STEP + fraction) * pow2((exponent - 1) as nat)
    }
}

impl Price {
    /// Whether the sign bit is set.
    pub open spec fn negative(self) -> bool {
        self.bits >= SIGN_BIT
    }

    /// The bits without the sign.
    pub open spec fn magnitude(self) -> int {
        if self.negative() {
            self.bits - SIGN_BIT
        } else {
            self.bits as int
        }
    }

    /// Whether the bits stand for no number at all.
    pub open spec fn is_nan(self) -> bool {
        self.magnitude() > INFINITY_MAGNITUDE
    }

    /// Whether the bits stand for a number that is not infinite.
    pub open spec fn is_finite(self) -> bool {
        self.magnitude() < INFINITY_MAGNITUDE
    }

    /// The number in units of 2^-1074.
    pub open spec fn units(self) -> int {
        if self.negative() {
            -units_of(self.magnitude())
        } else {
            units_of(self.magnitude())
        }
    }

    /// `self >= other` as numbers. A NaN is never at least, nor at most, anything.
    pub open spec fn spec_at_least(self, other: Price) -> bool {
        !self.is_nan() && !other.is_nan() && self.units() >= other.units()
    }

    /// `self <= other` as numbers.
    pub open spec fn spec_at_most(self, other: Price) -> bool {
        !self.is_nan() && !other.is_nan() && self.units() <= other.units()
    }

    /// `self > 0` as numbers.
    pub open spec fn spec_above_zero(self) -> bool {
        !self.is_nan() && self.units() > 0
    }

    /// `self <= 0` as numbers.
    pub open spec fn spec_at_most_zero(self) -> bool {
        !self.is_nan() && self.units() <= 0
    }

    /// The price whose bits are `bits`.
    pub fn from_bits(bits: u64) -> (price: Price)
        ensures
            price.bits == bits,
    {
        Price { bits }
    }

    /// The bits with the sign folded in, so that numbers compare as these integers do.
    fn rank(self) -> (rank: i64)
        ensures
            rank == if self.negative() {
                -self.magnitude()
            } else {
                self.magnitude()
            },
    {
        if self.bits >= SIGN_BIT {
            let magnitude: u64 = self.bits - SIGN_BIT;
            -(magnitude as i64)
        } else {
            self.bits as i64
        }
    }

    /// Whether the bits stand for no number.
    fn nan(self) -> (nan: bool)
        ensures
            nan == self.is_nan(),
    {
        if self.bits >= SIGN_BIT {
            self.bits - SIGN_BIT > INFINITY_MAGNITUDE
        } else {
            self.bits > INFINITY_MAGNITUDE
        }
    }

    /// `self >= other` as numbers.
    pub fn at_least(self, other: Price) -> (holds: bool)
        ensures
            holds == self.spec_at_least(other),
    {
        proof {
            lemma_rank_orders_units(self, other);
            lemma_rank_orders_units(other, self);
        }
        !self.nan() && !other.nan() && self.rank() >= other.rank()
    }

    /// `self <= other` as numbers.
    pub fn at_most(self, other: Price) -> (holds: bool)
        ensures
            holds == self.spec_at_most(other),
    {
        proof {
            lemma_rank_orders_units(self, other);
            lemma_rank_orders_units(other, self);
        }
        !self.nan() && !other.nan() && self.rank() <= other.rank()
    }

    /// `self > 0` as numbers.
    pub fn above_zero(self) -> (holds: bool)
        ensures
            holds == self.spec_above_zero(),
    {
        let zero = Price { bits: 0 };
        proof {
            lemma_rank_orders_units(self, zero);
            lemma_rank_orders_units(zero, self);
        }
        !self.nan() && self.rank() > 0
    }

    /// `self <= 0` as numbers.
    pub fn at_most_zero(self) -> (holds: bool)
        ensures
            holds == self.spec_at_most_zero(),
    {
        let zero = Price { bits: 0 };
        proof {
            lemma_rank_orders_units(self, zero);
            lemma_rank_orders_units(zero, self);
        }
        !self.nan() && self.rank() <= 0
    }
}

/// Larger bits without a sign stand for a larger number.
pub proof fn lemma_units_of_increases(small: int, large: int)
    requires
        0 <= small < large,
    ensures
        units_of(small) < units_of(large),
{
    let step = EXPONENT_STEP as int;
    let es = small / step;
    let fs = small % step;
    let el = large / step;
    let fl = large % step;
    assert(small == es * step + fs && large == el * step + fl);
    assert(0 <= fs < step && 0 <= fl < step);
    assert(es <= el);
    if es == el {
        if es > 0 {
            let scale = pow2((es - 1) as nat) as int;
            lemma_pow2_pos((es - 1) as nat);
            assert((step + fs) * scale < (step + fl) * scale) by (nonlinear_arith)
                requires
                    fs < fl,
                    scale > 0,
            ;
        }
    } else {
        let top = pow2((el - 1) as nat) as int;
        lemma_pow2_pos((el - 1) as nat);
        assert((step + fl) * top >= step * top) by (nonlinear_arith)
            requires
                fl >= 0,
                top > 0,
        ;
        if es == 0 {
            assert(step * top >= step) by (nonlinear_arith)
                requires
                    step > 0,
                    top >= 1,
            ;
        } else {
            let scale = pow2((es - 1) as nat) as int;
            lemma_pow2_pos((es - 1) as nat);
            lemma_pow2_unfold(es as nat);
            if es < el - 1 {
                lemma_pow2_strictly_increases(es as nat, (el - 1) as nat);
            }
            assert((step + fs) * scale < step * top) by (nonlinear_arith)
                requires
                    0 <= fs < step,
                    scale > 0,
                    2 * scale <= top,
            ;
        }
    }
}

/// Bits with the sign folded in are ordered as the numbers are.
proof fn lemma_rank_orders_units(a: Price, b: Price)
    ensures
        ({
            let ra = if a.negative() { -a.magnitude() } else { a.magnitude() };
            let rb = if b.negative() { -b.magnitude() } else { b.magnitude() };
            ra < rb <==> a.units() < b.units()
        }),
        units_of(0) == 0,
{
    let ma = a.magnitude();
    let mb = b.magnitude();
    assert(units_of(0) == 0);
    if ma > 0 {
        lemma_units_of_increases(0, ma);
    }
    if mb > 0 {
        lemma_units_of_increases(0, mb);
    }
    if ma < mb {
        lemma_units_of_increases(ma, mb);
    } else if mb < ma {
        lemma_units_of_increases(mb, ma);
    }
}

/// Any two prices that are numbers can be compared, and they compare equal both ways exactly when
/// they are the same number.
pub proof fn law_numbers_are_ordered(a: Price, b: Price)
    requires
        !a.is_nan(),
        !b.is_nan(),
    ensures
        a.spec_at_least(b) || a.spec_at_most(b),
        a.spec_at_least(b) == b.spec_at_most(a),
        a.spec_at_least(b) && a.spec_at_most(b) <==> a.units() == b.units(),
{
}

/// The only two bit patterns that share a number are those of the two zeros.
pub proof fn law_bits_determine_number(a: Price, b: Price)
    requires
        !a.is_nan(),
        !b.is_nan(),
        a.units() == b.units(),
    ensures
        a == b || (a.magnitude() == 0 && b.magnitude() == 0),
{
    lemma_rank_orders_units(a, b);
    lemma_rank_orders_units(b, a);
}

/// Numbers without a sign compare as their bits do.
pub proof fn law_positive_numbers_compare_as_bits(a: Price, b: Price)
    requires
        a.bits <= 0x7ff0_0000_0000_0000,
        b.bits <= 0x7ff0_0000_0000_0000,
    ensures
        a.spec_at_least(b) <==> a.bits >= b.bits,
        a.spec_at_most(b) <==> a.bits <= b.bits,
        a.spec_above_zero() <==> a.bits > 0,
        a.spec_at_most_zero() <==> a.bits == 0,
        !a.is_nan(),
        a.is_finite() <==> a.bits < 0x7ff0_0000_0000_0000,
{
    lemma_rank_orders_units(a, b);
    lemma_rank_orders_units(b, a);
    lemma_rank_orders_units(a, Price { bits: 0 });
    lemma_rank_orders_units(Price { bits: 0 }, a);
}

/// Numbers with a sign compare the other way round, and none of them is above zero.
pub proof fn law_negative_numbers_compare_in_reverse(a: Price, b: Price)
    requires
        0x8000_0000_0000_0000 <= a.bits <= 0xfff0_0000_0000_0000,
        0x8000_0000_0000_0000 <= b.bits <= 0xfff0_0000_0000_0000,
    ensures
        a.spec_at_least(b) <==> a.bits <= b.bits,
        a.spec_at_most(b) <==> a.bits >= b.bits,
        !a.spec_above_zero(),
        a.spec_at_most_zero(),
        !a.is_nan(),
        a.is_finite() <==> a.bits < 0xfff0_0000_0000_0000,
{
    lemma_rank_orders_units(a, b);
    lemma_rank_orders_units(b, a);
    lemma_rank_orders_units(a, Price { bits: 0 });
    lemma_rank_orders_units(Price { bits: 0 }, a);
}

/// A number without a sign is at least every number with one, and at most one only where both are
/// zero.
pub proof fn law_sign_decides(a: Price, b: Price)
    requires
        a.bits <= 0x7ff0_0000_0000_0000,
        0x8000_0000_0000_0000 <= b.bits <= 0xfff0_0000_0000_0000,
    ensures
        a.spec_at_least(b),
        b.spec_at_most(a),
        a.spec_at_most(b) <==> a.bits == 0 && b.bits == 0x8000_0000_0000_0000,
        b.spec_at_least(a) <==> a.bits == 0 && b.bits == 0x8000_0000_0000_0000,
{
    lemma_rank_orders_units(a, b);
    lemma_rank_orders_units(b, a);
}

/// Bits beyond those of infinity, with a sign or without, compare with nothing.
pub proof fn law_nan_compares_with_nothing(a: Price, b: Price)
    requires
        0x7ff0_0000_0000_0000 < a.bits < 0x8000_0000_0000_0000 || a.bits > 0xfff0_0000_0000_0000,
    ensures
        a.is_nan(),
        !a.is_finite(),
        !a.spec_at_least(b),
        !a.spec_at_most(b),
        !b.spec_at_least(a),
        !b.spec_at_most(a),
        !a.spec_above_zero(),
        !a.spec_at_most_zero(),
{
}

/// The smallest numbers count their bits in units, and one step of the exponent doubles a number.
pub proof fn law_exponent_doubles(magnitude: int)
    requires
        0 <= magnitude,
    ensures
        magnitude < 0x20_0000_0000_0000 ==> units_of(magnitude) == magnitude,
        magnitude >= 0x10_0000_0000_0000 ==> units_of(magnitude + 0x10_0000_0000_0000) == 2
            * units_of(magnitude),
{
    let step = EXPONENT_STEP as int;
    let exponent = magnitude / step;
    let fraction = magnitude % step;
    if magnitude < step {
    } else {
        assert(exponent >= 1);
        assert((magnitude + step) / step == exponent + 1);
        assert((magnitude + step) % step == fraction);
        lemma_pow2_unfold(exponent as nat);
        let scale = pow2((exponent - 1) as nat) as int;
        assert((step + fraction) * (2 * scale) == 2 * ((step + fraction) * scale))
            by (nonlinear_arith);
        if magnitude < 2 * step {
            lemma2_to64();
            assert(exponent == 1);
        }
    }
}

/// The sign turns a number into its opposite.
pub proof fn law_sign_negates(price: Price)
    requires
        price.bits < 0x8000_0000_0000_0000,
    ensures
        price.units() == units_of(price.bits as int),
        (Price { bits: (price.bits + 0x8000_0000_0000_0000) as u64 }).units() == -price.units(),
{
}

} // verus!
