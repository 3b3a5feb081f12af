//! Double-precision numbers, carried as their IEEE 754 bit pattern.
//!
//! A playback speed and a panel width are doubles. The library compares and clamps them;
//! it does so on the bit pattern, against the exact value that the pattern stands for.

use vstd::arithmetic::power2::{
    lemma2_to64, lemma2_to64_rest, lemma_pow2_adds, lemma_pow2_pos, lemma_pow2_strictly_increases,
    lemma_pow2_unfold, pow2,
};
use vstd::prelude::*;

verus! {

/// A double, as the bits of its IEEE 754 encoding.
#[derive(Debug, Clone, Copy, PartialEq, Eq, Structural)]
pub struct Double {
    pub bits: u64,
}

/// The encoding of 1.0.
pub const ONE_BITS: u64 = 0x3ff0_0000_0000_0000;

/// The encoding of 0.25.
pub const QUARTER_BITS: u64 = 0x3fd0_0000_0000_0000;

/// The encoding of 10.0.
pub const TEN_BITS: u64 = 0x4024_0000_0000_0000;

/// The encoding of 280.0.
pub const W280_BITS: u64 = 0x4071_8000_0000_0000;

/// The encoding of 380.0.
pub const W380_BITS: u64 = 0x4077_c000_0000_0000;

/// The encoding of 500.0.
pub const W500_BITS: u64 = 0x407f_4000_0000_0000;

const SIGN_BIT: u64 = 0x8000_0000_0000_0000;

const INFINITY_BITS: u64 = 0x7ff0_0000_0000_0000;

/// What the exponent and fraction fields stand for, in units of the smallest positive
/// double, which is two to the power of -1074.
pub open spec fn units(magnitude: nat) -> nat {
    let exponent = magnitude / 0x10_0000_0000_0000;
    let fraction = magnitude % 0x10_0000_0000_0000;
    if exponent == 0 {
        fraction
    } else {
        (0x10_0000_0000_0000 + fraction) * pow2((exponent - 1) as nat)
    }
}

impl Double {
    /// The bits without the sign.
    pub open spec fn magnitude(self) -> nat {
        (self.bits % 0x8000_0000_0000_0000) as nat
    }

    /// Whether the pattern stands for no number.
    pub open spec fn nan(self) -> bool {
        self.magnitude() > 0x7ff0_0000_0000_0000
    }

    /// Whether the pattern stands for a finite number.
    pub open spec fn finite(self) -> bool {
        self.magnitude() < 0x7ff0_0000_0000_0000
    }

    /// The number, in units of the smallest positive double. An infinity lies beyond every
    /// finite number.
    pub open spec fn value(self) -> int {
        if self.bits >= 0x8000_0000_0000_0000 {
            -(units(self.magnitude()) as int)
        } else {
            units(self.magnitude()) as int
        }
    }

    /// `self` moved to the nearer bound where it lies outside `low` to `high`.
    pub open spec fn spec_clamp(self, low: Double, high: Double) -> Double {
        if self.nan() {
            self
        } else if self.value() < low.value() {
            low
        } else if self.value() > high.value() {
            high
        } else {
            self
        }
    }

    /// 1.0.
    pub fn one() -> (r: Double)
        ensures
            r.bits == ONE_BITS,
    {
        Double { bits: ONE_BITS }
    }

    /// Whether this is a finite number.
    pub fn is_finite(self) -> (r: bool)
        ensures
            r == self.finite(),
    {
        self.bits % SIGN_BIT < INFINITY_BITS
    }

    /// Whether this is no number.
    pub fn is_nan(self) -> (r: bool)
        ensures
            r == self.nan(),
    {
        self.bits % SIGN_BIT > INFINITY_BITS
    }

    /// Whether this is zero, of either sign.
    pub fn is_zero(self) -> (r: bool)
        ensures
            r == (self.value() == 0),
    {
        proof {
            lemma_units_order(0, self.magnitude());
            assert(units(0) == 0);
        }
        self.bits % SIGN_BIT == 0
    }

    /// Whether `self` is the smaller number.
    pub fn less(self, other: Double) -> (r: bool)
        requires
            !self.nan(),
            !other.nan(),
        ensures
            r == (self.value() < other.value()),
    {
        let a: u64 = self.bits % SIGN_BIT;
        let b: u64 = other.bits % SIGN_BIT;
        proof {
            lemma_units_order(a as nat, b as nat);
            lemma_units_order(b as nat, a as nat);
            lemma_units_order(0, a as nat);
            lemma_units_order(0, b as nat);
            assert(units(0) == 0);
        }
        if self.bits >= SIGN_BIT {
            if other.bits >= SIGN_BIT {
                b < a
            } else {
                a != 0 || b != 0
            }
        } else if other.bits >= SIGN_BIT {
            false
        } else {
            a < b
        }
    }

    /// Clamps a number to the range from `low` to `high`; what is no number stays as it is.
    pub fn clamp_to(self, low: Double, high: Double) -> (r: Double)
        requires
            !low.nan(),
            !high.nan(),
        ensures
            r == self.spec_clamp(low, high),
    {
        if self.is_nan() {
            self
        } else if self.less(low) {
            low
        } else if high.less(self) {
            high
        } else {
            self
        }
    }

    /// Clamps to the range from `low` to `high`; what is no number becomes `low`.
    pub fn clamp_or_low(self, low: Double, high: Double) -> (r: Double)
        requires
            !low.nan(),
            !high.nan(),
            low.value() <= high.value(),
        ensures
            r == (if self.nan() {
                low
            } else {
                self.spec_clamp(low, high)
            }),
    {
        if self.is_nan() {
            low
        } else {
            self.clamp_to(low, high)
        }
    }
}

/// The order of the numbers is that of their magnitudes.
proof fn lemma_units_order(a: nat, b: nat)
    ensures
        a < b ==> units(a) < units(b),
        a == b ==> units(a) == units(b),
{
    if a < b {
        let c: nat = 0x10_0000_0000_0000;
        let ea = a / c;
        let eb = b / c;
        let fa = a % c;
        let fb = b % c;
        if ea == eb {
            assert(fa < fb);
            if ea > 0 {
                let p = pow2((ea - 1) as nat);
                lemma_pow2_pos((ea - 1) as nat);
                assert((c + fa) * p < (c + fb) * p) by (nonlinear_arith)
                    requires
                        fa < fb,
                        p > 0,
                ;
            }
        } else {
            assert(ea < eb);
            let q = pow2((eb - 1) as nat);
            lemma_pow2_pos((eb - 1) as nat);
            assert((c + fb) * q >= c * q) by (nonlinear_arith)
                requires
                    fb >= 0,
                    q > 0,
            ;
            if ea == 0 {
                assert(c * q >= c) by (nonlinear_arith)
                    requires
                        q >= 1,
                        c > 0,
                ;
            } else {
                let p = pow2((ea - 1) as nat);
                lemma_pow2_unfold(ea);
                if ea < eb - 1 {
                    lemma_pow2_strictly_increases(ea, (eb - 1) as nat);
                }
                assert(q >= 2 * p);
                lemma_pow2_pos((ea - 1) as nat);
                assert((c + fa) * p < c * q) by (nonlinear_arith)
                    requires
                        fa < c,
                        q >= 2 * p,
                        p > 0,
                        c > 0,
                ;
            }
        }
    }
}

/// The named patterns stand for the numbers that they are named after: with one as the
/// unit, a quarter is a fourth, and the others are whole multiples.
pub proof fn law_named_doubles()
    ensures
        (Double { bits: ONE_BITS }).value() == pow2(1074),
        4 * (Double { bits: QUARTER_BITS }).value() == pow2(1074),
        (Double { bits: TEN_BITS }).value() == 10 * pow2(1074),
        (Double { bits: W280_BITS }).value() == 280 * pow2(1074),
        (Double { bits: W380_BITS }).value() == 380 * pow2(1074),
        (Double { bits: W500_BITS }).value() == 500 * pow2(1074),
{
    let c: nat = 0x10_0000_0000_0000;
    lemma2_to64();
    lemma2_to64_rest();
    assert(c == pow2(52));
    lemma_pow2_adds(52, 1022);
    lemma_pow2_adds(52, 1020);
    lemma_pow2_adds(2, 1072);
    lemma_pow2_adds(49, 1025);
    lemma_pow2_adds(44, 1030);
    assert((c + 0) * pow2(1022) == pow2(1074));
    assert((c + 0) * pow2(1020) == pow2(1072));
    // 10 is 1.25 times eight.
    assert((c + 0x4_0000_0000_0000) * pow2(1025) == 10 * pow2(1074)) by (nonlinear_arith)
        requires
            c == 0x10_0000_0000_0000,
            pow2(49) * pow2(1025) == pow2(1074),
            pow2(49) == 0x2_0000_0000_0000,
    ;
    assert((c + 0x1_8000_0000_0000) * pow2(1030) == 280 * pow2(1074)) by (nonlinear_arith)
        requires
            c == 0x10_0000_0000_0000,
            pow2(44) * pow2(1030) == pow2(1074),
            pow2(44) == 0x1000_0000_0000,
    ;
    assert((c + 0x7_c000_0000_0000) * pow2(1030) == 380 * pow2(1074)) by (nonlinear_arith)
        requires
            c == 0x10_0000_0000_0000,
            pow2(44) * pow2(1030) == pow2(1074),
            pow2(44) == 0x1000_0000_0000,
    ;
    assert((c + 0xf_4000_0000_0000) * pow2(1030) == 500 * pow2(1074)) by (nonlinear_arith)
        requires
            c == 0x10_0000_0000_0000,
            pow2(44) * pow2(1030) == pow2(1074),
            pow2(44) == 0x1000_0000_0000,
    ;
}

/// A number brought into a range lies in it, is the number itself where that lay in it, and
/// else the nearer bound. What is no number is told apart.
pub proof fn law_clamped_number_lies_in_range(a: Double, low: Double, high: Double, r: Double)
    requires
        !low.nan(),
        !high.nan(),
        low.value() <= high.value(),
        call_ensures(Double::clamp_or_low, (a, low, high), r),
    ensures
        low.value() <= r.value() <= high.value(),
        !r.nan(),
        !a.nan() && low.value() <= a.value() <= high.value() ==> r == a,
        a.nan() || a.value() < low.value() ==> r == low,
        !a.nan() && a.value() > high.value() ==> r == high,
{
}

/// What is no number stays what it is where it is only clamped.
pub proof fn law_no_number_is_not_clamped(a: Double, low: Double, high: Double, r: Double)
    requires
        !low.nan(),
        !high.nan(),
        low.value() <= high.value(),
        call_ensures(Double::clamp_to, (a, low, high), r),
    ensures
        a.nan() ==> r == a,
        !a.nan() ==> low.value() <= r.value() <= high.value(),
        !a.nan() && low.value() <= a.value() <= high.value() ==> r == a,
{
}

/// Turning the sign of a number turns its value, and nothing else of it.
pub proof fn law_sign_turns_the_value(a: Double, b: Double)
    requires
        a.bits < 0x8000_0000_0000_0000,
        b.bits == a.bits + 0x8000_0000_0000_0000,
    ensures
        b.value() == -a.value(),
        a.value() >= 0,
        b.nan() == a.nan(),
        b.finite() == a.finite(),
{
}

/// A number is finite, an infinity or no number. An infinity is no finite number and lies
/// beyond each.
pub proof fn law_infinity_lies_beyond(a: Double, infinity: Double)
    requires
        infinity.bits == 0x7ff0_0000_0000_0000,
    ensures
        !infinity.finite() && !infinity.nan(),
        !(a.finite() && a.nan()),
        a.finite() ==> a.value() < infinity.value(),
        a.finite() ==> -infinity.value() < a.value(),
{
    lemma_units_order(a.magnitude(), infinity.magnitude());
    lemma_units_order(0, infinity.magnitude());
    lemma_units_order(0, a.magnitude());
    assert(units(0) == 0);
    if a.magnitude() == 0 {
        assert(units(a.magnitude()) == 0);
    }
}

} // verus!
