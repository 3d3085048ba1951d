//! Single-precision values as IEEE 754 binary32 words.
//!
//! A word is one sign bit, eight exponent bits and twenty-three fraction bits.
//! Everything this module decides about a word (whether it is a number, which
//! of two words is the smaller value, where a value lies between two bounds)
//! is read off that layout with integer arithmetic.

use vstd::prelude::*;
use vstd::arithmetic::mul::{lemma_mul_inequality, lemma_mul_strict_inequality};
use vstd::arithmetic::power2::{
    lemma2_to64, lemma_pow2_adds, lemma_pow2_pos, lemma_pow2_strictly_increases, pow2,
};

verus! {

/// The word whose only set bit is the sign bit.
pub const SIGN_BIT: u32 = 0x8000_0000;

/// The magnitude of an infinity: every exponent bit set, no fraction bit set.
pub const INFINITE: u32 = 0x7f80_0000;

/// The number of words that share one exponent: two to the power of the
/// twenty-three fraction bits.
pub const FRACTIONS: u32 = 0x80_0000;

/// One, counted in the unit of [`Binary32::scaled`]: 2 to the power of 149.
pub open spec fn one() -> int {
    pow2(149) as int
}

/// A single-precision value, held as its binary32 word.
///
/// The derived `==` compares words. It tells `0.0` from `-0.0` and finds a
/// not-a-number word equal to itself; [`Binary32::eq_value`] compares values.
#[derive(Clone, Copy, Debug, PartialEq, Eq, Structural)]
pub struct Binary32 {
    pub bits: u32,
}

/// The value whose word is `bits`.
pub open spec fn word(bits: u32) -> Binary32 {
    Binary32 { bits }
}

impl Binary32 {
    /// The word without its sign bit.
    pub open spec fn magnitude(self) -> int {
        if self.bits >= SIGN_BIT {
            self.bits - SIGN_BIT
        } else {
            self.bits as int
        }
    }

    /// The sign bit is set.
    pub open spec fn negative(self) -> bool {
        self.bits >= SIGN_BIT
    }

    /// The word is not a number.
    pub open spec fn nan(self) -> bool {
        self.magnitude() > INFINITE
    }

    /// The place of a number among all numbers: of two words that are numbers,
    /// the one with the smaller rank is the smaller value, and both zeros have
    /// rank 0.
    pub open spec fn rank(self) -> int {
        if self.negative() {
            -self.magnitude()
        } else {
            self.magnitude()
        }
    }

    /// The exponent field of the word.
    pub open spec fn exponent(self) -> int {
        self.magnitude() / (FRACTIONS as int)
    }

    /// The fraction field of the word.
    pub open spec fn fraction(self) -> int {
        self.magnitude() % (FRACTIONS as int)
    }

    /// The absolute value of a number as a whole multiple of 2 to the power of
    /// -149, the gap between the smallest values: the fraction alone where the
    /// exponent field is 0, and else the fraction with the hidden bit above
    /// it, doubled once for each step of the exponent over 1. An infinity
    /// counts as the value one exponent above the largest.
    pub open spec fn size(self) -> int {
        if self.exponent() == 0 {
            self.fraction()
        } else {
            (FRACTIONS + self.fraction()) * pow2((self.exponent() - 1) as nat)
        }
    }

    /// The value of a number as a whole multiple of 2 to the power of -149.
    pub open spec fn scaled(self) -> int {
        if self.negative() {
            -self.size()
        } else {
            self.size()
        }
    }

    /// The gap between the value and the next value that is farther from zero,
    /// as a whole multiple of 2 to the power of -149.
    pub open spec fn step(self) -> int {
        word((self.bits + 1) as u32).size() - self.size()
    }

    /// `self < other` as values: false as soon as either is not a number.
    pub open spec fn below(self, other: Self) -> bool {
        !self.nan() && !other.nan() && self.rank() < other.rank()
    }

    /// `self == other` as values: false as soon as either is not a number.
    pub open spec fn same_value(self, other: Self) -> bool {
        !self.nan() && !other.nan() && self.rank() == other.rank()
    }

    /// The word is a number no smaller than `lo` and no larger than `hi`.
    pub open spec fn within(self, lo: Self, hi: Self) -> bool {
        !self.nan() && lo.rank() <= self.rank() <= hi.rank()
    }

    /// The word is a number and no infinity.
    pub open spec fn finite(self) -> bool {
        self.magnitude() < INFINITE
    }

    /// `lo` is a number no larger than the number `hi`.
    pub open spec fn bounds(lo: Self, hi: Self) -> bool {
        !lo.nan() && !hi.nan() && lo.rank() <= hi.rank()
    }

    /// `self` brought into `lo ..= hi`: a value under `lo` becomes `lo`, one
    /// over `hi` becomes `hi`, and every other word, one that is not a number
    /// too, stays as it is.
    pub open spec fn clamped(self, lo: Self, hi: Self) -> Self {
        if self.below(lo) {
            lo
        } else if hi.below(self) {
            hi
        } else {
            self
        }
    }

    /// `self` brought into `lo ..= hi`, with `former` in the place of a word
    /// that is not a number: the result is a number within the bounds
    /// whatever `self` is, as long as `former` is one.
    pub open spec fn clamped_or(self, lo: Self, hi: Self, former: Self) -> Self {
        if self.nan() {
            former
        } else {
            self.clamped(lo, hi)
        }
    }

    /// The value whose word is `bits`.
    pub fn from_bits(bits: u32) -> (r: Self)
        ensures
            r == word(bits),
    {
        Binary32 { bits }
    }

    /// The word of the value.
    pub fn to_bits(self) -> (bits: u32)
        ensures
            bits == self.bits,
    {
        self.bits
    }

    /// The word without its sign bit.
    fn exec_magnitude(self) -> (m: u32)
        ensures
            m == self.magnitude(),
    {
        if self.bits >= SIGN_BIT {
            self.bits - SIGN_BIT
        } else {
            self.bits
        }
    }

    /// The place of the value among all numbers.
    fn exec_rank(self) -> (r: i64)
        ensures
            r == self.rank(),
    {
        let m: u32 = self.exec_magnitude();
        if self.bits >= SIGN_BIT {
            -(m as i64)
        } else {
            m as i64
        }
    }

    /// The word is not a number.
    pub fn is_nan(self) -> (r: bool)
        ensures
            r == self.nan(),
    {
        self.exec_magnitude() > INFINITE
    }

    /// `self < other` as values.
    pub fn lt(self, other: Self) -> (r: bool)
        ensures
            r == self.below(other),
    {
        !self.is_nan() && !other.is_nan() && self.exec_rank() < other.exec_rank()
    }

    /// `self == other` as values.
    pub fn eq_value(self, other: Self) -> (r: bool)
        ensures
            r == self.same_value(other),
    {
        !self.is_nan() && !other.is_nan() && self.exec_rank() == other.exec_rank()
    }

    /// Brings `self` into `lo ..= hi`.
    pub fn clamp(self, lo: Self, hi: Self) -> (r: Self)
        requires
            Self::bounds(lo, hi),
        ensures
            r == self.clamped(lo, hi),
            !self.nan() ==> r.within(lo, hi),
            self.nan() ==> r == self,
    {
        if self.lt(lo) {
            lo
        } else if hi.lt(self) {
            hi
        } else {
            self
        }
    }
}

impl Binary32 {
    /// Brings `self` into `lo ..= hi`, and gives `former` where `self` is not
    /// a number.
    pub fn clamp_or(self, lo: Self, hi: Self, former: Self) -> (r: Self)
        requires
            Self::bounds(lo, hi),
            former.within(lo, hi),
        ensures
            r == self.clamped_or(lo, hi, former),
            r.within(lo, hi),
    {
        if self.is_nan() {
            former
        } else {
            self.clamp(lo, hi)
        }
    }
}

/// The least size that a word with the exponent field `e` can have; every
/// word with a smaller exponent field has a smaller size.
spec fn floor_size(e: nat) -> int {
    FRACTIONS * pow2(e)
}

proof fn floor_size_grows(e1: nat, e2: nat)
    requires
        e1 <= e2,
    ensures
        floor_size(e1) <= floor_size(e2),
{
    if e1 < e2 {
        lemma_pow2_strictly_increases(e1, e2);
        lemma_mul_inequality(pow2(e1) as int, pow2(e2) as int, FRACTIONS as int);
    }
}

/// The size of a word lies between the floor of its exponent field and the
/// floor of the next.
proof fn size_between_floors(x: Binary32)
    ensures
        0 <= x.size() < floor_size(x.exponent() as nat),
        x.exponent() >= 1 ==> floor_size((x.exponent() - 1) as nat) <= x.size(),
{
    let e = x.exponent();
    let f = x.fraction();
    lemma2_to64();
    if e >= 1 {
        let p = pow2((e - 1) as nat) as int;
        lemma_pow2_pos((e - 1) as nat);
        lemma_pow2_adds(1, (e - 1) as nat);
        lemma_mul_strict_inequality(FRACTIONS + f, 2 * FRACTIONS, p);
        lemma_mul_inequality(FRACTIONS as int, FRACTIONS + f, p);
        assert((2 * FRACTIONS) * p == FRACTIONS * (2 * p)) by (nonlinear_arith);
    }
}

/// Of two words, the one with the smaller magnitude has the smaller size.
proof fn size_grows(a: Binary32, b: Binary32)
    requires
        a.magnitude() < b.magnitude(),
    ensures
        a.size() < b.size(),
{
    size_between_floors(a);
    size_between_floors(b);
    if a.exponent() == b.exponent() {
        if a.exponent() >= 1 {
            let p = pow2((a.exponent() - 1) as nat) as int;
            lemma_pow2_pos((a.exponent() - 1) as nat);
            lemma_mul_strict_inequality(FRACTIONS + a.fraction(), FRACTIONS + b.fraction(), p);
        }
    } else {
        floor_size_grows(a.exponent() as nat, (b.exponent() - 1) as nat);
    }
}

/// The order of the ranks is the order of the values: of two numbers, one has
/// the smaller rank exactly if it has the smaller value, and they have one
/// rank exactly if they have one value.
pub proof fn rank_orders_values(a: Binary32, b: Binary32)
    ensures
        a.rank() < b.rank() <==> a.scaled() < b.scaled(),
        a.rank() == b.rank() <==> a.scaled() == b.scaled(),
{
    let zero = word(0);
    assert(zero.size() == 0);
    if a.magnitude() < b.magnitude() {
        size_grows(a, b);
    }
    if b.magnitude() < a.magnitude() {
        size_grows(b, a);
    }
    if 0 < a.magnitude() {
        size_grows(zero, a);
    }
    if 0 < b.magnitude() {
        size_grows(zero, b);
    }
}

/// A value that is clamped lies within the bounds, unless it is not a number,
/// and a value within the bounds is left as it is.
pub proof fn clamped_is_within(x: Binary32, lo: Binary32, hi: Binary32)
    requires
        Binary32::bounds(lo, hi),
    ensures
        !x.nan() ==> x.clamped(lo, hi).within(lo, hi),
        x.nan() ==> x.clamped(lo, hi) == x,
        x.within(lo, hi) ==> x.clamped(lo, hi) == x,
        x.clamped(lo, hi).clamped(lo, hi) == x.clamped(lo, hi),
{
}

/// Whatever the word, what `clamped_or` makes of it lies within the bounds;
/// a number is clamped, and a word that is not a number gives way to `former`.
pub proof fn clamped_or_is_within(x: Binary32, lo: Binary32, hi: Binary32, former: Binary32)
    requires
        Binary32::bounds(lo, hi),
        former.within(lo, hi),
    ensures
        x.clamped_or(lo, hi, former).within(lo, hi),
        x.nan() ==> x.clamped_or(lo, hi, former) == former,
        !x.nan() ==> x.clamped_or(lo, hi, former) == x.clamped(lo, hi),
        x.within(lo, hi) ==> x.clamped_or(lo, hi, former) == x,
{
}

/// A number within two finite bounds is finite.
pub proof fn within_is_finite(x: Binary32, lo: Binary32, hi: Binary32)
    requires
        x.within(lo, hi),
        lo.finite(),
        hi.finite(),
    ensures
        x.finite(),
{
}

/// A number within two bounds has a value between the values of the bounds.
pub proof fn within_is_between(x: Binary32, lo: Binary32, hi: Binary32)
    requires
        x.within(lo, hi),
    ensures
        lo.scaled() <= x.scaled() <= hi.scaled(),
{
    rank_orders_values(lo, x);
    rank_orders_values(x, hi);
}

} // verus!
