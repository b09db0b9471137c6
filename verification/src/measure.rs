//! Measured quantities as whole numbers.
//!
//! A pointer, a projector, a config file or a radar hands over numbers that may
//! not be numbers at all. [`Measure`] keeps that case visible, so that refusing
//! it is a rule that can be stated and not a property of an arithmetic type.

use vstd::prelude::*;

verus! {

/// Millionths in one unit.
pub const MICRO: i64 = 1_000_000;

/// A quantity as it arrives from outside: a whole number of millionths of its
/// unit, or a value that is not a finite number.
#[derive(Clone, Copy, Debug, PartialEq, Eq, Structural)]
pub enum Measure {
    /// This many millionths.
    Micro(i64),
    /// A NaN or an infinity.
    NotFinite,
}

impl Measure {
    /// Whether this is a finite number.
    pub open spec fn finite(self) -> bool {
        self is Micro
    }

    /// The number of millionths; zero stands in where there is none.
    pub open spec fn micro(self) -> int {
        match self {
            Measure::Micro(m) => m as int,
            Measure::NotFinite => 0,
        }
    }

    /// Whether this is a finite number.
    pub fn is_finite(self) -> (r: bool)
        ensures
            r == self.finite(),
    {
        match self {
            Measure::Micro(_) => true,
            Measure::NotFinite => false,
        }
    }

    /// This number, or `fallback` millionths where it is none.
    pub open spec fn mended(self, fallback: i64) -> Measure {
        if self.finite() {
            self
        } else {
            Measure::Micro(fallback)
        }
    }

    /// Whether both are numbers and lie no further apart than `tolerance`.
    pub open spec fn close_to(self, other: Measure, tolerance: int) -> bool {
        self.finite() && other.finite() && distance(self.micro(), other.micro()) <= tolerance
    }

    /// Whether both are numbers and lie no further apart than `tolerance`
    /// millionths. What is no number is close to nothing, itself included.
    pub fn is_close_to(self, other: Measure, tolerance: i64) -> (r: bool)
        ensures
            r == self.close_to(other, tolerance as int),
    {
        match (self, other) {
            (Measure::Micro(a), Measure::Micro(b)) => within(a, b, tolerance),
            _ => false,
        }
    }

    /// The number of millionths, or `fallback` for a value that is no number.
    pub fn or_micro(self, fallback: i64) -> (r: i64)
        ensures
            r == if self.finite() { self.micro() } else { fallback as int },
    {
        match self {
            Measure::Micro(m) => m,
            Measure::NotFinite => fallback,
        }
    }
}

/// A floating-point number exactly as it arrives, by its place among all of them:
/// zero's place is zero, and one number is less than another exactly where its
/// place is. Two numbers are one only where their places are, however near they
/// lie. It is for numbers that are compared and handed on, and never reckoned
/// with.
#[derive(Clone, Copy, Debug, PartialEq, Eq, Structural)]
pub enum Exact {
    /// The number at this place.
    At(i64),
    /// A NaN or an infinity.
    NotFinite,
}

/// The distance between two numbers.
pub open spec fn distance(a: int, b: int) -> int {
    if a >= b { a - b } else { b - a }
}

/// `x` held between `low` and `high`.
pub open spec fn clamped(x: int, low: int, high: int) -> int {
    if x < low {
        low
    } else if x > high {
        high
    } else {
        x
    }
}

/// Whether `a` and `b` lie no further apart than `tolerance`.
pub fn within(a: i64, b: i64, tolerance: i64) -> (r: bool)
    ensures
        r == (distance(a as int, b as int) <= tolerance),
{
    let wide_a: i128 = a as i128;
    let wide_b: i128 = b as i128;
    let gap: i128 = if wide_a >= wide_b { wide_a - wide_b } else { wide_b - wide_a };
    gap <= tolerance as i128
}

/// `x` held between `low` and `high`.
pub fn clamp_micro(x: i64, low: i64, high: i64) -> (r: i64)
    requires
        low <= high,
    ensures
        r == clamped(x as int, low as int, high as int),
        low <= r <= high,
{
    if x < low {
        low
    } else if x > high {
        high
    } else {
        x
    }
}

/// `x + moved` held between `low` and `high`, whatever the two are.
pub fn shift_clamped(x: i64, moved: i64, low: i64, high: i64) -> (r: i64)
    requires
        low <= high,
    ensures
        r == clamped(x + moved, low as int, high as int),
        low <= r <= high,
{
    let sum: i128 = x as i128 + moved as i128;
    if sum < low as i128 {
        low
    } else if sum > high as i128 {
        high
    } else {
        sum as i64
    }
}

/// `x + moved` wrapped into one turn of `turn` millionths.
pub fn shift_wrapped(x: i64, moved: i64, turn: i64) -> (r: i64)
    requires
        turn > 0,
    ensures
        r == (x + moved) % (turn as int),
        0 <= r < turn,
{
    let sum: i128 = x as i128 + moved as i128;
    let wide_turn: i128 = turn as i128;
    if sum >= 0 {
        let rest: i128 = sum % wide_turn;
        rest as i64
    } else {
        let short: i128 = (-sum) % wide_turn;
        proof {
            lemma_negative_remainder(-(sum as int), turn as int);
        }
        if short == 0 {
            0
        } else {
            (wide_turn - short) as i64
        }
    }
}

/// How the remainder of a negative number follows from that of its negation.
proof fn lemma_negative_remainder(n: int, d: int)
    requires
        n > 0,
        d > 0,
    ensures
        n % d == 0 ==> (-n) % d == 0,
        n % d != 0 ==> (-n) % d == d - n % d,
{
    let q = n / d;
    let r = n % d;
    assert(n == q * d + r) by {
        vstd::arithmetic::div_mod::lemma_fundamental_div_mod(n, d);
        vstd::arithmetic::mul::lemma_mul_is_commutative(d, q);
    }
    vstd::arithmetic::div_mod::lemma_mod_bound(n, d);
    if r == 0 {
        assert(-n == (-q) * d) by (nonlinear_arith)
            requires n == q * d + r, r == 0,
        {}
        vstd::arithmetic::div_mod::lemma_fundamental_div_mod_converse(-n, d, -q, 0);
    } else {
        assert(-n == (-q - 1) * d + (d - r)) by (nonlinear_arith)
            requires n == q * d + r,
        {}
        vstd::arithmetic::div_mod::lemma_fundamental_div_mod_converse(-n, d, -q - 1, d - r);
    }
}

/// What is held between two limits lies between them, is left alone where it
/// already did, and otherwise goes no further than it has to.
pub proof fn law_clamped_is_the_nearest(x: int, low: int, high: int, other: int)
    requires
        low <= other <= high,
    ensures
        low <= clamped(x, low, high) <= high,
        low <= x <= high ==> clamped(x, low, high) == x,
        x <= other ==> clamped(x, low, high) <= other,
        x >= other ==> clamped(x, low, high) >= other,
{
}

/// A distance is one of the two differences, and never less than either.
pub proof fn law_distance_is_the_greater_difference(a: int, b: int)
    ensures
        distance(a, b) == a - b || distance(a, b) == b - a,
        distance(a, b) >= a - b,
        distance(a, b) >= b - a,
{
}

/// Two numbers are close where neither exceeds the other by more than the
/// tolerance; what is no number is close to nothing.
pub proof fn law_closeness_is_a_band(a: Measure, b: Measure, tolerance: int)
    ensures
        a.close_to(b, tolerance) <==> exists|x: i64, y: i64|
            a == Measure::Micro(x) && b == Measure::Micro(y) && #[trigger] (x - y) <= tolerance
                && y - x <= tolerance,
{
    if let (Measure::Micro(x), Measure::Micro(y)) = (a, b) {
        assert(x - y == a.micro() - b.micro());
    }
}

/// Mending a number leaves it, and mending anything gives a number.
pub proof fn law_mending_is_for_what_is_no_number(m: Measure, number: i64, fallback: i64)
    ensures
        m == Measure::Micro(number) ==> m.mended(fallback) == m,
        m == Measure::NotFinite ==> m.mended(fallback) == Measure::Micro(fallback),
{
}

} // verus!
