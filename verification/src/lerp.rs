//! Linear interpolation over fixed-point progress.
//!
//! Progress through a transition is a fixed-point fraction: `0` means "at the
//! start" and [`PROGRESS_SCALE`] means "at the end". Interpolation is exact
//! integer arithmetic, rounding the travelled distance towards zero, so the
//! result always lies between the two endpoints.

use vstd::arithmetic::div_mod::{
    lemma_div_is_ordered, lemma_div_multiples_vanish, lemma_div_of0, lemma_div_pos_is_pos,
};
use vstd::arithmetic::mul::{
    lemma_mul_inequality, lemma_mul_left_inequality, lemma_mul_nonnegative, lemma_mul_upper_bound,
};
use vstd::prelude::*;

verus! {

/// Number of fixed-point steps that make up full progress: a progress value
/// of `PROGRESS_SCALE` means the transition is complete.
pub const PROGRESS_SCALE: u32 = 1_000_000;

/// The value `t / PROGRESS_SCALE` of the way from `a` to `b`, with the
/// travelled distance rounded towards zero (i.e. towards `a`).
pub open spec fn lerp_int(a: int, b: int, t: int) -> int {
    if b >= a {
        a + (b - a) * t / (PROGRESS_SCALE as int)
    } else {
        a - (a - b) * t / (PROGRESS_SCALE as int)
    }
}

/// For a nonnegative distance `d`, the travelled part `d * t / PROGRESS_SCALE`
/// stays between `0` and `d`, and hits the ends exactly at `t == 0` and
/// `t == PROGRESS_SCALE`.
pub(crate) proof fn lemma_frac_bounds(d: int, t: int)
    requires
        0 <= d,
        0 <= t <= PROGRESS_SCALE as int,
    ensures
        0 <= d * t / (PROGRESS_SCALE as int) <= d,
        t == 0 ==> d * t / (PROGRESS_SCALE as int) == 0,
        t == PROGRESS_SCALE as int ==> d * t / (PROGRESS_SCALE as int) == d,
        d == 0 ==> d * t / (PROGRESS_SCALE as int) == 0,
{
    let s = PROGRESS_SCALE as int;
    lemma_mul_nonnegative(d, t);
    lemma_div_pos_is_pos(d * t, s);
    if d == 0 || t == 0 {
        assert(d * t == 0);
        lemma_div_of0(s);
    }
    if d > 0 {
        lemma_mul_left_inequality(d, t, s);
        lemma_div_is_ordered(d * t, d * s, s);
        lemma_div_multiples_vanish(d, s);
        assert(d * s == s * d);
    }
}

/// Bounds and endpoint values of [`lerp_int`]: the result lies between the
/// endpoints, and progress `0` and `PROGRESS_SCALE` return them exactly.
pub proof fn lemma_lerp_int_bounds(a: int, b: int, t: int)
    requires
        0 <= t <= PROGRESS_SCALE as int,
    ensures
        b >= a ==> a <= lerp_int(a, b, t) <= b,
        b < a ==> b <= lerp_int(a, b, t) <= a,
        t == 0 ==> lerp_int(a, b, t) == a,
        t == PROGRESS_SCALE as int ==> lerp_int(a, b, t) == b,
        a == b ==> lerp_int(a, b, t) == a,
{
    if b >= a {
        lemma_frac_bounds(b - a, t);
    } else {
        lemma_frac_bounds(a - b, t);
    }
}

/// Interpolation is monotone in progress: as progress grows, the result
/// never moves back towards the start.
pub proof fn lemma_lerp_int_monotonic(a: int, b: int, t1: int, t2: int)
    requires
        0 <= t1 <= t2 <= PROGRESS_SCALE as int,
    ensures
        b >= a ==> lerp_int(a, b, t1) <= lerp_int(a, b, t2),
        b < a ==> lerp_int(a, b, t1) >= lerp_int(a, b, t2),
{
    let s = PROGRESS_SCALE as int;
    if b >= a {
        lemma_mul_inequality(t1, t2, b - a);
        assert((b - a) * t1 == t1 * (b - a));
        assert((b - a) * t2 == t2 * (b - a));
        lemma_div_is_ordered((b - a) * t1, (b - a) * t2, s);
    } else {
        lemma_mul_inequality(t1, t2, a - b);
        assert((a - b) * t1 == t1 * (a - b));
        assert((a - b) * t2 == t2 * (a - b));
        lemma_div_is_ordered((a - b) * t1, (a - b) * t2, s);
    }
}

/// Interpolate `t / PROGRESS_SCALE` of the way from `a` to `b` on `i64`
/// values, exactly as [`lerp_int`] describes.
pub fn lerp(a: i64, b: i64, t: u32) -> (r: i64)
    requires
        t <= PROGRESS_SCALE,
    ensures
        r as int == lerp_int(a as int, b as int, t as int),
{
    proof {
        lemma_lerp_int_bounds(a as int, b as int, t as int);
    }
    if b >= a {
        let d: u128 = (b as i128 - a as i128) as u128;
        proof {
            lemma_mul_upper_bound(d as int, u64::MAX as int, t as int, PROGRESS_SCALE as int);
            lemma_frac_bounds(d as int, t as int);
        }
        let q: u128 = d * (t as u128) / (PROGRESS_SCALE as u128);
        (a as i128 + q as i128) as i64
    } else {
        let d: u128 = (a as i128 - b as i128) as u128;
        proof {
            lemma_mul_upper_bound(d as int, u64::MAX as int, t as int, PROGRESS_SCALE as int);
            lemma_frac_bounds(d as int, t as int);
        }
        let q: u128 = d * (t as u128) / (PROGRESS_SCALE as u128);
        (a as i128 - q as i128) as i64
    }
}

/// Interpolate `t / PROGRESS_SCALE` of the way from `a` to `b` on `u64`
/// values, exactly as [`lerp_int`] describes.
fn lerp_u64(a: u64, b: u64, t: u32) -> (r: u64)
    requires
        t <= PROGRESS_SCALE,
    ensures
        r as int == lerp_int(a as int, b as int, t as int),
{
    proof {
        lemma_lerp_int_bounds(a as int, b as int, t as int);
    }
    if b >= a {
        let d: u128 = (b - a) as u128;
        proof {
            lemma_mul_upper_bound(d as int, u64::MAX as int, t as int, PROGRESS_SCALE as int);
            lemma_frac_bounds(d as int, t as int);
        }
        let q: u128 = d * (t as u128) / (PROGRESS_SCALE as u128);
        a + (q as u64)
    } else {
        let d: u128 = (a - b) as u128;
        proof {
            lemma_mul_upper_bound(d as int, u64::MAX as int, t as int, PROGRESS_SCALE as int);
            lemma_frac_bounds(d as int, t as int);
        }
        let q: u128 = d * (t as u128) / (PROGRESS_SCALE as u128);
        a - (q as u64)
    }
}

/// A value which can be interpolated with another value of the same type.
///
/// `lerp_spec` is the mathematical meaning of the executable `lerp`; every
/// implementation also proves the interpolation laws: the endpoints are hit
/// exactly at progress `0` and `PROGRESS_SCALE`, and interpolating a value
/// with itself changes nothing.
pub trait Lerp: Sized + Copy {
    /// The mathematical meaning of `lerp` for this type.
    spec fn lerp_spec(self, to: Self, delta: int) -> Self;

    /// Interpolate `delta / PROGRESS_SCALE` of the way from `self` to `to`.
    fn lerp(&self, to: &Self, delta: u32) -> (r: Self)
        requires
            delta <= PROGRESS_SCALE,
        ensures
            r == self.lerp_spec(*to, delta as int),
    ;

    /// Interpolation laws: a degenerate segment stays put, and the ends of
    /// the segment are hit exactly.
    proof fn lerp_laws(a: Self, b: Self, delta: int)
        requires
            0 <= delta <= PROGRESS_SCALE as int,
        ensures
            a.lerp_spec(a, delta) == a,
            a.lerp_spec(b, 0) == a,
            a.lerp_spec(b, PROGRESS_SCALE as int) == b,
    ;

    /// Value equality, usable from verified code (to detect no-op goal
    /// updates).
    fn same(&self, other: &Self) -> (r: bool)
        ensures
            r <==> *self == *other,
    ;
}

impl Lerp for i64 {
    open spec fn lerp_spec(self, to: Self, delta: int) -> Self {
        lerp_int(self as int, to as int, delta) as i64
    }

    fn lerp(&self, to: &Self, delta: u32) -> Self {
        proof {
            lemma_lerp_int_bounds(*self as int, *to as int, delta as int);
        }
        lerp(*self, *to, delta)
    }

    proof fn lerp_laws(a: Self, b: Self, delta: int) {
        lemma_lerp_int_bounds(a as int, b as int, delta);
        lemma_lerp_int_bounds(a as int, a as int, delta);
    }

    fn same(&self, other: &Self) -> bool {
        *self == *other
    }
}

impl Lerp for i32 {
    open spec fn lerp_spec(self, to: Self, delta: int) -> Self {
        lerp_int(self as int, to as int, delta) as i32
    }

    fn lerp(&self, to: &Self, delta: u32) -> Self {
        proof {
            lemma_lerp_int_bounds(*self as int, *to as int, delta as int);
        }
        lerp(*self as i64, *to as i64, delta) as i32
    }

    proof fn lerp_laws(a: Self, b: Self, delta: int) {
        lemma_lerp_int_bounds(a as int, b as int, delta);
        lemma_lerp_int_bounds(a as int, a as int, delta);
    }

    fn same(&self, other: &Self) -> bool {
        *self == *other
    }
}

impl Lerp for i16 {
    open spec fn lerp_spec(self, to: Self, delta: int) -> Self {
        lerp_int(self as int, to as int, delta) as i16
    }

    fn lerp(&self, to: &Self, delta: u32) -> Self {
        proof {
            lemma_lerp_int_bounds(*self as int, *to as int, delta as int);
        }
        lerp(*self as i64, *to as i64, delta) as i16
    }

    proof fn lerp_laws(a: Self, b: Self, delta: int) {
        lemma_lerp_int_bounds(a as int, b as int, delta);
        lemma_lerp_int_bounds(a as int, a as int, delta);
    }

    fn same(&self, other: &Self) -> bool {
        *self == *other
    }
}

impl Lerp for i8 {
    open spec fn lerp_spec(self, to: Self, delta: int) -> Self {
        lerp_int(self as int, to as int, delta) as i8
    }

    fn lerp(&self, to: &Self, delta: u32) -> Self {
        proof {
            lemma_lerp_int_bounds(*self as int, *to as int, delta as int);
        }
        lerp(*self as i64, *to as i64, delta) as i8
    }

    proof fn lerp_laws(a: Self, b: Self, delta: int) {
        lemma_lerp_int_bounds(a as int, b as int, delta);
        lemma_lerp_int_bounds(a as int, a as int, delta);
    }

    fn same(&self, other: &Self) -> bool {
        *self == *other
    }
}

impl Lerp for u64 {
    open spec fn lerp_spec(self, to: Self, delta: int) -> Self {
        lerp_int(self as int, to as int, delta) as u64
    }

    fn lerp(&self, to: &Self, delta: u32) -> Self {
        proof {
            lemma_lerp_int_bounds(*self as int, *to as int, delta as int);
        }
        lerp_u64(*self, *to, delta)
    }

    proof fn lerp_laws(a: Self, b: Self, delta: int) {
        lemma_lerp_int_bounds(a as int, b as int, delta);
        lemma_lerp_int_bounds(a as int, a as int, delta);
    }

    fn same(&self, other: &Self) -> bool {
        *self == *other
    }
}

impl Lerp for u32 {
    open spec fn lerp_spec(self, to: Self, delta: int) -> Self {
        lerp_int(self as int, to as int, delta) as u32
    }

    fn lerp(&self, to: &Self, delta: u32) -> Self {
        proof {
            lemma_lerp_int_bounds(*self as int, *to as int, delta as int);
        }
        lerp_u64(*self as u64, *to as u64, delta) as u32
    }

    proof fn lerp_laws(a: Self, b: Self, delta: int) {
        lemma_lerp_int_bounds(a as int, b as int, delta);
        lemma_lerp_int_bounds(a as int, a as int, delta);
    }

    fn same(&self, other: &Self) -> bool {
        *self == *other
    }
}

impl Lerp for u16 {
    open spec fn lerp_spec(self, to: Self, delta: int) -> Self {
        lerp_int(self as int, to as int, delta) as u16
    }

    fn lerp(&self, to: &Self, delta: u32) -> Self {
        proof {
            lemma_lerp_int_bounds(*self as int, *to as int, delta as int);
        }
        lerp_u64(*self as u64, *to as u64, delta) as u16
    }

    proof fn lerp_laws(a: Self, b: Self, delta: int) {
        lemma_lerp_int_bounds(a as int, b as int, delta);
        lemma_lerp_int_bounds(a as int, a as int, delta);
    }

    fn same(&self, other: &Self) -> bool {
        *self == *other
    }
}

impl Lerp for u8 {
    open spec fn lerp_spec(self, to: Self, delta: int) -> Self {
        lerp_int(self as int, to as int, delta) as u8
    }

    fn lerp(&self, to: &Self, delta: u32) -> Self {
        proof {
            lemma_lerp_int_bounds(*self as int, *to as int, delta as int);
        }
        lerp_u64(*self as u64, *to as u64, delta) as u8
    }

    proof fn lerp_laws(a: Self, b: Self, delta: int) {
        lemma_lerp_int_bounds(a as int, b as int, delta);
        lemma_lerp_int_bounds(a as int, a as int, delta);
    }

    fn same(&self, other: &Self) -> bool {
        *self == *other
    }
}

} // verus!
