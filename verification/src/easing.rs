//! Easing curves over fixed-point progress.
//!
//! An easing curve reshapes linear progress into perceptual progress. Every
//! curve here maps the progress range `[0, PROGRESS_SCALE]` back into
//! `[0, PROGRESS_SCALE]` and hits the two ends exactly, which is proved once
//! and for all in [`Easing::lemma_ease_range`]; overshooting curves are not
//! offered.

use crate::lerp::{lemma_frac_bounds, PROGRESS_SCALE};
use vstd::arithmetic::div_mod::{lemma_div_is_ordered, lemma_div_multiples_vanish};
use vstd::arithmetic::mul::{
    lemma_mul_inequality, lemma_mul_is_associative, lemma_mul_left_inequality,
};
use vstd::prelude::*;

verus! {

/// Squaring respects order on nonnegative values.
proof fn lemma_square_ordered(a: int, b: int)
    requires
        0 <= a <= b,
    ensures
        a * a <= b * b,
{
    lemma_mul_inequality(a, b, a);
    if b > 0 {
        lemma_mul_left_inequality(b, a, b);
    }
}

/// An easing curve: a reshaping of linear progress.
#[derive(Clone, Copy, Debug, PartialEq, Eq, Structural)]
pub enum Easing {
    /// Progress is passed through unchanged.
    Linear,
    /// Quadratic ease-in: starts slowly, accelerates.
    EaseInQuad,
    /// Quadratic ease-out: starts quickly, decelerates.
    EaseOutQuad,
    /// Quadratic ease-in-out: slow at both ends, fast in the middle.
    EaseInOutQuad,
}

impl Easing {
    /// The mathematical meaning of [`Easing::apply`].
    pub open spec fn ease_spec(self, p: int) -> int {
        let s = PROGRESS_SCALE as int;
        match self {
            Easing::Linear => p,
            Easing::EaseInQuad => p * p / s,
            Easing::EaseOutQuad => s - (s - p) * (s - p) / s,
            Easing::EaseInOutQuad => if p < s / 2 {
                2 * (p * p) / s
            } else {
                s - 2 * ((s - p) * (s - p)) / s
            },
        }
    }

    /// Every curve maps `[0, PROGRESS_SCALE]` into `[0, PROGRESS_SCALE]`,
    /// keeps the two endpoints fixed, and the linear curve is the identity.
    pub proof fn lemma_ease_range(self, p: int)
        requires
            0 <= p <= PROGRESS_SCALE as int,
        ensures
            0 <= self.ease_spec(p) <= PROGRESS_SCALE as int,
            p == 0 ==> self.ease_spec(p) == 0,
            p == PROGRESS_SCALE as int ==> self.ease_spec(p) == PROGRESS_SCALE as int,
            self == Easing::Linear ==> self.ease_spec(p) == p,
    {
        let s = PROGRESS_SCALE as int;
        match self {
            Easing::Linear => {},
            Easing::EaseInQuad => {
                lemma_frac_bounds(p, p);
            },
            Easing::EaseOutQuad => {
                lemma_frac_bounds(s - p, s - p);
            },
            Easing::EaseInOutQuad => {
                if p < s / 2 {
                    lemma_frac_bounds(2 * p, p);
                    lemma_mul_is_associative(2, p, p);
                } else {
                    let u = s - p;
                    lemma_frac_bounds(2 * u, u);
                    lemma_mul_is_associative(2, u, u);
                }
            },
        }
    }

    /// Every curve is monotone: later progress is never mapped behind
    /// earlier progress, so observed values advance along the curve as time
    /// passes within one segment.
    pub proof fn lemma_ease_monotonic(self, p1: int, p2: int)
        requires
            0 <= p1 <= p2 <= PROGRESS_SCALE as int,
        ensures
            self.ease_spec(p1) <= self.ease_spec(p2),
    {
        let s = PROGRESS_SCALE as int;
        let h = s / 2;
        match self {
            Easing::Linear => {},
            Easing::EaseInQuad => {
                lemma_square_ordered(p1, p2);
                lemma_div_is_ordered(p1 * p1, p2 * p2, s);
            },
            Easing::EaseOutQuad => {
                lemma_square_ordered(s - p2, s - p1);
                lemma_div_is_ordered((s - p2) * (s - p2), (s - p1) * (s - p1), s);
            },
            Easing::EaseInOutQuad => {
                if p2 < h {
                    lemma_square_ordered(p1, p2);
                    lemma_div_is_ordered(2 * (p1 * p1), 2 * (p2 * p2), s);
                } else if p1 >= h {
                    lemma_square_ordered(s - p2, s - p1);
                    lemma_div_is_ordered(2 * ((s - p2) * (s - p2)), 2 * ((s - p1) * (s - p1)), s);
                } else {
                    // Across the midpoint: the first half never exceeds the
                    // halfway value and the second half never falls below it.
                    lemma_mul_is_associative(2, p1, p1);
                    lemma_mul_inequality(2 * p1, s, p1);
                    lemma_div_is_ordered(2 * (p1 * p1), s * p1, s);
                    lemma_div_multiples_vanish(p1, s);
                    assert(2 * (p1 * p1) / s <= p1);
                    let u = s - p2;
                    lemma_mul_is_associative(2, u, u);
                    lemma_mul_inequality(2 * u, s, u);
                    lemma_div_is_ordered(2 * (u * u), s * u, s);
                    lemma_div_multiples_vanish(u, s);
                    assert(2 * (u * u) / s <= u);
                }
            },
        }
    }

    /// Apply the curve to a progress value, exactly as [`Easing::ease_spec`]
    /// describes.
    pub fn apply(self, p: u32) -> (r: u32)
        requires
            p <= PROGRESS_SCALE,
        ensures
            r as int == self.ease_spec(p as int),
            r <= PROGRESS_SCALE,
    {
        proof {
            self.lemma_ease_range(p as int);
        }
        let s: u64 = PROGRESS_SCALE as u64;
        match self {
            Easing::Linear => p,
            Easing::EaseInQuad => ((p as u64) * (p as u64) / s) as u32,
            Easing::EaseOutQuad => {
                let u: u64 = s - p as u64;
                proof {
                    lemma_frac_bounds(u as int, u as int);
                }
                (s - u * u / s) as u32
            },
            Easing::EaseInOutQuad => {
                if p < PROGRESS_SCALE / 2 {
                    proof {
                        lemma_frac_bounds(2 * (p as int), p as int);
                        lemma_mul_is_associative(2, p as int, p as int);
                    }
                    (2 * ((p as u64) * (p as u64)) / s) as u32
                } else {
                    let u: u64 = s - p as u64;
                    proof {
                        lemma_frac_bounds(2 * (u as int), u as int);
                        lemma_mul_is_associative(2, u as int, u as int);
                    }
                    (s - 2 * (u * u) / s) as u32
                }
            },
        }
    }
}

} // verus!
