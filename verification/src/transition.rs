//! The transition handle: lazy evaluation, goal updates and reset.
//!
//! A [`Transition`] is a lightweight handle over one [`TransitionState`] in a
//! [`StateStore`], together with per-construction configuration (duration,
//! easing curve, continuous-versus-restart policy) and a per-frame cache of
//! the last evaluated value. Time enters every operation as a caller-supplied
//! millisecond timestamp; the host's scheduler owns the clock and the frame
//! boundaries.

use crate::easing::Easing;
use crate::lerp::{Lerp, PROGRESS_SCALE};
use crate::state::TransitionState;
use crate::store::StateStore;
use vstd::arithmetic::div_mod::{
    lemma_div_is_ordered, lemma_div_multiples_vanish, lemma_multiply_divide_lt,
};
use vstd::arithmetic::mul::{
    lemma_mul_inequality, lemma_mul_strict_inequality, lemma_mul_upper_bound,
};
use vstd::prelude::*;

verus! {

/// A transition that can be applied to an animated property.
///
/// Handles are cheap to construct and copy; several handles may name the same
/// state record, each with its own private evaluation cache.
#[derive(Clone, Copy, Debug)]
pub struct Transition<T> {
    /// How long the transition runs, in milliseconds; always positive.
    pub duration_ms: u64,
    /// The easing curve applied to raw progress.
    pub easing: Easing,
    /// Handle of the state record in the owning [`StateStore`].
    pub state_id: usize,
    /// The value evaluated earlier in the current scheduling frame, if any.
    /// The host invalidates it exactly once per frame boundary.
    pub cached_value: Option<T>,
    /// Whether a goal update continues from the in-flight value (`true`) or
    /// restarts from the segment's original start (`false`).
    pub continuous: bool,
}

impl<T: Lerp> Transition<T> {
    /// A handle is valid for a store when its duration is positive and its
    /// handle points at a state the store holds.
    pub open spec fn valid(self, store: StateStore<T>) -> bool {
        &&& self.duration_ms > 0
        &&& self.state_id < store@.len()
    }

    /// Milliseconds elapsed since the current segment began. An unstarted
    /// segment (`goal_last_updated_at` of `None`) counts as having begun
    /// exactly one duration ago, i.e. as already complete; a clock reading
    /// older than the segment start counts as no time elapsed.
    pub open spec fn elapsed_ms(self, st: TransitionState<T>, now: u64) -> int {
        match st.goal_last_updated_at {
            Some(t) => if now >= t {
                now - t
            } else {
                0
            },
            None => self.duration_ms as int,
        }
    }

    /// Raw progress at time `now`: elapsed time over duration, clamped to
    /// `[0, PROGRESS_SCALE]`.
    pub open spec fn raw_delta_spec(self, st: TransitionState<T>, now: u64) -> int {
        let raw = self.elapsed_ms(st, now) * (PROGRESS_SCALE as int) / (self.duration_ms as int);
        if raw > PROGRESS_SCALE as int {
            PROGRESS_SCALE as int
        } else {
            raw
        }
    }

    /// Eased progress at time `now`: the easing curve applied to the raw
    /// progress.
    pub open spec fn eased_delta_spec(self, st: TransitionState<T>, now: u64) -> int {
        self.easing.ease_spec(self.raw_delta_spec(st, now))
    }

    /// The value a state shows at eased progress `delta`: the interpolation
    /// of the segment in flight.
    pub open spec fn value_at(st: TransitionState<T>, delta: int) -> T {
        st.start_goal.lerp_spec(st.end_goal, delta)
    }

    /// Create a new transition over the state `state_id` names, running for
    /// `duration_ms` milliseconds, with linear easing and the continuous
    /// goal-update policy.
    pub fn new(state_id: usize, duration_ms: u64) -> (tr: Self)
        requires
            duration_ms > 0,
        ensures
            tr == (Transition {
                duration_ms,
                easing: Easing::Linear,
                state_id,
                cached_value: None::<T>,
                continuous: true,
            }),
    {
        Transition {
            duration_ms,
            easing: Easing::Linear,
            state_id,
            cached_value: None,
            continuous: true,
        }
    }

    /// Set the easing curve to use for this transition.
    pub fn with_easing(self, easing: Easing) -> (tr: Self)
        ensures
            tr == (Transition { easing, ..self }),
    {
        Transition { easing, ..self }
    }

    /// Set whether the transition is continuous.
    ///
    /// On goal updates a continuous transition carries on from the in-flight
    /// value; otherwise it restarts from the segment's original start value.
    pub fn continuous(self, continuous: bool) -> (tr: Self)
        ensures
            tr == (Transition { continuous, ..self }),
    {
        Transition { continuous, ..self }
    }

    /// Raw progress at time `now`, computed exactly as
    /// [`Transition::raw_delta_spec`] describes.
    fn raw_delta(&self, st: &TransitionState<T>, now: u64) -> (r: u32)
        requires
            self.duration_ms > 0,
        ensures
            r as int == self.raw_delta_spec(*st, now),
            r <= PROGRESS_SCALE,
    {
        let elapsed: u64 = match st.goal_last_updated_at {
            Some(t) => if now >= t {
                now - t
            } else {
                0
            },
            None => self.duration_ms,
        };
        proof {
            lemma_mul_upper_bound(
                elapsed as int,
                u64::MAX as int,
                PROGRESS_SCALE as int,
                PROGRESS_SCALE as int,
            );
            lemma_div_is_ordered(
                0,
                elapsed as int * (PROGRESS_SCALE as int),
                self.duration_ms as int,
            );
        }
        let raw: u128 = (elapsed as u128) * (PROGRESS_SCALE as u128) / (self.duration_ms as u128);
        if raw > PROGRESS_SCALE as u128 {
            PROGRESS_SCALE
        } else {
            raw as u32
        }
    }

    /// Eased progress at time `now`: a pure read for callers that only need
    /// progress, not the interpolated value. Touches neither state nor
    /// cache.
    pub fn evaluate_delta(&self, store: &StateStore<T>, now: u64) -> (delta: u32)
        requires
            self.valid(*store),
        ensures
            delta as int == self.eased_delta_spec(store@[self.state_id as int], now),
            delta <= PROGRESS_SCALE,
    {
        let st = store.state(self.state_id);
        let raw = self.raw_delta(st, now);
        self.easing.apply(raw)
    }

    /// Evaluate the transition without the cache: compute eased progress,
    /// record it in the state for later rebasing, and interpolate. Returns
    /// whether the transition is still in progress, and the value.
    fn raw_evaluate(&self, store: &mut StateStore<T>, now: u64) -> (r: (bool, T))
        requires
            self.valid(*old(store)),
            old(store).wf(),
        ensures
            ({
                let st0 = old(store)@[self.state_id as int];
                let eased = self.eased_delta_spec(st0, now);
                &&& final(store)@ == old(store)@.update(
                    self.state_id as int,
                    TransitionState {
                        goal_last_updated_at: st0.goal_last_updated_at,
                        initial_goal: st0.initial_goal,
                        start_goal: st0.start_goal,
                        end_goal: st0.end_goal,
                        last_delta: eased as u32,
                    },
                )
                &&& final(store).wf()
                &&& r.1 == Self::value_at(st0, eased)
                &&& (r.0 <==> eased != PROGRESS_SCALE as int)
            }),
    {
        let id = self.state_id;
        let st = *store.state(id);
        let raw = self.raw_delta(&st, now);
        let eased = self.easing.apply(raw);
        let value = st.start_goal.lerp(&st.end_goal, eased);
        let new_st = TransitionState {
            goal_last_updated_at: st.goal_last_updated_at,
            initial_goal: st.initial_goal,
            start_goal: st.start_goal,
            end_goal: st.end_goal,
            last_delta: eased,
        };
        store.set_state(id, new_st);
        proof {
            assert forall|i: int| 0 <= i < store@.len() implies (#[trigger] store@[i]).wf() by {
                if i != id {
                    assert(store@[i] == old(store)@[i]);
                }
            }
        }
        (eased != PROGRESS_SCALE, value)
    }

    /// Evaluate the current value of the transition, memoizing it for the
    /// remainder of the scheduling frame.
    ///
    /// Returns the value and a request for another frame: `true` asks the
    /// host to schedule one more frame because the transition is still in
    /// progress. A read answered from the cache returns `false`, since the
    /// request was already made when the cache was filled; repeated reads
    /// within one frame return the identical value.
    pub fn evaluate(&mut self, store: &mut StateStore<T>, now: u64) -> (r: (T, bool))
        requires
            old(self).valid(*old(store)),
            old(store).wf(),
        ensures
            final(self).duration_ms == old(self).duration_ms,
            final(self).easing == old(self).easing,
            final(self).state_id == old(self).state_id,
            final(self).continuous == old(self).continuous,
            final(store).wf(),
            old(self).cached_value matches Some(v) ==> {
                &&& r == (v, false)
                &&& *final(store) == *old(store)
                &&& *final(self) == *old(self)
            },
            old(self).cached_value is None ==> ({
                let st0 = old(store)@[old(self).state_id as int];
                let eased = old(self).eased_delta_spec(st0, now);
                &&& r.0 == Self::value_at(st0, eased)
                &&& (r.1 <==> eased != PROGRESS_SCALE as int)
                &&& final(self).cached_value == Some(r.0)
                &&& final(store)@ == old(store)@.update(
                    old(self).state_id as int,
                    TransitionState {
                        goal_last_updated_at: st0.goal_last_updated_at,
                        initial_goal: st0.initial_goal,
                        start_goal: st0.start_goal,
                        end_goal: st0.end_goal,
                        last_delta: eased as u32,
                    },
                )
            }),
    {
        match self.cached_value {
            Some(v) => (v, false),
            None => {
                let (in_progress, value) = self.raw_evaluate(store, now);
                self.cached_value = Some(value);
                (value, in_progress)
            },
        }
    }

    /// Read the current end goal of the transition. No side effects.
    pub fn read_goal<'a>(&self, store: &'a StateStore<T>) -> (r: &'a T)
        requires
            self.state_id < store@.len(),
        ensures
            *r == store@[self.state_id as int].end_goal,
    {
        &store.state(self.state_id).end_goal
    }

    /// The handle of the underlying state record, usable for deduplication
    /// and debugging.
    pub fn entity_id(&self) -> (r: usize)
        ensures
            r == self.state_id,
    {
        self.state_id
    }

    /// Read the value cached for the current frame, if one exists.
    pub fn read_cache(&self) -> (r: Option<T>)
        ensures
            r == self.cached_value,
    {
        self.cached_value
    }

    /// Forget the value cached for the current frame. The host's scheduler
    /// calls this exactly once per frame boundary, so that repeated reads
    /// within one frame stay identical while the next frame recomputes.
    pub fn invalidate_cache(&mut self)
        ensures
            *final(self) == (Transition { cached_value: None::<T>, ..*old(self) }),
    {
        self.cached_value = None;
    }

    /// Update the goal of the transition to `new_goal` at time `now`.
    ///
    /// Under the continuous policy a goal equal to the current one is a
    /// no-op: nothing is touched and `false` comes back. Otherwise the
    /// segment is restarted at `now`; a continuous transition first rebases
    /// its start onto the in-flight value (the previous segment evaluated at
    /// the retained progress), a non-continuous one keeps its start, so the
    /// new segment replays from there. Returns whether anything changed.
    ///
    /// The frame cache is deliberately left alone: invalidation belongs to
    /// the scheduler at frame boundaries.
    pub fn update(&self, store: &mut StateStore<T>, now: u64, new_goal: T) -> (was_updated: bool)
        requires
            self.state_id < old(store)@.len(),
            old(store).wf(),
        ensures
            final(store).wf(),
            ({
                let st0 = old(store)@[self.state_id as int];
                if self.continuous && new_goal == st0.end_goal {
                    &&& !was_updated
                    &&& *final(store) == *old(store)
                } else {
                    &&& was_updated
                    &&& final(store)@ == old(store)@.update(
                        self.state_id as int,
                        TransitionState {
                            goal_last_updated_at: Some(now),
                            initial_goal: st0.initial_goal,
                            start_goal: if self.continuous {
                                st0.start_goal.lerp_spec(st0.end_goal, st0.last_delta as int)
                            } else {
                                st0.start_goal
                            },
                            end_goal: new_goal,
                            last_delta: st0.last_delta,
                        },
                    )
                }
            }),
    {
        let id = self.state_id;
        let st = *store.state(id);
        if self.continuous && new_goal.same(&st.end_goal) {
            return false;
        }
        proof {
            assert(old(store)@[id as int].wf());
        }
        let start_goal = if self.continuous {
            st.start_goal.lerp(&st.end_goal, st.last_delta)
        } else {
            st.start_goal
        };
        let new_st = TransitionState {
            goal_last_updated_at: Some(now),
            initial_goal: st.initial_goal,
            start_goal,
            end_goal: new_goal,
            last_delta: st.last_delta,
        };
        store.set_state(id, new_st);
        proof {
            assert forall|i: int| 0 <= i < store@.len() implies (#[trigger] store@[i]).wf() by {
                if i != id {
                    assert(store@[i] == old(store)@[i]);
                }
            }
        }
        true
    }

    /// Reset the transition to its initial state: no segment in flight,
    /// every goal field back at the construction-time value, and the frame
    /// cache cleared. The next evaluation returns the initial goal with no
    /// further animation.
    pub fn reset(&mut self, store: &mut StateStore<T>)
        requires
            old(self).state_id < old(store)@.len(),
            old(store).wf(),
        ensures
            *final(self) == (Transition { cached_value: None::<T>, ..*old(self) }),
            final(store)@ == old(store)@.update(
                old(self).state_id as int,
                old(store)@[old(self).state_id as int].reset_spec(),
            ),
            final(store).wf(),
    {
        let id = self.state_id;
        let st = *store.state(id);
        let new_st = TransitionState {
            goal_last_updated_at: None,
            initial_goal: st.initial_goal,
            start_goal: st.initial_goal,
            end_goal: st.initial_goal,
            last_delta: 0,
        };
        store.set_state(id, new_st);
        self.cached_value = None;
        proof {
            assert forall|i: int| 0 <= i < store@.len() implies (#[trigger] store@[i]).wf() by {
                if i != id {
                    assert(store@[i] == old(store)@[i]);
                }
            }
        }
    }
}

/// Allocate a fresh state settled at `initial_goal` and return a transition
/// handle over it, with linear easing and the continuous policy; the
/// millisecond duration must be positive.
pub fn use_transition<T: Lerp>(
    store: &mut StateStore<T>,
    duration_ms: u64,
    initial_goal: T,
) -> (tr: Transition<T>)
    requires
        duration_ms > 0,
        old(store).wf(),
    ensures
        final(store)@ == old(store)@.push(TransitionState::new_spec(initial_goal)),
        final(store).wf(),
        tr == (Transition {
            duration_ms,
            easing: Easing::Linear,
            state_id: old(store)@.len() as usize,
            cached_value: None::<T>,
            continuous: true,
        }),
        tr.valid(*final(store)),
{
    let id = store.allocate(initial_goal);
    Transition::new(id, duration_ms)
}

/// Monotonic-time law: for a transition whose segment began at `base`, with
/// linear easing and duration `D`, the progress read at time `base + t` is
/// `t / D` in fixed point, clamped at full progress. Once `t` reaches `D` the
/// transition is settled: progress is full, the evaluated value is exactly
/// the end goal, and no further frame is requested; before that it still
/// animates.
pub proof fn lemma_monotonic_time<T: Lerp>(
    tr: Transition<T>,
    st: TransitionState<T>,
    base: u64,
    t: u64,
)
    requires
        tr.duration_ms > 0,
        tr.easing == Easing::Linear,
        st.goal_last_updated_at == Some(base),
        base + t <= u64::MAX,
    ensures
        tr.eased_delta_spec(st, (base + t) as u64) == if t >= tr.duration_ms {
            PROGRESS_SCALE as int
        } else {
            t as int * (PROGRESS_SCALE as int) / (tr.duration_ms as int)
        },
        t >= tr.duration_ms ==> Transition::<T>::value_at(
            st,
            tr.eased_delta_spec(st, (base + t) as u64),
        ) == st.end_goal,
        tr.eased_delta_spec(st, (base + t) as u64) != PROGRESS_SCALE as int <==> t
            < tr.duration_ms,
{
    let s = PROGRESS_SCALE as int;
    let d = tr.duration_ms as int;
    let now = (base + t) as u64;
    assert(tr.elapsed_ms(st, now) == t as int);
    if t >= tr.duration_ms {
        lemma_mul_inequality(d, t as int, s);
        lemma_div_is_ordered(d * s, t as int * s, d);
        lemma_div_multiples_vanish(s, d);
        assert(d * s == s * d);
        assert(t as int * s / d >= s);
        T::lerp_laws(st.start_goal, st.end_goal, s);
    } else {
        lemma_mul_strict_inequality(t as int, d, s);
        lemma_multiply_divide_lt(t as int * s, d, s);
        assert(t as int * s < d * s);
        assert(t as int * s / d < s);
        vstd::arithmetic::mul::lemma_mul_nonnegative(t as int, s);
        vstd::arithmetic::div_mod::lemma_div_pos_is_pos(t as int * s, d);
    }
}

/// Whatever the easing curve, progress never moves backwards as time
/// advances within one segment: observed values advance monotonically along
/// the curve until completion.
pub proof fn lemma_progress_monotonic<T: Lerp>(
    tr: Transition<T>,
    st: TransitionState<T>,
    base: u64,
    t1: u64,
    t2: u64,
)
    requires
        tr.duration_ms > 0,
        st.goal_last_updated_at == Some(base),
        t1 <= t2,
        base + t2 <= u64::MAX,
    ensures
        tr.eased_delta_spec(st, (base + t1) as u64) <= tr.eased_delta_spec(st, (base + t2) as u64),
{
    let s = PROGRESS_SCALE as int;
    let d = tr.duration_ms as int;
    assert(tr.elapsed_ms(st, (base + t1) as u64) == t1 as int);
    assert(tr.elapsed_ms(st, (base + t2) as u64) == t2 as int);
    lemma_mul_inequality(t1 as int, t2 as int, s);
    lemma_div_is_ordered(t1 as int * s, t2 as int * s, d);
    vstd::arithmetic::mul::lemma_mul_nonnegative(t1 as int, s);
    vstd::arithmetic::div_mod::lemma_div_pos_is_pos(t1 as int * s, d);
    let raw1 = tr.raw_delta_spec(st, (base + t1) as u64);
    let raw2 = tr.raw_delta_spec(st, (base + t2) as u64);
    assert(0 <= raw1 <= s);
    assert(0 <= raw2 <= s);
    assert(raw1 <= raw2);
    tr.easing.lemma_ease_monotonic(raw1, raw2);
}

/// A transition whose state holds no segment start is settled: it reads full
/// progress at every time. Both a freshly constructed state and a reset one
/// are of that shape.
pub proof fn lemma_unstarted_is_settled<T: Lerp>(
    tr: Transition<T>,
    st: TransitionState<T>,
    now: u64,
)
    requires
        tr.duration_ms > 0,
        st.goal_last_updated_at is None,
    ensures
        tr.eased_delta_spec(st, now) == PROGRESS_SCALE as int,
{
    let s = PROGRESS_SCALE as int;
    let d = tr.duration_ms as int;
    assert(tr.elapsed_ms(st, now) == d);
    lemma_div_multiples_vanish(s, d);
    assert(d * s == s * d);
    assert(tr.raw_delta_spec(st, now) == s);
    tr.easing.lemma_ease_range(s);
}

/// After a reset, evaluation at any time returns the initial goal and the
/// transition reports itself settled (no further animation).
pub proof fn lemma_reset_settles<T: Lerp>(tr: Transition<T>, st: TransitionState<T>, now: u64)
    requires
        tr.duration_ms > 0,
    ensures
        tr.eased_delta_spec(st.reset_spec(), now) == PROGRESS_SCALE as int,
        Transition::<T>::value_at(st.reset_spec(), PROGRESS_SCALE as int) == st.initial_goal,
{
    lemma_unstarted_is_settled(tr, st.reset_spec(), now);
    T::lerp_laws(st.initial_goal, st.initial_goal, PROGRESS_SCALE as int);
}

} // verus!
