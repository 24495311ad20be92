//! The persisted record of a transition's lifecycle.

use crate::lerp::{Lerp, PROGRESS_SCALE};
use vstd::prelude::*;

verus! {

/// State for a transition: the interpolation segment currently in flight and
/// the progress last computed for it.
///
/// The record is owned by the host's per-entity state store (a
/// [`crate::StateStore`]) and is mutated only through
/// [`crate::Transition::update`], [`crate::Transition::reset`] and the
/// progress bookkeeping of [`crate::Transition::evaluate`].
#[derive(Clone, Copy, PartialEq, Eq, Debug)]
pub struct TransitionState<T> {
    /// When the current `start_goal` → `end_goal` segment began, in
    /// milliseconds; `None` means "not yet started", which is treated as if
    /// the segment had begun exactly one duration ago (already complete).
    pub goal_last_updated_at: Option<u64>,
    /// The value supplied at construction; restored by a reset.
    pub initial_goal: T,
    /// The interpolation origin of the segment in flight.
    pub start_goal: T,
    /// The target of the segment in flight.
    pub end_goal: T,
    /// The most recently computed eased progress, retained to support
    /// rebasing on continuous goal updates.
    pub last_delta: u32,
}

impl<T: Lerp> TransitionState<T> {
    /// Well-formedness: the retained progress is a valid fixed-point
    /// fraction.
    pub open spec fn wf(self) -> bool {
        self.last_delta <= PROGRESS_SCALE
    }

    /// The state a fresh transition starts in: every goal field holds the
    /// initial value and the segment counts as already settled.
    pub open spec fn new_spec(initial_goal: T) -> Self {
        TransitionState {
            goal_last_updated_at: None,
            initial_goal: initial_goal,
            start_goal: initial_goal,
            end_goal: initial_goal,
            last_delta: PROGRESS_SCALE,
        }
    }

    /// The state a reset returns to: every goal field holds the initial
    /// value again and no segment is in flight.
    pub open spec fn reset_spec(self) -> Self {
        TransitionState {
            goal_last_updated_at: None,
            initial_goal: self.initial_goal,
            start_goal: self.initial_goal,
            end_goal: self.initial_goal,
            last_delta: 0,
        }
    }

    /// Create the state for a fresh transition settled at `initial_goal`.
    pub fn new(initial_goal: T) -> (s: Self)
        ensures
            s == Self::new_spec(initial_goal),
            s.wf(),
    {
        TransitionState {
            goal_last_updated_at: None,
            initial_goal: initial_goal,
            start_goal: initial_goal,
            end_goal: initial_goal,
            last_delta: PROGRESS_SCALE,
        }
    }
}

/// Resetting twice in a row leaves exactly the state of resetting once.
pub proof fn lemma_reset_idempotent<T: Lerp>(st: TransitionState<T>)
    ensures
        st.reset_spec().reset_spec() == st.reset_spec(),
{
}

} // verus!
