//! An arena of transition states.
//!
//! The host keeps one [`StateStore`] per owning UI entity; a
//! [`crate::Transition`] handle names its state by the stable index returned
//! from [`StateStore::allocate`]. All mutation goes through the store's
//! accessors, which keeps a single writer per record.

use crate::lerp::Lerp;
use crate::state::TransitionState;
use vstd::prelude::*;

verus! {

/// Storage for [`TransitionState`] records, indexed by a stable handle.
pub struct StateStore<T> {
    states: Vec<TransitionState<T>>,
}

impl<T: Lerp> View for StateStore<T> {
    type V = Seq<TransitionState<T>>;

    closed spec fn view(&self) -> Seq<TransitionState<T>> {
        self.states@
    }
}

impl<T: Lerp> StateStore<T> {
    /// Well-formedness: every stored state is well formed.
    pub open spec fn wf(self) -> bool {
        forall|i: int| 0 <= i < self@.len() ==> (#[trigger] self@[i]).wf()
    }

    /// Create an empty store.
    pub fn new() -> (s: Self)
        ensures
            s@ == Seq::<TransitionState<T>>::empty(),
            s.wf(),
    {
        StateStore { states: Vec::new() }
    }

    /// Allocate a fresh state settled at `initial_goal` and return its
    /// handle.
    pub fn allocate(&mut self, initial_goal: T) -> (id: usize)
        requires
            old(self).wf(),
        ensures
            final(self)@ == old(self)@.push(TransitionState::new_spec(initial_goal)),
            id == old(self)@.len(),
            final(self).wf(),
    {
        let id = self.states.len();
        self.states.push(TransitionState::new(initial_goal));
        proof {
            assert forall|i: int| 0 <= i < self@.len() implies (#[trigger] self@[i]).wf() by {
                if i < old(self)@.len() {
                    assert(self@[i] == old(self)@[i]);
                }
            }
        }
        id
    }

    /// Borrow the state a handle names.
    pub fn state(&self, id: usize) -> (r: &TransitionState<T>)
        requires
            id < self@.len(),
        ensures
            *r == self@[id as int],
    {
        &self.states[id]
    }

    /// Overwrite the state a handle names.
    pub(crate) fn set_state(&mut self, id: usize, st: TransitionState<T>)
        requires
            id < old(self)@.len(),
        ensures
            final(self)@ == old(self)@.update(id as int, st),
    {
        self.states[id] = st;
    }

    /// Number of states the store holds.
    pub fn len(&self) -> (n: usize)
        ensures
            n == self@.len(),
    {
        self.states.len()
    }
}

} // verus!
