//! The holder of the state that one target publishes for its readers.

use crate::model::{TargetState, TargetStateView};
use vstd::prelude::*;

verus! {

/// Holds the state that was published last.
///
/// A state is published as a whole and read as a whole: a reader never sees
/// fields of two publications side by side. Whoever shares a cell between a
/// writer and readers has to give the writer exclusive access for the time
/// of a `publish`, which replaces one value and does nothing else.
#[derive(Debug)]
pub struct StateCell {
    current: TargetState,
}

impl View for StateCell {
    type V = TargetStateView;

    /// The state that was published last.
    closed spec fn view(&self) -> TargetStateView {
        self.current@
    }
}

impl StateCell {
    /// What a cell that holds `before` holds once `state` is published.
    pub open spec fn after_publish(
        before: TargetStateView,
        state: TargetStateView,
    ) -> TargetStateView {
        state
    }

    /// What a reader gets from a cell that holds `held`.
    pub open spec fn read(held: TargetStateView) -> TargetStateView {
        held
    }

    /// A reader that follows a publication gets exactly what was published,
    /// and a second publication leaves nothing of the first.
    pub proof fn lemma_snapshot_returns_last_publication(
        held: TargetStateView,
        first: TargetStateView,
        second: TargetStateView,
    )
        ensures
            Self::read(Self::after_publish(held, first)) == first,
            Self::read(Self::after_publish(Self::after_publish(held, first), second)) == second,
    {
    }

    /// A cell that holds the state of a target that has not been opened.
    pub fn new() -> (r: StateCell)
        ensures
            r@ == TargetStateView::unready(),
    {
        StateCell { current: TargetState::unready() }
    }

    /// Replaces the published state by `state`.
    pub fn publish(&mut self, state: TargetState)
        ensures
            final(self)@ == Self::after_publish(old(self)@, state@),
        no_unwind
    {
        self.current = state;
    }

    /// The state that was published last, complete and consistent in itself.
    pub fn snapshot(&self) -> (r: TargetState)
        ensures
            r@ == Self::read(self@),
            r@.wf(),
    {
        let r = self.current.clone();
        proof {
            use_type_invariant(&r);
        }
        r
    }

    /// The state that was published last, for reading in place.
    pub fn current(&self) -> (r: &TargetState)
        ensures
            r@ == self@,
    {
        &self.current
    }
}

} // verus!
