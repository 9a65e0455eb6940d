//! Snapshot-based undo: an ordered stack of full `GameState` copies.

use vstd::prelude::*;
use crate::game::GameState;

verus! {

/// The undo stack: snapshots of the whole state, oldest first. There is no
/// redo and no bound on depth beyond memory.
pub struct HistoryStack {
    snapshots: Vec<GameState>,
}

impl View for HistoryStack {
    type V = Seq<GameState>;

    closed spec fn view(&self) -> Seq<GameState> {
        self.snapshots@
    }
}

impl HistoryStack {
    /// An empty stack.
    pub fn new() -> (h: HistoryStack)
        ensures
            h@ == Seq::<GameState>::empty(),
    {
        HistoryStack { snapshots: Vec::new() }
    }

    /// Append a full copy of the state.
    pub fn push(&mut self, snapshot: GameState)
        ensures
            final(self)@ == old(self)@.push(snapshot),
    {
        self.snapshots.push(snapshot);
    }

    /// Remove and hand back the most recent snapshot, for the caller to
    /// install; `None`, and no change, when there is nothing to undo.
    pub fn pop_restore(&mut self) -> (r: Option<GameState>)
        ensures
            old(self)@.len() == 0 ==> r is None && final(self)@ == old(self)@,
            old(self)@.len() > 0 ==> r == Some(old(self)@.last()) && final(self)@ == old(
                self,
            )@.drop_last(),
    {
        self.snapshots.pop()
    }

    /// How many snapshots remain.
    pub fn len(&self) -> (n: usize)
        ensures
            n == self@.len(),
    {
        self.snapshots.len()
    }
}

/// Undo one step: install the most recent snapshot and report `true`, or
/// report `false` and change nothing when the stack is empty.
pub fn undo(state: &mut GameState, history: &mut HistoryStack) -> (r: bool)
    ensures
        old(history)@.len() == 0 ==> !r && *final(state) == *old(state) && final(history)@ == old(
            history,
        )@,
        old(history)@.len() > 0 ==> r && *final(state) == old(history)@.last() && final(history)@
            == old(history)@.drop_last(),
{
    match history.pop_restore() {
        Some(snapshot) => {
            *state = snapshot;
            true
        },
        None => false,
    }
}

/// The state reached by undoing every snapshot in turn: each step installs
/// the most recent snapshot and drops it, exactly as `undo` specifies.
pub open spec fn undo_all(h: Seq<GameState>, s: GameState) -> GameState
    decreases h.len(),
{
    if h.len() == 0 {
        s
    } else {
        undo_all(h.drop_last(), h.last())
    }
}

/// Undoing as many times as there are snapshots lands on the oldest one —
/// the pre-session state, when every mutation pushed the state it found.
/// The current state on entry does not matter.
pub proof fn lemma_undo_all_restores_first(h: Seq<GameState>, s: GameState)
    requires
        h.len() > 0,
    ensures
        undo_all(h, s) == h[0],
    decreases h.len(),
{
    if h.len() == 1 {
        assert(h.drop_last().len() == 0);
    } else {
        lemma_undo_all_restores_first(h.drop_last(), h.last());
        assert(h.drop_last()[0] == h[0]);
    }
}

} // verus!
