use vstd::prelude::*;
use crate::automaton::Automaton;
use crate::field::Field;

verus! {

/// One puzzle: a fixed start grid, a fixed goal grid, the player-editable
/// automaton, and an id for persistence.
pub struct Level {
    pub start: Field,
    pub goal: Field,
    pub auto: Automaton,
    pub id: usize,
}

impl Level {
    /// Structural invariant: both grids and every rule are well formed.
    pub open spec fn wf(self) -> bool {
        &&& self.start.wf()
        &&& self.goal.wf()
        &&& self.auto.wf()
    }

    /// A level over the given grids, with no rules yet.
    pub fn new(start: Field, goal: Field) -> (r: Level)
        requires
            start.wf(),
            goal.wf(),
        ensures
            r.wf(),
            r.start == start,
            r.goal == goal,
            r.auto.rules@.len() == 0,
            r.id == 0,
    {
        Level { start, goal, auto: Automaton::new(Vec::new()), id: 0 }
    }
}

} // verus!
