use vstd::prelude::*;
use crate::level::Level;

verus! {

/// Where the editing cursor stands: on one cell of a rule's pattern, on a
/// rule's replacement symbol, or on the simulation-state row.
pub enum CursorPos {
    Pattern { i: isize, x: isize, y: isize },
    Replace { i: isize },
    State { last_i: isize },
}

impl CursorPos {
    /// The cursor points into the given number of rules: rule indices are in
    /// range and a pattern position stays inside the 3x3 window.
    pub open spec fn ok_for(self, len: int) -> bool {
        match self {
            CursorPos::Pattern { i, x, y } => 0 <= i < len && 0 <= x < 3 && 0 <= y < 3,
            CursorPos::Replace { i } => 0 <= i < len,
            CursorPos::State { last_i } => 0 <= last_i < len,
        }
    }

    /// Where `up` moves the cursor: one pattern row higher (stopping at the
    /// top), from the replacement row to the pattern's bottom center, and
    /// from the state row back to the replacement row.
    pub open spec fn up_spec(self) -> CursorPos {
        match self {
            CursorPos::Pattern { i, x, y } => CursorPos::Pattern {
                i,
                x,
                y: if y > 0 {
                    (y - 1) as isize
                } else {
                    0
                },
            },
            CursorPos::Replace { i } => CursorPos::Pattern { i, x: 1, y: 2 },
            CursorPos::State { last_i } => CursorPos::Replace { i: last_i },
        }
    }

    /// Where `down` moves the cursor: one pattern row lower, then onto the
    /// replacement row, then onto the state row, where it stays.
    pub open spec fn down_spec(self) -> CursorPos {
        match self {
            CursorPos::Pattern { i, x, y } => if y < 2 {
                CursorPos::Pattern { i, x, y: (y + 1) as isize }
            } else {
                CursorPos::Replace { i }
            },
            CursorPos::Replace { i } => CursorPos::State { last_i: i },
            CursorPos::State { last_i } => CursorPos::State { last_i },
        }
    }

    /// Where `left` moves the cursor: one pattern column to the left,
    /// wrapping onto the previous rule cyclically; on the replacement row,
    /// to the previous rule cyclically; the state row does not move.
    pub open spec fn left_spec(self, len: int) -> CursorPos {
        match self {
            CursorPos::Pattern { i, x, y } => if x == 0 {
                CursorPos::Pattern {
                    i: if i == 0 {
                        (len - 1) as isize
                    } else {
                        (i - 1) as isize
                    },
                    x: 2,
                    y,
                }
            } else {
                CursorPos::Pattern { i, x: (x - 1) as isize, y }
            },
            CursorPos::Replace { i } => CursorPos::Replace {
                i: if i == 0 {
                    (len - 1) as isize
                } else {
                    (i - 1) as isize
                },
            },
            CursorPos::State { last_i } => CursorPos::State { last_i },
        }
    }

    /// Where `right` moves the cursor: one pattern column to the right,
    /// wrapping onto the next rule cyclically; on the replacement row, to
    /// the next rule cyclically; the state row does not move.
    pub open spec fn right_spec(self, len: int) -> CursorPos {
        match self {
            CursorPos::Pattern { i, x, y } => if x == 2 {
                CursorPos::Pattern {
                    i: if i + 1 == len {
                        0
                    } else {
                        (i + 1) as isize
                    },
                    x: 0,
                    y,
                }
            } else {
                CursorPos::Pattern { i, x: (x + 1) as isize, y }
            },
            CursorPos::Replace { i } => CursorPos::Replace {
                i: if i + 1 == len {
                    0
                } else {
                    (i + 1) as isize
                },
            },
            CursorPos::State { last_i } => CursorPos::State { last_i },
        }
    }

    /// The cursor stands on the simulation-state row.
    pub fn in_state(&self) -> (r: bool)
        ensures
            r == (self is State),
    {
        match self {
            CursorPos::State { .. } => true,
            _ => false,
        }
    }

    pub fn up(&self, lvl: &Level) -> (r: CursorPos)
        ensures
            r == self.up_spec(),
            self.ok_for(lvl.auto.rules@.len() as int) ==> r.ok_for(
                lvl.auto.rules@.len() as int,
            ),
    {
        match *self {
            CursorPos::Pattern { i, x, y } => CursorPos::Pattern {
                i,
                x,
                y: if y > 0 {
                    y - 1
                } else {
                    0
                },
            },
            CursorPos::Replace { i } => CursorPos::Pattern { i, x: 1, y: 2 },
            CursorPos::State { last_i } => CursorPos::Replace { i: last_i },
        }
    }

    pub fn down(&self, lvl: &Level) -> (r: CursorPos)
        ensures
            r == self.down_spec(),
            self.ok_for(lvl.auto.rules@.len() as int) ==> r.ok_for(
                lvl.auto.rules@.len() as int,
            ),
    {
        match *self {
            CursorPos::Pattern { i, x, y } => if y < 2 {
                CursorPos::Pattern { i, x, y: y + 1 }
            } else {
                CursorPos::Replace { i }
            },
            CursorPos::Replace { i } => CursorPos::State { last_i: i },
            CursorPos::State { last_i } => CursorPos::State { last_i },
        }
    }

    pub fn left(&self, lvl: &Level) -> (r: CursorPos)
        requires
            self.ok_for(lvl.auto.rules@.len() as int),
            lvl.auto.rules@.len() <= isize::MAX,
        ensures
            r == self.left_spec(lvl.auto.rules@.len() as int),
            r.ok_for(lvl.auto.rules@.len() as int),
    {
        let len = lvl.auto.rules.len() as isize;
        match *self {
            CursorPos::Pattern { i, x, y } => if x == 0 {
                CursorPos::Pattern {
                    i: if i == 0 {
                        len - 1
                    } else {
                        i - 1
                    },
                    x: 2,
                    y,
                }
            } else {
                CursorPos::Pattern { i, x: x - 1, y }
            },
            CursorPos::Replace { i } => CursorPos::Replace {
                i: if i == 0 {
                    len - 1
                } else {
                    i - 1
                },
            },
            CursorPos::State { last_i } => CursorPos::State { last_i },
        }
    }

    pub fn right(&self, lvl: &Level) -> (r: CursorPos)
        requires
            self.ok_for(lvl.auto.rules@.len() as int),
            lvl.auto.rules@.len() <= isize::MAX,
        ensures
            r == self.right_spec(lvl.auto.rules@.len() as int),
            r.ok_for(lvl.auto.rules@.len() as int),
    {
        let len = lvl.auto.rules.len() as isize;
        match *self {
            CursorPos::Pattern { i, x, y } => if x == 2 {
                CursorPos::Pattern {
                    i: if i + 1 == len {
                        0
                    } else {
                        i + 1
                    },
                    x: 0,
                    y,
                }
            } else {
                CursorPos::Pattern { i, x: x + 1, y }
            },
            CursorPos::Replace { i } => CursorPos::Replace {
                i: if i + 1 == len {
                    0
                } else {
                    i + 1
                },
            },
            CursorPos::State { last_i } => CursorPos::State { last_i },
        }
    }
}

} // verus!
