use vstd::prelude::*;
use crate::automaton::cell_spec;
use crate::cursor_pos::CursorPos;
use crate::field::{BLANK, Field, same_grid};
use crate::level::Level;

verus! {

/// The interactive session for one level: the cursor over the rule editor,
/// the animation flag, the number of generations run so far, and the grid
/// the simulation has reached.
pub struct PlayingUI {
    pub lvl: Level,
    pub cursor: CursorPos,
    pub animate: bool,
    pub cur_step: usize,
    pub field: Field,
}

/// The first byte of a character's UTF-8 encoding; for the ASCII characters
/// the editor deals in, that is the character itself.
pub open spec fn utf8_first_byte(c: char) -> u8 {
    let u = c as u32;
    if u < 0x80 {
        u as u8
    } else if u < 0x800 {
        (0xc0u32 | (u >> 6)) as u8
    } else if u < 0x10000 {
        (0xe0u32 | (u >> 12)) as u8
    } else {
        (0xf0u32 | (u >> 18)) as u8
    }
}

fn encode_first_byte(c: char) -> (r: u8)
    ensures
        r == utf8_first_byte(c),
{
    let u = c as u32;
    if u < 0x80 {
        u as u8
    } else if u < 0x800 {
        (0xc0u32 | (u >> 6)) as u8
    } else if u < 0x10000 {
        (0xe0u32 | (u >> 12)) as u8
    } else {
        (0xf0u32 | (u >> 18)) as u8
    }
}

/// `post` is `pre` with the symbol `b` written where the cursor stands —
/// into the cursor's pattern cell or replacement symbol, into nothing when
/// the cursor is on the state row — and with the simulation thrown back to
/// the start grid with a step count of zero. Everything else survives: the
/// cursor, the animation flag, the grids, the id, every other rule, and
/// the untouched parts of the edited rule. This is the whole effect of one
/// `set_char` edit.
pub open spec fn edited(pre: PlayingUI, post: PlayingUI, b: u8) -> bool {
    &&& post.cursor == pre.cursor
    &&& post.animate == pre.animate
    &&& post.lvl.start == pre.lvl.start
    &&& post.lvl.goal == pre.lvl.goal
    &&& post.lvl.id == pre.lvl.id
    &&& post.cur_step == 0
    &&& same_grid(post.field, pre.lvl.start)
    &&& post.lvl.auto.rules@.len() == pre.lvl.auto.rules@.len()
    &&& match pre.cursor {
        CursorPos::Pattern { i, x, y } => {
            &&& forall|k: int|
                0 <= k < pre.lvl.auto.rules@.len() && k != i
                    ==> post.lvl.auto.rules@[k] == pre.lvl.auto.rules@[k]
            &&& post.lvl.auto.rules@[i as int].pattern@ == pre.lvl.auto.rules@[i as int].pattern@.update(
                x + y * 3,
                b,
            )
            &&& post.lvl.auto.rules@[i as int].replace == pre.lvl.auto.rules@[i as int].replace
            &&& post.lvl.auto.rules@[i as int].mutable == pre.lvl.auto.rules@[i as int].mutable
        },
        CursorPos::Replace { i } => {
            &&& forall|k: int|
                0 <= k < pre.lvl.auto.rules@.len() && k != i
                    ==> post.lvl.auto.rules@[k] == pre.lvl.auto.rules@[k]
            &&& post.lvl.auto.rules@[i as int].pattern@ == pre.lvl.auto.rules@[i as int].pattern@
            &&& post.lvl.auto.rules@[i as int].replace == b
            &&& post.lvl.auto.rules@[i as int].mutable == pre.lvl.auto.rules@[i as int].mutable
        },
        CursorPos::State { .. } => post.lvl.auto == pre.lvl.auto,
    }
}

/// `post` is `pre` one generation later: the level, cursor and animation
/// flag are untouched, the step count went up by one, and every cell of the
/// grid was decided from `pre`'s grid by `pre`'s rules.
pub open spec fn advanced(pre: PlayingUI, post: PlayingUI) -> bool {
    &&& post.lvl == pre.lvl
    &&& post.cursor == pre.cursor
    &&& post.animate == pre.animate
    &&& post.cur_step == pre.cur_step + 1
    &&& post.field.wf()
    &&& post.field.w == pre.field.w
    &&& post.field.h == pre.field.h
    &&& forall|x: int, y: int|
        0 <= x < pre.field.w && 0 <= y < pre.field.h ==> #[trigger] post.field.sym(x, y)
            == cell_spec(pre.lvl.auto, pre.field, x, y)
}

impl PlayingUI {
    /// Structural invariant: the level and the simulation grid are well
    /// formed.
    pub open spec fn wf(self) -> bool {
        &&& self.lvl.wf()
        &&& self.field.wf()
    }

    /// The cursor may be used for editing: wherever it points into a rule,
    /// that rule and pattern cell exist.
    pub open spec fn cursor_edit_ok(self) -> bool {
        match self.cursor {
            CursorPos::Pattern { i, x, y } => {
                &&& 0 <= i < self.lvl.auto.rules@.len()
                &&& 0 <= x < 3
                &&& 0 <= y < 3
            },
            CursorPos::Replace { i } => 0 <= i < self.lvl.auto.rules@.len(),
            CursorPos::State { .. } => true,
        }
    }

    /// A fresh session on a level: cursor on the first pattern cell,
    /// animation off, no steps run, the grid a copy of the start grid.
    pub fn new(lvl: Level) -> (r: PlayingUI)
        requires
            lvl.wf(),
        ensures
            r.wf(),
            r.lvl == lvl,
            r.cursor == (CursorPos::Pattern { i: 0isize, x: 0isize, y: 0isize }),
            !r.animate,
            r.cur_step == 0,
            same_grid(r.field, lvl.start),
    {
        let field = lvl.start.duplicate();
        PlayingUI { cursor: CursorPos::Pattern { i: 0, x: 0, y: 0 }, animate: false, cur_step: 0, lvl, field }
    }

    /// Throw the simulation back to the start grid with a step count of
    /// zero; nothing else changes.
    pub fn reset_field(&mut self)
        requires
            old(self).wf(),
        ensures
            final(self).wf(),
            final(self).lvl == old(self).lvl,
            final(self).cursor == old(self).cursor,
            final(self).animate == old(self).animate,
            final(self).cur_step == 0,
            same_grid(final(self).field, old(self).lvl.start),
    {
        self.field = self.lvl.start.duplicate();
        self.cur_step = 0;
    }

    /// Write one symbol where the cursor stands: into the pattern cell or
    /// the replacement symbol of the cursor's rule (nowhere when the cursor
    /// is on the state row). Any edit resets the simulation to the start
    /// grid, so a stale run is never shown against changed rules.
    pub fn set_char(&mut self, chr: &char)
        requires
            old(self).wf(),
            old(self).cursor_edit_ok(),
        ensures
            final(self).wf(),
            edited(*old(self), *final(self), utf8_first_byte(*chr)),
    {
        let b = encode_first_byte(*chr);
        match self.cursor {
            CursorPos::Pattern { i, x, y } => {
                let ri = i as usize;
                let pi = (x + y * 3) as usize;
                let rule = vstd::std_specs::vec::vec_index_mut(&mut self.lvl.auto.rules, ri);
                rule.pattern.set(pi, b);
            },
            CursorPos::Replace { i } => {
                let ri = i as usize;
                let rule = vstd::std_specs::vec::vec_index_mut(&mut self.lvl.auto.rules, ri);
                rule.replace = b;
            },
            _ => {},
        }
        self.reset_field();
    }

    /// The space key: on the state row it toggles the animation and touches
    /// nothing else; anywhere else it writes the blank symbol where the
    /// cursor stands, exactly as `set_char` with a space would.
    pub fn toggle(&mut self)
        requires
            old(self).wf(),
            old(self).cursor_edit_ok(),
        ensures
            final(self).wf(),
            old(self).cursor is State ==> *final(self) == (PlayingUI {
                animate: !old(self).animate,
                ..*old(self)
            }),
            !(old(self).cursor is State) ==> edited(*old(self), *final(self), BLANK),
    {
        if self.cursor.in_state() {
            self.animate = !self.animate;
        } else {
            self.set_char(&' ');
            proof {
                assert(utf8_first_byte(' ') == BLANK);
            }
        }
    }

    /// One tick of the simulation. When the grid has reached the goal the
    /// session is solved and nothing moves (in particular no further step
    /// is taken); otherwise the automaton steps the grid once and the step
    /// count grows by one.
    pub fn update(&mut self) -> (solved: bool)
        requires
            old(self).wf(),
            old(self).cur_step < usize::MAX,
        ensures
            final(self).wf(),
            solved == same_grid(old(self).field, old(self).lvl.goal),
            solved ==> *final(self) == *old(self),
            !solved ==> advanced(*old(self), *final(self)),
    {
        if self.field != self.lvl.goal {
            self.field = self.lvl.auto.step(&self.field);
            self.cur_step = self.cur_step + 1;
            false
        } else {
            true
        }
    }
}

} // verus!
