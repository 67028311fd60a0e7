use vstd::prelude::*;
use crate::field::same_grid;
use crate::playing_ui::{PlayingUI, advanced};

verus! {

/// The top-level mode of the game: quitting, in the menu, playing one
/// level, or past a solved level.
pub enum GameState {
    Quit,
    Menu,
    Play(PlayingUI),
    Success,
}

impl GameState {
    /// One animation tick. Only the playing state moves: its session is
    /// advanced one generation, and `Success` is handed back as the next
    /// state once the session's grid has reached the goal. Every other
    /// state ignores the tick.
    pub fn tick(&mut self) -> (r: Option<GameState>)
        requires
            *old(self) matches GameState::Play(ui) ==> ui.wf() && ui.cur_step < usize::MAX,
        ensures
            !(*old(self) is Play) ==> *final(self) == *old(self) && r is None,
            *old(self) matches GameState::Play(ui) ==> {
                let solved = same_grid(ui.field, ui.lvl.goal);
                &&& (solved ==> *final(self) == *old(self) && r matches Some(
                    GameState::Success,
                ))
                &&& (!solved ==> r is None && (*final(self) matches GameState::Play(u2)
                    && advanced(ui, u2)))
            },
    {
        match self {
            GameState::Quit => None,
            GameState::Menu => None,
            GameState::Play(ui) => {
                if ui.update() {
                    Some(GameState::Success)
                } else {
                    None
                }
            },
            GameState::Success => None,
        }
    }
}

} // verus!
