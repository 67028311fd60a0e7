pub mod automaton;
pub mod cursor_pos;
pub mod field;
pub mod game_state;
pub mod level;
pub mod playing_ui;
pub mod rule;
