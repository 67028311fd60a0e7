use gridrules::automaton::Automaton;
use gridrules::cursor_pos::CursorPos;
use gridrules::field::Field;
use gridrules::game_state::GameState;
use gridrules::level::Level;
use gridrules::playing_ui::PlayingUI;
use gridrules::rule::Rule;

fn rule(pattern: [u8; 9], replace: u8) -> Rule {
    Rule { pattern: pattern.to_vec(), replace, mutable: true }
}

/// The walker level: an `x` starts at the left of the middle row and must
/// cross to the right edge leaving a dotted trail.
fn walker_level() -> Level {
    let mut start = Field::new(5, 5);
    start.set(0, 2, b'x');
    let mut goal = Field::new(5, 5);
    goal.set(0, 2, b'.');
    goal.set(1, 2, b'.');
    goal.set(2, 2, b'.');
    goal.set(3, 2, b'.');
    goal.set(4, 2, b'x');
    let mut lvl = Level::new(start, goal);
    // First rule: the cell holding the x becomes the trail dot.
    let mut pat1 = [b'_'; 9];
    pat1[4] = b'x';
    lvl.auto.add_rule(&pat1, b'.', true);
    // Second rule: a cell with the x to its west receives the x.
    let mut pat2 = [b'_'; 9];
    pat2[3] = b'x';
    lvl.auto.add_rule(&pat2, b'x', true);
    lvl
}

#[test]
fn walker_reaches_goal_in_exactly_four_steps() {
    let mut ui = PlayingUI::new(walker_level());
    for expected_steps in 1..=4usize {
        let solved = ui.update();
        assert!(!solved);
        assert_eq!(ui.cur_step, expected_steps);
    }
    assert!(ui.field == ui.lvl.goal);
    // The next tick reports solved without stepping further.
    let solved = ui.update();
    assert!(solved);
    assert_eq!(ui.cur_step, 4);
    assert!(ui.field == ui.lvl.goal);
}

#[test]
fn walker_advances_one_cell_per_generation() {
    let mut ui = PlayingUI::new(walker_level());
    for step in 1..=4usize {
        ui.update();
        for x in 0..5usize {
            let want = if x == step {
                b'x'
            } else if x < step {
                b'.'
            } else {
                b' '
            };
            assert_eq!(ui.field.get(x as isize, 2), want);
        }
    }
}

#[test]
fn tick_reports_success_only_at_the_goal() {
    let mut state = GameState::Play(PlayingUI::new(walker_level()));
    for _ in 0..4 {
        assert!(state.tick().is_none());
    }
    match state.tick() {
        Some(GameState::Success) => {},
        _ => panic!("expected the success state after four generations"),
    }
}

#[test]
fn tick_ignores_other_states() {
    let mut q = GameState::Quit;
    assert!(q.tick().is_none());
    let mut m = GameState::Menu;
    assert!(m.tick().is_none());
    let mut s = GameState::Success;
    assert!(s.tick().is_none());
}

#[test]
fn new_session_starts_at_the_start_grid() {
    let lvl = walker_level();
    let ui = PlayingUI::new(lvl);
    assert!(ui.field == ui.lvl.start);
    assert_eq!(ui.cur_step, 0);
    assert!(!ui.animate);
    match ui.cursor {
        CursorPos::Pattern { i: 0, x: 0, y: 0 } => {},
        _ => panic!("cursor must start on the first pattern cell"),
    }
}

#[test]
fn reset_field_rewinds_the_simulation() {
    let mut ui = PlayingUI::new(walker_level());
    ui.update();
    ui.update();
    assert_eq!(ui.cur_step, 2);
    ui.reset_field();
    assert_eq!(ui.cur_step, 0);
    assert!(ui.field == ui.lvl.start);
}

#[test]
fn set_char_edits_the_pattern_and_resets() {
    let mut ui = PlayingUI::new(walker_level());
    ui.update();
    ui.cursor = CursorPos::Pattern { i: 1, x: 0, y: 1 };
    ui.set_char(&'y');
    // Pattern index 3 of rule 1 (= column 0 of row 1) now holds 'y'.
    assert_eq!(ui.lvl.auto.rules[1].pattern[3], b'y');
    assert_eq!(ui.cur_step, 0);
    assert!(ui.field == ui.lvl.start);
}

#[test]
fn set_char_edits_the_replacement() {
    let mut ui = PlayingUI::new(walker_level());
    ui.cursor = CursorPos::Replace { i: 0 };
    ui.set_char(&'o');
    assert_eq!(ui.lvl.auto.rules[0].replace, b'o');
    assert_eq!(ui.lvl.auto.rules[1].replace, b'x');
}

#[test]
fn toggle_flips_animation_only_on_the_state_row() {
    let mut ui = PlayingUI::new(walker_level());
    ui.cursor = CursorPos::State { last_i: 0 };
    assert!(!ui.animate);
    ui.toggle();
    assert!(ui.animate);
    ui.toggle();
    assert!(!ui.animate);
}

#[test]
fn toggle_blanks_the_cell_under_the_cursor() {
    let mut ui = PlayingUI::new(walker_level());
    ui.cursor = CursorPos::Pattern { i: 0, x: 1, y: 1 };
    ui.toggle();
    // Pattern index 4 of rule 0 held 'x'; the space key blanked it.
    assert_eq!(ui.lvl.auto.rules[0].pattern[4], b' ');
    assert!(!ui.animate);
}

#[test]
fn cursor_walks_the_editor() {
    let lvl = walker_level();
    let c = CursorPos::Pattern { i: 0, x: 0, y: 0 };
    // Left from column 0 wraps onto the previous rule's last column.
    match c.left(&lvl) {
        CursorPos::Pattern { i: 1, x: 2, y: 0 } => {},
        _ => panic!("left should wrap to the last rule"),
    }
    match c.right(&lvl) {
        CursorPos::Pattern { i: 0, x: 1, y: 0 } => {},
        _ => panic!("right should move one column"),
    }
    let end = CursorPos::Pattern { i: 1, x: 2, y: 0 };
    match end.right(&lvl) {
        CursorPos::Pattern { i: 0, x: 0, y: 0 } => {},
        _ => panic!("right from the last column should wrap to the next rule"),
    }
    // Down walks pattern rows, then the replacement row, then the state row.
    let mut c2 = CursorPos::Pattern { i: 0, x: 1, y: 1 };
    c2 = c2.down(&lvl);
    match c2 {
        CursorPos::Pattern { i: 0, x: 1, y: 2 } => {},
        _ => panic!("down should move one row"),
    }
    c2 = c2.down(&lvl);
    assert!(!c2.in_state());
    match c2 {
        CursorPos::Replace { i: 0 } => {},
        _ => panic!("down from the last row should reach the replacement"),
    }
    c2 = c2.down(&lvl);
    assert!(c2.in_state());
    // Up from the state row returns to the replacement row it left.
    match c2.up(&lvl) {
        CursorPos::Replace { i: 0 } => {},
        _ => panic!("up from the state row should reach the replacement"),
    }
    let top = CursorPos::Pattern { i: 0, x: 1, y: 0 };
    match top.up(&lvl) {
        CursorPos::Pattern { i: 0, x: 1, y: 0 } => {},
        _ => panic!("up should stop at the top row"),
    }
}

#[test]
fn rebuilt_level_steps_identically() {
    // A level rebuilt from the plain values a store would keep (grid sizes
    // and bytes, rule patterns and replacements) steps exactly like it.
    let lvl_a = walker_level();
    let mut start_b = Field::new(lvl_a.start.w, lvl_a.start.h);
    for x in 0..lvl_a.start.w {
        for y in 0..lvl_a.start.h {
            start_b.set(x, y, lvl_a.start.get(x as isize, y as isize));
        }
    }
    let mut goal_b = Field::new(lvl_a.goal.w, lvl_a.goal.h);
    for x in 0..lvl_a.goal.w {
        for y in 0..lvl_a.goal.h {
            goal_b.set(x, y, lvl_a.goal.get(x as isize, y as isize));
        }
    }
    let rules_b: Vec<Rule> = lvl_a
        .auto
        .rules
        .iter()
        .map(|r| Rule { pattern: r.pattern.clone(), replace: r.replace, mutable: r.mutable })
        .collect();
    let mut lvl_b = Level::new(start_b, goal_b);
    lvl_b.auto = Automaton::new(rules_b);

    let mut fa = lvl_a.start;
    let mut fb = lvl_b.start;
    for _ in 0..6 {
        fa = lvl_a.auto.step(&fa);
        fb = lvl_b.auto.step(&fb);
        assert!(fa == fb);
    }
}

#[test]
fn set_char_takes_the_first_utf8_byte() {
    // A symbol beyond ASCII lands in the rule as the first byte of its
    // UTF-8 encoding.
    let mut ui = PlayingUI::new(walker_level());
    ui.cursor = CursorPos::Replace { i: 1 };
    let c = char::from_u32(0xE9).unwrap();
    ui.set_char(&c);
    assert_eq!(ui.lvl.auto.rules[1].replace, 0xC3);
}
