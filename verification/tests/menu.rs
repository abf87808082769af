use battle_menu::selection::{rising_edge, Direction, GameState, MENU_ITEMS};

fn state_at(index: usize) -> GameState {
    let mut state = GameState::new();
    for _ in 0..index {
        state.advance(Direction::Down);
    }
    assert_eq!(state.selection(), index);
    state
}

#[test]
fn new_selects_first_entry() {
    assert_eq!(GameState::new().selection(), 0);
    assert_eq!(MENU_ITEMS, 4);
}

#[test]
fn down_once_then_three_more_completes_the_cycle() {
    let mut state = GameState::new();
    state.handle_input(false, true);
    assert_eq!(state.selection(), 1);
    state.handle_input(false, true);
    assert_eq!(state.selection(), 2);
    state.handle_input(false, true);
    assert_eq!(state.selection(), 3);
    state.handle_input(false, true);
    assert_eq!(state.selection(), 0);
}

#[test]
fn up_from_first_wraps_to_last() {
    let mut state = GameState::new();
    state.handle_input(true, false);
    assert_eq!(state.selection(), 3);
}

#[test]
fn advance_up_is_minus_one_modulo_four() {
    let expected = [3usize, 0, 1, 2];
    for start in 0..4usize {
        let mut state = state_at(start);
        state.advance(Direction::Up);
        assert_eq!(state.selection(), expected[start]);
        assert_eq!(state.selection(), (start + 4 - 1) % 4);
    }
}

#[test]
fn advance_down_is_plus_one_modulo_four() {
    let expected = [1usize, 2, 3, 0];
    for start in 0..4usize {
        let mut state = state_at(start);
        state.advance(Direction::Down);
        assert_eq!(state.selection(), expected[start]);
        assert_eq!(state.selection(), (start + 1) % 4);
    }
}

#[test]
fn selection_stays_in_range_over_many_moves() {
    let mut state = GameState::new();
    for step in 0..50usize {
        let dir = if step % 3 == 0 { Direction::Up } else { Direction::Down };
        state.advance(dir);
        assert!(state.selection() < MENU_ITEMS);
    }
}

#[test]
fn no_input_leaves_selection() {
    let mut state = state_at(2);
    state.handle_input(false, false);
    assert_eq!(state.selection(), 2);
}

#[test]
fn up_and_down_in_one_frame_cancel() {
    for start in 0..4usize {
        let mut state = state_at(start);
        state.handle_input(true, true);
        assert_eq!(state.selection(), start);
    }
}

#[test]
fn rising_edge_truth_table() {
    assert!(rising_edge(false, true));
    assert!(!rising_edge(true, true));
    assert!(!rising_edge(true, false));
    assert!(!rising_edge(false, false));
}

#[test]
fn held_direction_advances_exactly_once() {
    let mut state = GameState::new();
    let mut was_active = false;
    let mut advances = 0;
    for _frame in 0..10 {
        let is_active = true;
        let edge = rising_edge(was_active, is_active);
        if edge {
            advances += 1;
        }
        state.handle_input(false, edge);
        was_active = is_active;
    }
    assert_eq!(advances, 1);
    assert_eq!(state.selection(), 1);
}

#[test]
fn release_and_press_again_advances_again() {
    let frames = [true, true, false, true, true, false, false, true];
    let mut state = GameState::new();
    let mut was_active = false;
    for is_active in frames {
        state.handle_input(rising_edge(was_active, is_active), false);
        was_active = is_active;
    }
    assert_eq!(state.selection(), 1);
}

#[test]
fn update_moves_before_it_renders() {
    let mut state = GameState::new();
    let commands = state.update(false, true, false, 800, 600);
    assert_eq!(state.selection(), 1);
    assert_eq!(commands, battle_menu::render::render(800, 600, 1, false));
}

#[test]
fn confirm_does_not_change_selection() {
    let mut state = state_at(2);
    let commands = state.update(false, false, true, 800, 600);
    assert_eq!(state.selection(), 2);
    assert_eq!(commands, battle_menu::render::render(800, 600, 2, true));
}

#[test]
fn with_selection_accepts_the_four_entries_only() {
    for index in 0..4usize {
        let state = GameState::with_selection(index);
        assert!(state.is_some());
        assert_eq!(state.unwrap().selection(), index);
    }
    assert!(GameState::with_selection(4).is_none());
    assert!(GameState::with_selection(usize::MAX).is_none());
}

#[test]
fn follow_signal_moves_on_rising_edges_only() {
    let mut state = GameState::new();
    let held = vec![true; 12];
    assert_eq!(state.follow_signal(Direction::Down, false, &held), 1);
    assert_eq!(state.selection(), 1);

    assert_eq!(state.follow_signal(Direction::Down, true, &held), 0);
    assert_eq!(state.selection(), 1);

    let tapped = vec![false, true, false, true, true, false];
    assert_eq!(state.follow_signal(Direction::Up, true, &tapped), 2);
    assert_eq!(state.selection(), 3);

    assert_eq!(state.follow_signal(Direction::Up, false, &Vec::new()), 0);
    assert_eq!(state.selection(), 3);
}

#[test]
fn five_held_frames_are_one_move_not_five() {
    let mut state = GameState::new();
    let held = vec![true; 5];
    assert_eq!(state.follow_signal(Direction::Down, false, &held), 1);
    assert_eq!(state.selection(), 1);
}
