use fx::Config;
use fx::Mode;
use fx::PromptKind;
use fx::State;

fn fresh_state() -> State {
    let config = Config { default: None, apps: None };
    State::new(config, String::from("/tmp"))
}

fn buffer_of(state: &State) -> String {
    match &state.input {
        Some(chars) => chars.iter().collect(),
        None => String::new(),
    }
}

fn type_text(state: &mut State, text: &str) {
    for c in text.chars() {
        state.prompt_insert(c);
    }
}

#[test]
fn open_prompt_starts_fresh() {
    let mut state = fresh_state();
    state.open_prompt(PromptKind::Search);
    assert_eq!(state.mode, Mode::Prompt);
    assert_eq!(state.title, Some(PromptKind::Search));
    assert!(state.input.is_none());
    assert_eq!(state.cursor, 0);
    assert_eq!(state.history_index, 0);
}

#[test]
fn insert_types_at_cursor() {
    let mut state = fresh_state();
    state.open_prompt(PromptKind::Search);
    type_text(&mut state, "abc");
    assert_eq!(buffer_of(&state), "abc");
    assert_eq!(state.cursor, 3);
    state.prompt_left();
    state.prompt_left();
    state.prompt_insert('x');
    assert_eq!(buffer_of(&state), "axbc");
    assert_eq!(state.cursor, 2);
}

#[test]
fn insert_then_backspace_restores_state() {
    // Typing a character and backspacing restores buffer and cursor, from
    // any starting position.
    let mut state = fresh_state();
    state.open_prompt(PromptKind::Search);
    type_text(&mut state, "hello");
    state.prompt_left();
    state.prompt_left();
    let buffer_before = buffer_of(&state);
    let cursor_before = state.cursor;
    state.prompt_insert('a');
    state.prompt_delete_before();
    assert_eq!(buffer_of(&state), buffer_before);
    assert_eq!(state.cursor, cursor_before);
}

#[test]
fn insert_then_backspace_restores_fresh_buffer() {
    let mut state = fresh_state();
    state.open_prompt(PromptKind::Search);
    state.prompt_insert('a');
    state.prompt_delete_before();
    assert_eq!(buffer_of(&state), "");
    assert_eq!(state.cursor, 0);
}

#[test]
fn backspace_at_start_does_nothing() {
    let mut state = fresh_state();
    state.open_prompt(PromptKind::Search);
    type_text(&mut state, "ab");
    state.prompt_left();
    state.prompt_left();
    state.prompt_delete_before();
    assert_eq!(buffer_of(&state), "ab");
    assert_eq!(state.cursor, 0);
}

#[test]
fn delete_at_removes_under_cursor() {
    let mut state = fresh_state();
    state.open_prompt(PromptKind::Search);
    type_text(&mut state, "abc");
    state.prompt_left();
    state.prompt_left();
    state.prompt_delete_at();
    assert_eq!(buffer_of(&state), "ac");
    assert_eq!(state.cursor, 1);
    state.prompt_delete_at();
    assert_eq!(buffer_of(&state), "a");
    state.prompt_delete_at();
    assert_eq!(buffer_of(&state), "a");
}

#[test]
fn cursor_moves_clamp_to_buffer() {
    let mut state = fresh_state();
    state.open_prompt(PromptKind::Search);
    type_text(&mut state, "ab");
    state.prompt_right();
    assert_eq!(state.cursor, 2);
    state.prompt_left();
    state.prompt_left();
    state.prompt_left();
    assert_eq!(state.cursor, 0);
}

#[test]
fn commit_appends_to_history_of_kind() {
    let mut state = fresh_state();
    state.open_prompt(PromptKind::Search);
    type_text(&mut state, "abc");
    state.prompt_commit();
    assert_eq!(state.mode, Mode::Normal);
    assert_eq!(state.history.search, vec![vec!['a', 'b', 'c']]);
    assert!(state.history.goto.is_empty());
    assert!(state.history.execute.is_empty());
}

#[test]
fn commit_of_empty_buffer_leaves_history_alone() {
    let mut state = fresh_state();
    state.open_prompt(PromptKind::Search);
    state.prompt_commit();
    assert!(state.history.search.is_empty());
}

#[test]
fn cancel_discards_buffer_and_keeps_history() {
    let mut state = fresh_state();
    state.open_prompt(PromptKind::Goto);
    type_text(&mut state, "abc");
    state.prompt_cancel();
    assert_eq!(state.mode, Mode::Normal);
    assert!(state.input.is_none());
    assert!(state.title.is_none());
    assert!(state.history.goto.is_empty());
}

#[test]
fn history_walk_most_recent_first() {
    // Committing "a" then "b" for the search prompt: walking back yields
    // "b" then "a"; one step forward restores "b"; a final step forward
    // from the most recent entry yields a fresh empty buffer.
    let mut state = fresh_state();
    state.open_prompt(PromptKind::Search);
    state.prompt_insert('a');
    state.prompt_commit();
    state.open_prompt(PromptKind::Search);
    state.prompt_insert('b');
    state.prompt_commit();
    state.open_prompt(PromptKind::Search);

    state.history_prev();
    assert_eq!(buffer_of(&state), "b");
    assert_eq!(state.history_index, 1);
    state.history_prev();
    assert_eq!(buffer_of(&state), "a");
    assert_eq!(state.history_index, 2);
    state.history_next();
    assert_eq!(buffer_of(&state), "b");
    assert_eq!(state.history_index, 1);
    state.history_next();
    assert_eq!(buffer_of(&state), "");
    assert_eq!(state.history_index, 0);
    assert!(state.input.is_none());
}

#[test]
fn history_prev_stops_at_oldest() {
    let mut state = fresh_state();
    state.open_prompt(PromptKind::Search);
    state.prompt_insert('a');
    state.prompt_commit();
    state.open_prompt(PromptKind::Search);
    state.history_prev();
    state.history_prev();
    assert_eq!(buffer_of(&state), "a");
    assert_eq!(state.history_index, 1);
}

#[test]
fn history_next_at_fresh_buffer_does_nothing() {
    let mut state = fresh_state();
    state.open_prompt(PromptKind::Search);
    state.prompt_insert('a');
    state.prompt_commit();
    state.open_prompt(PromptKind::Search);
    state.history_next();
    assert_eq!(state.history_index, 0);
    assert!(state.input.is_none());
}

#[test]
fn histories_are_kept_per_kind() {
    let mut state = fresh_state();
    state.open_prompt(PromptKind::Goto);
    type_text(&mut state, "dir");
    state.prompt_commit();
    state.open_prompt(PromptKind::Search);
    type_text(&mut state, "pat");
    state.prompt_commit();
    assert_eq!(state.history.goto, vec![vec!['d', 'i', 'r']]);
    assert_eq!(state.history.search, vec![vec!['p', 'a', 't']]);
    // The search prompt's walk never sees the goto history.
    state.open_prompt(PromptKind::Search);
    state.history_prev();
    assert_eq!(buffer_of(&state), "pat");
    state.history_prev();
    assert_eq!(buffer_of(&state), "pat");
}
