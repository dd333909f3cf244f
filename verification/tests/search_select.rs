use fx::search::do_search;
use fx::Config;
use fx::Entry;
use fx::EntryKind;
use fx::MessageKind;
use fx::State;

fn entry(name: &str, kind: EntryKind) -> Entry {
    Entry { file_name: String::from(name), kind, created: None, size: None }
}

fn state_with_names(names: &[(&str, EntryKind)]) -> State {
    let config = Config { default: None, apps: None };
    let mut state = State::new(config, String::from("/tmp"));
    state.list = names.iter().map(|(n, k)| entry(n, *k)).collect();
    state.lines = 20;
    state
}

fn set_input(state: &mut State, text: &str) {
    state.input = Some(text.chars().collect());
}

#[test]
fn caret_pattern_selects_matching_names() {
    // `^file` against dirA, file1.txt, file2.md selects the two files and
    // jumps to the first of them.
    let mut state = state_with_names(&[
        ("dirA", EntryKind::Dir),
        ("file1.txt", EntryKind::File),
        ("file2.md", EntryKind::File),
    ]);
    set_input(&mut state, "^file");
    do_search(&mut state);
    assert_eq!(state.selected, vec![1, 2]);
    assert_eq!(state.index, 1);
    assert!(state.message.is_none());
}

#[test]
fn invalid_pattern_reports_error_and_keeps_selection() {
    // The unclosed parenthesis does not compile as a pattern: an error
    // lands on the status line, and the selection and caret stay put.
    let mut state = state_with_names(&[
        ("dirA", EntryKind::Dir),
        ("file1.txt", EntryKind::File),
        ("file2.md", EntryKind::File),
    ]);
    state.selected = vec![0];
    state.index = 2;
    set_input(&mut state, "(");
    do_search(&mut state);
    assert_eq!(state.selected, vec![0], "selection must be unchanged");
    assert_eq!(state.index, 2);
    let message = state.message.as_ref().expect("an error message is owed");
    assert_eq!(message.kind, MessageKind::Error);
    assert_eq!(message.text, "Invalid search pattern!");
}

#[test]
fn input_is_a_regular_expression() {
    // The input is a pattern as written, wherever it matches: the dot
    // stands for any character.
    let mut state = state_with_names(&[
        ("a.txt", EntryKind::File),
        ("abtxt", EntryKind::File),
        ("other", EntryKind::File),
    ]);
    set_input(&mut state, "a.txt");
    do_search(&mut state);
    assert_eq!(state.selected, vec![0, 1]);
    assert_eq!(state.index, 0);
}

#[test]
fn group_pattern_compiles_and_matches() {
    let mut state = state_with_names(&[
        ("note(1).txt", EntryKind::File),
        ("draft.txt", EntryKind::File),
    ]);
    set_input(&mut state, "(note|draft)");
    do_search(&mut state);
    assert!(state.message.is_none());
    assert_eq!(state.selected, vec![0, 1]);
}

#[test]
fn empty_input_searches_nothing() {
    let mut state = state_with_names(&[("dirA", EntryKind::Dir)]);
    state.input = None;
    do_search(&mut state);
    assert!(state.selected.is_empty());
    assert!(state.message.is_none());
}

#[test]
fn search_without_matches_keeps_caret() {
    let mut state = state_with_names(&[
        ("alpha", EntryKind::File),
        ("beta", EntryKind::File),
    ]);
    state.index = 1;
    set_input(&mut state, "^zzz");
    do_search(&mut state);
    assert!(state.selected.is_empty());
    assert_eq!(state.index, 1);
}

#[test]
fn regex_alternation_selects_across_groups() {
    let mut state = state_with_names(&[
        ("docs", EntryKind::Dir),
        ("img", EntryKind::Dir),
        ("readme.md", EntryKind::File),
        ("todo.txt", EntryKind::File),
    ]);
    set_input(&mut state, "^(img|todo)");
    do_search(&mut state);
    assert_eq!(state.selected, vec![1, 3]);
    assert_eq!(state.index, 1);
}
