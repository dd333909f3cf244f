use fx::engine::handle_event;
use fx::engine::Action;
use fx::engine::Event;
use fx::engine::ExecOutcome;
use fx::expand_tilde;
use fx::paths::extension_of;
use fx::paths::join_path;
use fx::paths::parent_path;
use fx::Config;
use fx::Entry;
use fx::EntryKind;
use fx::FolderDir;
use fx::MessageKind;
use fx::Mode;
use fx::Move;
use fx::PromptKind;
use fx::State;

fn entry(name: &str, kind: EntryKind) -> Entry {
    Entry { file_name: String::from(name), kind, created: None, size: None }
}

fn state_with(config: Config, names: &[(&str, EntryKind)]) -> State {
    let mut state = State::new(config, String::from("/home/u/docs"));
    state.list = names.iter().map(|(n, k)| entry(n, *k)).collect();
    state.lines = 20;
    state
}

fn plain_config() -> Config {
    Config { default: None, apps: None }
}

#[test]
fn parent_path_walks_up() {
    assert_eq!(parent_path("/a/b/c"), Some(String::from("/a/b")));
    assert_eq!(parent_path("/a"), Some(String::from("/")));
    assert_eq!(parent_path("/"), None);
    assert_eq!(parent_path("noslash"), None);
}

#[test]
fn join_path_inserts_separator() {
    assert_eq!(join_path("/a/b", "c"), "/a/b/c");
    assert_eq!(join_path("/", "c"), "/c");
}

#[test]
fn extension_of_takes_text_after_last_dot() {
    assert_eq!(extension_of("a.txt"), "txt");
    assert_eq!(extension_of("archive.tar.gz"), "gz");
    assert_eq!(extension_of("noext"), "noext");
    assert_eq!(extension_of("trailing."), "");
    assert_eq!(extension_of(".bashrc"), "bashrc");
}

#[test]
fn expand_tilde_substitutes_home() {
    let home = Some(String::from("/home/u"));
    assert_eq!(expand_tilde(String::from("~"), home.clone()), Some(String::from("/home/u")));
    assert_eq!(
        expand_tilde(String::from("~/docs"), home.clone()),
        Some(String::from("/home/u/docs"))
    );
    assert_eq!(expand_tilde(String::from("/abs"), home.clone()), Some(String::from("/abs")));
    assert_eq!(expand_tilde(String::from("~oddity"), home), Some(String::from("~oddity")));
    assert_eq!(expand_tilde(String::from("~/docs"), None), None);
}

#[test]
fn go_parent_asks_for_parent_directory() {
    let mut state = state_with(plain_config(), &[]);
    match handle_event(&mut state, Event::ChangeDir(FolderDir::Parent)) {
        Action::EnterDir { path } => assert_eq!(path, "/home/u"),
        other => panic!("expected EnterDir, got {:?}", other),
    }
}

#[test]
fn go_child_enters_directory_under_caret() {
    let mut state = state_with(plain_config(), &[("sub", EntryKind::Dir)]);
    match handle_event(&mut state, Event::ChangeDir(FolderDir::Child)) {
        Action::EnterDir { path } => assert_eq!(path, "/home/u/docs/sub"),
        other => panic!("expected EnterDir, got {:?}", other),
    }
}

#[test]
fn open_entry_on_directory_warns() {
    let mut state = state_with(plain_config(), &[("sub", EntryKind::Dir)]);
    match handle_event(&mut state, Event::OpenEntry) {
        Action::Nothing => {},
        other => panic!("expected Nothing, got {:?}", other),
    }
    let message = state.message.expect("a warning is owed");
    assert_eq!(message.kind, MessageKind::Warn);
    assert_eq!(message.text, "Entry is not a file!");
}

#[test]
fn open_entry_launches_configured_app() {
    let config = Config {
        default: None,
        apps: Some(vec![(String::from("feh"), vec![String::from("png")])]),
    };
    let mut state = state_with(config, &[("cat.PNG", EntryKind::File)]);
    match handle_event(&mut state, Event::OpenEntry) {
        Action::Launch { app, file_name } => {
            assert_eq!(app, "feh");
            assert_eq!(file_name, "cat.PNG");
        },
        other => panic!("expected Launch, got {:?}", other),
    }
}

#[test]
fn open_entry_without_app_warns() {
    let mut state = state_with(plain_config(), &[("a.xyz", EntryKind::File)]);
    match handle_event(&mut state, Event::OpenEntry) {
        Action::Nothing => {},
        other => panic!("expected Nothing, got {:?}", other),
    }
    let message = state.message.expect("a warning is owed");
    assert_eq!(message.kind, MessageKind::Warn);
    assert_eq!(message.text, "No app for given file extension specified!");
}

#[test]
fn committed_search_runs_against_names() {
    let mut state = state_with(
        plain_config(),
        &[("dirA", EntryKind::Dir), ("file1.txt", EntryKind::File), ("file2.md", EntryKind::File)],
    );
    handle_event(&mut state, Event::OpenPrompt(PromptKind::Search));
    for c in "^file".chars() {
        handle_event(&mut state, Event::PromptInsert(c));
    }
    match handle_event(&mut state, Event::PromptCommit) {
        Action::Nothing => {},
        other => panic!("expected Nothing, got {:?}", other),
    }
    assert_eq!(state.mode, Mode::Normal);
    assert_eq!(state.selected, vec![1, 2]);
    assert_eq!(state.index, 1);
    assert_eq!(state.history.search, vec!["^file".chars().collect::<Vec<char>>()]);
}

#[test]
fn committed_goto_becomes_an_action() {
    let mut state = state_with(plain_config(), &[]);
    handle_event(&mut state, Event::OpenPrompt(PromptKind::Goto));
    for c in "~/music".chars() {
        handle_event(&mut state, Event::PromptInsert(c));
    }
    match handle_event(&mut state, Event::PromptCommit) {
        Action::OpenPath { input } => assert_eq!(input, "~/music"),
        other => panic!("expected OpenPath, got {:?}", other),
    }
    assert_eq!(state.history.goto, vec!["~/music".chars().collect::<Vec<char>>()]);
}

#[test]
fn committed_exec_is_parsed_into_command_and_args() {
    let mut state = state_with(plain_config(), &[]);
    handle_event(&mut state, Event::OpenPrompt(PromptKind::Exec));
    for c in "ls -l -a".chars() {
        handle_event(&mut state, Event::PromptInsert(c));
    }
    match handle_event(&mut state, Event::PromptCommit) {
        Action::Execute { command, args } => {
            assert_eq!(command, "ls");
            assert_eq!(args, vec![String::from("-l"), String::from("-a")]);
        },
        other => panic!("expected Execute, got {:?}", other),
    }
}

#[test]
fn exec_parsing_keeps_empty_pieces() {
    // Splitting happens at every single space, as the original shell line
    // would see it: doubled spaces yield empty arguments.
    let mut state = state_with(plain_config(), &[]);
    handle_event(&mut state, Event::OpenPrompt(PromptKind::Exec));
    for c in "ls  -a".chars() {
        handle_event(&mut state, Event::PromptInsert(c));
    }
    match handle_event(&mut state, Event::PromptCommit) {
        Action::Execute { command, args } => {
            assert_eq!(command, "ls");
            assert_eq!(args, vec![String::new(), String::from("-a")]);
        },
        other => panic!("expected Execute, got {:?}", other),
    }
}

#[test]
fn empty_commit_runs_nothing() {
    let mut state = state_with(plain_config(), &[]);
    handle_event(&mut state, Event::OpenPrompt(PromptKind::Exec));
    match handle_event(&mut state, Event::PromptCommit) {
        Action::Nothing => {},
        other => panic!("expected Nothing, got {:?}", other),
    }
    assert!(state.history.execute.is_empty());
}

#[test]
fn movement_events_move_the_caret() {
    let mut state = state_with(
        plain_config(),
        &[("a", EntryKind::File), ("b", EntryKind::File), ("c", EntryKind::File)],
    );
    handle_event(&mut state, Event::MoveCaret(Move::Down));
    assert_eq!(state.index, 1);
    handle_event(&mut state, Event::MoveCaret(Move::Bottom));
    assert_eq!(state.index, 2);
    handle_event(&mut state, Event::MoveCaret(Move::Top));
    assert_eq!(state.index, 0);
}

#[test]
fn selection_mutations_update_status_message() {
    let names: Vec<String> = (0..12).map(|i| format!("f{}", i)).collect();
    let pairs: Vec<(&str, EntryKind)> =
        names.iter().map(|n| (n.as_str(), EntryKind::File)).collect();
    let mut state = state_with(plain_config(), &pairs);

    handle_event(&mut state, Event::ToggleSelect);
    let message = state.message.as_ref().expect("a count message is owed");
    assert_eq!(message.kind, MessageKind::Info);
    assert_eq!(message.text, "1 item selected");

    handle_event(&mut state, Event::ToggleSelect);
    assert!(state.message.is_none(), "an empty selection shows no message");

    handle_event(&mut state, Event::SelectAll);
    let message = state.message.as_ref().expect("a count message is owed");
    assert_eq!(message.text, "12 items selected");

    handle_event(&mut state, Event::ClearSelection);
    assert!(state.message.is_none());
}

#[test]
fn exec_outcome_zero_exit_shows_stdout() {
    let mut state = state_with(plain_config(), &[]);
    state.apply_exec_outcome(ExecOutcome::Launched {
        code: Some(0),
        stdout: String::from("out"),
        stderr: String::from("err"),
    });
    assert_eq!(state.output, Some(String::from("out")));
}

#[test]
fn exec_outcome_nonzero_exit_shows_stderr() {
    let mut state = state_with(plain_config(), &[]);
    state.apply_exec_outcome(ExecOutcome::Launched {
        code: Some(2),
        stdout: String::from("out"),
        stderr: String::from("err"),
    });
    assert_eq!(state.output, Some(String::from("err")));
}

#[test]
fn exec_outcome_without_code_reports_error() {
    let mut state = state_with(plain_config(), &[]);
    state.apply_exec_outcome(ExecOutcome::Launched {
        code: None,
        stdout: String::new(),
        stderr: String::new(),
    });
    assert!(state.output.is_none());
    let message = state.message.expect("an error is owed");
    assert_eq!(message.kind, MessageKind::Error);
    assert_eq!(message.text, "Failed to execute! Reason: Status code unknown");
}

#[test]
fn exec_failure_reports_reason() {
    let mut state = state_with(plain_config(), &[]);
    state.apply_exec_outcome(ExecOutcome::Failed { reason: String::from("No such file") });
    let message = state.message.expect("an error is owed");
    assert_eq!(message.kind, MessageKind::Error);
    assert_eq!(message.text, "Failed to execute! Reason: No such file");
}

#[test]
fn failed_open_reports_error() {
    let mut state = state_with(plain_config(), &[]);
    state.finish_open(true);
    assert!(state.message.is_none());
    state.finish_open(false);
    let message = state.message.expect("an error is owed");
    assert_eq!(message.kind, MessageKind::Error);
    assert_eq!(message.text, "Unable to open file!");
}

#[test]
fn dismiss_output_asks_for_refresh() {
    let mut state = state_with(plain_config(), &[]);
    state.output = Some(String::from("old output"));
    match handle_event(&mut state, Event::DismissOutput) {
        Action::RefreshDir => {},
        other => panic!("expected RefreshDir, got {:?}", other),
    }
    assert!(state.output.is_none());
}

#[test]
fn quit_and_refresh_events_pass_through() {
    let mut state = state_with(plain_config(), &[]);
    assert!(matches!(handle_event(&mut state, Event::Quit), Action::Quit));
    assert!(matches!(handle_event(&mut state, Event::Refresh), Action::RefreshDir));
    assert!(matches!(handle_event(&mut state, Event::ChangeDir(FolderDir::Home)), Action::EnterHome));
    assert!(matches!(handle_event(&mut state, Event::ToggleDotfiles), Action::ToggleDotfiles));
}
