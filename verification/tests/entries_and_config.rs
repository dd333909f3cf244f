use fx::entries::arrange_entries;
use fx::entries::filter_dotfiles;
use fx::entries::group_entries;
use fx::Config;
use fx::Entry;
use fx::EntryKind;
use fx::State;

fn entry(name: &str, kind: EntryKind) -> Entry {
    Entry { file_name: String::from(name), kind, created: None, size: None }
}

fn names(list: &[Entry]) -> Vec<String> {
    list.iter().map(|e| e.file_name.clone()).collect()
}

#[test]
fn grouping_orders_dirs_symlinks_files() {
    let raw = vec![
        entry("b.txt", EntryKind::File),
        entry("docs", EntryKind::Dir),
        entry("link", EntryKind::Symlink),
        entry("a.txt", EntryKind::File),
        entry("img", EntryKind::Dir),
    ];
    let grouped = group_entries(raw);
    assert_eq!(names(&grouped), vec!["docs", "img", "link", "b.txt", "a.txt"]);
}

#[test]
fn grouping_keeps_relative_order_not_alphabetical() {
    // Inside each group the filesystem order is kept: no secondary sort.
    let raw = vec![
        entry("zeta", EntryKind::Dir),
        entry("alpha", EntryKind::Dir),
    ];
    let grouped = group_entries(raw);
    assert_eq!(names(&grouped), vec!["zeta", "alpha"]);
}

#[test]
fn dotfiles_filtered_when_hidden() {
    let raw = vec![
        entry(".git", EntryKind::Dir),
        entry("src", EntryKind::Dir),
        entry(".env", EntryKind::File),
        entry("a.txt", EntryKind::File),
    ];
    let hidden = filter_dotfiles(raw.clone(), false);
    assert_eq!(names(&hidden), vec!["src", "a.txt"]);
    let shown = filter_dotfiles(raw, true);
    assert_eq!(shown.len(), 4);
}

#[test]
fn arrange_filters_then_groups() {
    let raw = vec![
        entry("b.txt", EntryKind::File),
        entry(".hidden", EntryKind::File),
        entry("docs", EntryKind::Dir),
    ];
    let arranged = arrange_entries(raw, false);
    assert_eq!(names(&arranged), vec!["docs", "b.txt"]);
}

#[test]
fn change_directory_resets_everything() {
    let config = Config { default: None, apps: None };
    let mut state = State::new(config, String::from("/a"));
    state.list = vec![entry("x", EntryKind::File), entry("y", EntryKind::File)];
    state.lines = 20;
    state.index = 1;
    state.offset = 0;
    state.selected = vec![0];
    state.change_directory(
        String::from("/a/b"),
        vec![entry("n1", EntryKind::File), entry("n2", EntryKind::Dir)],
    );
    assert_eq!(state.path, "/a/b");
    assert_eq!(names(&state.list), vec!["n2", "n1"]);
    assert_eq!(state.index, 0);
    assert_eq!(state.offset, 0);
    assert!(state.selected.is_empty());
    assert!(state.message.is_none());
}

#[test]
fn refresh_clamps_caret_into_shrunk_list() {
    let config = Config { default: None, apps: None };
    let mut state = State::new(config, String::from("/a"));
    state.lines = 20;
    state.list = (0..10).map(|i| entry(&format!("f{}", i), EntryKind::File)).collect();
    state.index = 7;
    state.offset = 3;
    state.selected = vec![1];
    state.refresh(vec![entry("f0", EntryKind::File), entry("f1", EntryKind::File)]);
    assert_eq!(state.index, 1);
    assert_eq!(state.offset, 1);
    assert!(state.selected.is_empty());
}

#[test]
fn refresh_keeps_caret_when_still_in_range() {
    let config = Config { default: None, apps: None };
    let mut state = State::new(config, String::from("/a"));
    state.lines = 20;
    state.list = (0..5).map(|i| entry(&format!("f{}", i), EntryKind::File)).collect();
    state.index = 2;
    let raw: Vec<Entry> = (0..5).map(|i| entry(&format!("g{}", i), EntryKind::File)).collect();
    state.refresh(raw);
    assert_eq!(state.index, 2);
}

#[test]
fn toggle_dotfiles_flips_and_refilters() {
    let config = Config { default: None, apps: None };
    let mut state = State::new(config, String::from("/a"));
    state.lines = 20;
    assert!(state.show_dotfiles);
    let raw = vec![entry(".hidden", EntryKind::File), entry("shown", EntryKind::File)];
    state.toggle_dotfiles(raw.clone());
    assert!(!state.show_dotfiles);
    assert_eq!(names(&state.list), vec!["shown"]);
    state.toggle_dotfiles(raw);
    assert!(state.show_dotfiles);
    assert_eq!(names(&state.list), vec![".hidden", "shown"]);
}

#[test]
fn get_app_matches_extension_case_insensitively() {
    let config = Config {
        default: Some(String::from("xdg-open")),
        apps: Some(vec![
            (String::from("feh"), vec![String::from("png"), String::from("jpg")]),
            (String::from("mpv"), vec![String::from("mp4")]),
        ]),
    };
    assert_eq!(config.get_app("png"), Some(String::from("feh")));
    assert_eq!(config.get_app("PNG"), Some(String::from("feh")));
    assert_eq!(config.get_app("mp4"), Some(String::from("mpv")));
}

#[test]
fn get_app_falls_back_to_default() {
    let config = Config {
        default: Some(String::from("xdg-open")),
        apps: Some(vec![(String::from("feh"), vec![String::from("png")])]),
    };
    assert_eq!(config.get_app("pdf"), Some(String::from("xdg-open")));
}

#[test]
fn get_app_without_default_yields_none() {
    let config = Config { default: None, apps: None };
    assert_eq!(config.get_app("pdf"), None);
}

#[test]
fn first_configured_app_wins() {
    let config = Config {
        default: None,
        apps: Some(vec![
            (String::from("first"), vec![String::from("png")]),
            (String::from("second"), vec![String::from("png")]),
        ]),
    };
    assert_eq!(config.get_app("png"), Some(String::from("first")));
}
