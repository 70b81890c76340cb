use runnables::search::{filter_runnables, split_match_strings};
use runnables::sources::runfile::RunFileParams;
use runnables::sources::rust_bin::{RustBinCommand, RustBinParams};
use runnables::sources::rust_lib::{RustLibCommand, RustLibParams};
use runnables::state::{keypress_helper, Key, Mode, State};
use runnables::types::{Runnable, RunnableParams};

fn named(name: &str, params: RunnableParams) -> Runnable {
    Runnable {
        name: name.to_string(),
        params,
        ..Runnable::default()
    }
}

fn lib(name: &str) -> Runnable {
    named(name, RunnableParams::RustLib(RustLibParams { command: RustLibCommand::Publish }))
}

fn task(name: &str) -> Runnable {
    named(name, RunnableParams::RunFile(RunFileParams { command: format!("echo {name}") }))
}

fn typed(state: &mut State, text: &str) {
    for c in text.chars() {
        assert!(!state.handle_event(Key::Char(c)));
    }
}

#[test]
fn terms_must_all_occur_in_the_name_or_in_one_alias() {
    assert!(split_match_strings("", "anything", &[]));
    assert!(split_match_strings("bu re", "build-release", &[]));
    assert!(!split_match_strings("bu x", "build-release", &[]));
    assert!(split_match_strings("ls", "just-ls", &["x"]));
    assert!(split_match_strings("go fast", "run", &["go", "go-fast"]));
    assert!(!split_match_strings("go fast", "run", &["go", "fast"]));
    assert!(!split_match_strings("Build", "build", &[]));
}

#[test]
fn aliases_take_part_in_matching() {
    let mut r = task("deploy");
    r.aliases = vec!["ship".to_string(), "release".to_string()];
    assert_eq!(r.aliases(), vec!["ship", "release"]);
    let rs = vec![task("build"), r, task("test")];
    assert_eq!(filter_runnables(&rs, "ship"), vec![1]);
    assert_eq!(filter_runnables(&rs, "e"), vec![1, 2]);
}

#[test]
fn empty_search_keeps_everything_in_order() {
    let rs = vec![task("c"), task("a"), task("b")];
    assert_eq!(filter_runnables(&rs, ""), vec![0, 1, 2]);
    let state = State::new(rs, None);
    assert_eq!(state.active, vec![0, 1, 2]);
    assert_eq!(state.mode, Mode::List);
}

#[test]
fn filtering_twice_gives_the_same_active_set() {
    let rs = vec![task("build"), task("bundle"), task("test"), task("rebuild")];
    let once: Vec<Runnable> = filter_runnables(&rs, "bu").iter().map(|&i| rs[i].clone()).collect();
    let twice = filter_runnables(&once, "bu");
    assert_eq!(twice, (0..once.len()).collect::<Vec<_>>());
    assert_eq!(once.len(), 3);
}

#[test]
fn cursor_wraps_around_the_active_list() {
    let mut state = State::new(vec![task("a"), task("b"), task("c")], None);
    assert_eq!(state.selected, 0);
    for _ in 0..3 {
        assert!(!state.handle_event(Key::Char('j')));
    }
    assert_eq!(state.selected, 0);
    state.handle_event(Key::Up);
    assert_eq!(state.selected, 2);
    state.handle_event(Key::Down);
    assert_eq!(state.selected, 0);
}

#[test]
fn library_keymap_commits_test_and_ignores_run() {
    let mut state = State::new(vec![lib("mylib")], None);
    assert!(!state.handle_event(Key::Char('r')));
    assert!(matches!(state.runnable.params, RunnableParams::Unset));
    assert!(state.handle_event(Key::Char('t')));
    assert_eq!(state.runnable.name, "mylib");
    assert!(matches!(
        state.runnable.params,
        RunnableParams::RustLib(RustLibParams { command: RustLibCommand::Test })
    ));
}

#[test]
fn binary_keymap_and_enter_commit() {
    let bin = named("app", RunnableParams::RustBin(RustBinParams { command: RustBinCommand::Run }));
    let mut state = State::new(vec![bin], None);
    assert!(state.handle_event(Key::Char('R')));
    assert!(matches!(
        state.runnable.params,
        RunnableParams::RustBin(RustBinParams { command: RustBinCommand::RunRelease })
    ));
    let mut state = State::new(vec![task("hello")], None);
    assert!(state.handle_event(Key::Enter));
    assert_eq!(state.runnable.name, "hello");
    assert!(matches!(state.runnable.params, RunnableParams::RunFile(_)));
}

#[test]
fn quitting_commits_nothing() {
    let mut state = State::new(vec![task("a")], None);
    assert!(state.handle_event(Key::Char('q')));
    assert!(matches!(state.runnable.params, RunnableParams::Unset));
    let mut state = State::new(vec![task("a")], None);
    assert!(state.handle_event(Key::Esc));
    assert!(matches!(state.runnable.params, RunnableParams::Unset));
}

#[test]
fn search_mode_edits_filters_and_returns() {
    let mut state = State::new(vec![task("build"), task("test"), task("bench")], None);
    assert!(!state.handle_event(Key::Tab));
    assert_eq!(state.mode, Mode::Search);
    typed(&mut state, "be");
    assert_eq!(state.search.value(), "be");
    assert_eq!(state.active, vec![2]);
    state.handle_event(Key::Backspace);
    assert_eq!(state.search.value(), "b");
    assert_eq!(state.active, vec![0, 2]);
    state.handle_event(Key::Home);
    typed(&mut state, "x");
    assert_eq!(state.search.value(), "xb");
    assert_eq!(state.search.cursor, 1);
    assert!(state.active.is_empty());
    state.handle_event(Key::Esc);
    assert_eq!(state.mode, Mode::List);
    assert_eq!(state.search.value(), "");
    assert_eq!(state.active, vec![0, 1, 2]);
}

#[test]
fn search_tab_keeps_text_and_enter_commits() {
    let mut state = State::new(vec![task("build"), task("test")], Some("te".to_string()));
    assert_eq!(state.mode, Mode::Search);
    assert_eq!(state.active, vec![1]);
    state.handle_event(Key::Tab);
    assert_eq!(state.mode, Mode::List);
    assert_eq!(state.search.value(), "te");
    state.handle_event(Key::Char('s'));
    assert_eq!(state.mode, Mode::Search);
    assert!(state.handle_event(Key::Enter));
    assert_eq!(state.runnable.name, "test");
}

#[test]
fn keypress_hints_follow_the_keymaps() {
    let hints = keypress_helper(&RunnableParams::RustLib(RustLibParams { command: RustLibCommand::Publish }));
    let keys: String = hints.iter().map(|h| h.0).collect();
    assert_eq!(keys, "pbBtcCf");
    assert_eq!(hints[6].1, "format");
    let hints = keypress_helper(&RunnableParams::RustBin(RustBinParams { command: RustBinCommand::Run }));
    assert_eq!(hints.len(), 10);
    assert_eq!(hints[1], ('R', "run release".to_string()));
    assert!(keypress_helper(&RunnableParams::Unset).is_empty());
}
