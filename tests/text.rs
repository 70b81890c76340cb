use runnables::paths::{absolute_path, join_path, replace, runnable_path_display};
use runnables::string_list::parse_string_list;
use runnables::types::Runnable;

#[test]
fn string_list_skips_comments_and_splits_commas() {
    assert_eq!(parse_string_list("# comment\na # trailing\n\nb,c"), vec!["a", "b", "c"]);
}

#[test]
fn string_list_trims_and_drops_empty_entries() {
    assert_eq!(parse_string_list("  x ,, y  \n\t# z\n w#v"), vec!["x", "y", "w#v"]);
    assert_eq!(parse_string_list(""), Vec::<String>::new());
    assert_eq!(parse_string_list("   \n"), Vec::<String>::new());
}

#[test]
fn join_follows_path_join() {
    assert_eq!(join_path("/a", "b"), "/a/b");
    assert_eq!(join_path("/a/", "b"), "/a/b");
    assert_eq!(join_path("/a", "/b"), "/b");
    assert_eq!(join_path("", "b"), "b");
}

#[test]
fn absolute_paths_are_cleaned() {
    assert_eq!(absolute_path("/home/u", "x/./y/../z"), "/home/u/x/z");
    assert_eq!(absolute_path("/home/u", "/etc//a/"), "/etc/a");
    assert_eq!(absolute_path("/", ".."), "/");
}

#[test]
fn replace_matches_str_replace() {
    for (s, p, r) in [("aaa", "aa", "b"), ("abcabc", "bc", "X"), ("abc", "", "-"), ("", "", "-"), ("ab", "abc", "z")] {
        assert_eq!(replace(s, p, r), s.replace(p, r));
    }
}

#[test]
fn paths_display_relative_to_the_root() {
    assert_eq!(runnable_path_display("/w/root", "/w", "/w/root/sub/../pkg"), "./pkg");
    assert_eq!(runnable_path_display("/w/root", "/w/root", "tools"), "./tools");
    assert_eq!(runnable_path_display("/w/root", "/", "/elsewhere"), "/elsewhere");
}

#[test]
fn duplicate_copies_every_field() {
    let r = Runnable {
        name: "n".to_string(),
        aliases: vec!["a".to_string()],
        description: Some("d".to_string()),
        after: Some(vec!["b".to_string()]),
        index: 4,
        ..Runnable::default()
    };
    let c = r.duplicate();
    assert_eq!(c.name, "n");
    assert_eq!(c.aliases, vec!["a"]);
    assert_eq!(c.description.as_deref(), Some("d"));
    assert_eq!(c.after, Some(vec!["b".to_string()]));
    assert_eq!(c.index, 4);
}
