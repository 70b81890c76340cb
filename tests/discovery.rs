use runnables::discovery::{
    assign_indices, get_runnables, ignore_dir, resolve_entries, ChildDir, PathFilterSet, Walk,
};
use runnables::sources::runfile::RunFileItem;
use runnables::sources::{CargoPackage, DirSnapshot};
use runnables::types::{Runnable, RunnableParams, RunnableParamsVariant};

fn child(path: &str) -> ChildDir {
    ChildDir { path: path.to_string(), canonical: path.to_string() }
}

fn dir(path: &str) -> DirSnapshot {
    DirSnapshot {
        path: path.to_string(),
        files: Vec::new(),
        runfile: None,
        package: None,
        has_main_rs: false,
        has_lib_rs: false,
    }
}

#[test]
fn builtin_exclusions_match_the_last_component() {
    assert!(ignore_dir("/w/target"));
    assert!(ignore_dir("/w/node_modules/"));
    assert!(ignore_dir(".git"));
    assert!(!ignore_dir("/w/target/src"));
    assert!(!ignore_dir("/w/my_target"));
    assert!(!ignore_dir("/w/Target"));
}

#[test]
fn walk_skips_builtin_exclusions_without_marker_files() {
    let filters = PathFilterSet::new();
    let mut walk = Walk::new("/w".to_string());
    assert_eq!(walk.next_dir().as_deref(), Some("/w"));
    let children = vec![child("/w/a"), child("/w/target"), child("/w/.git"), child("/w/b")];
    walk.descend(&children, &filters);
    assert_eq!(walk.next_dir().as_deref(), Some("/w/a"));
    assert_eq!(walk.next_dir().as_deref(), Some("/w/b"));
    assert_eq!(walk.next_dir(), None);
}

#[test]
fn includes_limit_and_excludes_prune_the_walk() {
    let mut filters = PathFilterSet::new();
    filters.add_includes(&vec!["/w/a".to_string(), "/w/b".to_string()]);
    filters.add_excludes(&vec!["/w/b".to_string()]);
    assert!(filters.allows(&child("/w/a")));
    assert!(!filters.allows(&child("/w/b")));
    assert!(!filters.allows(&child("/w/c")));
    let mut walk = Walk::new("/w".to_string());
    walk.next_dir();
    walk.descend(&vec![child("/w/c"), child("/w/b"), child("/w/a")], &filters);
    assert_eq!(walk.pending, vec!["/w/a".to_string()]);
}

#[test]
fn marker_entries_are_joined_to_their_directory() {
    let entries = resolve_entries("/w", "# keep\nsub # here\n/abs, other\n");
    assert_eq!(entries, vec!["/w/sub", "/abs", "/w/other"]);
}

#[test]
fn indices_follow_the_priority_ordered_output() {
    let mut first = dir("/w");
    first.files = vec!["go.sh".to_string()];
    first.runfile = Some(vec![(
        "task".to_string(),
        RunFileItem {
            command: "true".to_string(),
            after: None,
            description: None,
            path: ".".to_string(),
        },
    )]);
    let mut second = dir("/w/pkg");
    second.package = Some(CargoPackage { name: "pkg".to_string(), description: None });
    second.has_main_rs = true;
    second.has_lib_rs = true;
    second.files = vec!["x.sh".to_string()];
    let found = get_runnables(&vec![first, second], &Vec::new());
    let kinds: Vec<RunnableParamsVariant> = found.iter().map(|r| r.params.extract_variant()).collect();
    assert_eq!(
        kinds,
        vec![
            RunnableParamsVariant::RunFile,
            RunnableParamsVariant::Shell,
            RunnableParamsVariant::Shell,
            RunnableParamsVariant::RustBin,
            RunnableParamsVariant::RustLib,
        ]
    );
    for (i, r) in found.iter().enumerate() {
        assert_eq!(r.index, i);
    }
}

#[test]
fn ignored_sources_are_never_scanned() {
    let mut d = dir("/w");
    d.files = vec!["go.sh".to_string()];
    d.package = Some(CargoPackage { name: "pkg".to_string(), description: None });
    d.has_main_rs = true;
    let found = get_runnables(&vec![d], &vec![RunnableParamsVariant::Shell]);
    assert_eq!(found.len(), 1);
    assert!(matches!(found[0].params, RunnableParams::RustBin(_)));
    assert_eq!(found[0].index, 0);
}

#[test]
fn assigning_indices_numbers_by_position() {
    let mut rs = vec![Runnable::default(), Runnable::default(), Runnable::default()];
    rs[2].index = 7;
    assign_indices(&mut rs);
    assert_eq!(rs.iter().map(|r| r.index).collect::<Vec<_>>(), vec![0, 1, 2]);
}
