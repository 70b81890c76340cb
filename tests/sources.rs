use runnables::discovery::get_runnables;
use runnables::execution::build_command;
use runnables::sources::runfile::{default_path, RunFile, RunFileItem, RunFileParams};
use runnables::sources::rust_bin::{RustBin, RustBinCommand, RustBinParams};
use runnables::sources::rust_lib::{RustLib, RustLibCommand, RustLibParams};
use runnables::sources::shell::{is_shell_script, Shell, ShellParams};
use runnables::sources::{CargoPackage, DirSnapshot};
use runnables::types::{Runnable, RunnableParams, RunnableParamsVariant};

fn empty_dir(path: &str) -> DirSnapshot {
    DirSnapshot {
        path: path.to_string(),
        files: Vec::new(),
        runfile: None,
        package: None,
        has_main_rs: false,
        has_lib_rs: false,
    }
}

fn item(command: &str, path: &str) -> RunFileItem {
    RunFileItem {
        command: command.to_string(),
        after: None,
        description: None,
        path: path.to_string(),
    }
}

#[test]
fn rust_run_test() {
    assert_eq!("it works", "it works")
}

#[test]
fn rust_bin_run_test() {
    assert_eq!("it works", "it works")
}

#[test]
fn runfile_task_command_joins_its_path() {
    let mut dir = empty_dir("/work/D");
    dir.runfile = Some(vec![("hello".to_string(), item("echo hi", "sub"))]);
    let found = get_runnables(&vec![dir], &Vec::new());
    assert_eq!(found.len(), 1);
    assert_eq!(found[0].name, "hello");
    assert_eq!(found[0].path, "/work/D/sub");
    assert_eq!(build_command(&found[0]).unwrap(), "cd /work/D/sub && echo hi");
}

#[test]
fn runfile_default_path_is_current_directory() {
    assert_eq!(default_path(), ".");
    let mut dir = empty_dir("/work");
    dir.runfile = Some(vec![("t".to_string(), item("make", &default_path()))]);
    let mut out = Vec::new();
    RunFile::add_runnable(&dir, &mut out);
    assert_eq!(out[0].path, "/work/.");
    let p = RunFileParams { command: "make".to_string() };
    assert_eq!(RunFile::command(&out[0], &p), "cd /work/. && make");
}

#[test]
fn runfile_keeps_task_order_description_and_after() {
    let mut dir = empty_dir("/w");
    let mut second = item("b", "/abs");
    second.description = Some("second task".to_string());
    second.after = Some(vec!["first".to_string()]);
    dir.runfile = Some(vec![("first".to_string(), item("a", "x")), ("second".to_string(), second)]);
    let mut out = Vec::new();
    RunFile::add_runnable(&dir, &mut out);
    assert_eq!(out.len(), 2);
    assert_eq!(out[0].name, "first");
    assert_eq!(out[1].name, "second");
    assert_eq!(out[1].path, "/abs");
    assert_eq!(out[1].description.as_deref(), Some("second task"));
    assert_eq!(out[1].after, Some(vec!["first".to_string()]));
}

#[test]
fn shell_scripts_are_the_sh_files() {
    assert!(is_shell_script("build.sh"));
    assert!(is_shell_script("a.b.sh"));
    assert!(!is_shell_script(".sh"));
    assert!(!is_shell_script("notes.shx"));
    assert!(!is_shell_script("sh"));
    let mut dir = empty_dir("/w/scripts");
    dir.files = vec!["run.sh".to_string(), "README.md".to_string(), "x.sh".to_string()];
    let mut out = Vec::new();
    Shell::add_runnable(&dir, &mut out);
    assert_eq!(out.len(), 2);
    assert_eq!(out[0].name, "/w/scripts/run.sh");
    assert_eq!(out[1].path, "/w/scripts/x.sh");
    assert_eq!(Shell::command(&out[0], &ShellParams {}), "sh /w/scripts/run.sh");
}

#[test]
fn package_with_both_entry_points_yields_bin_and_lib() {
    let mut dir = empty_dir("/w/pkg");
    dir.package = Some(CargoPackage {
        name: "tool".to_string(),
        description: Some("does things".to_string()),
    });
    dir.has_main_rs = true;
    dir.has_lib_rs = true;
    let found = get_runnables(&vec![dir], &Vec::new());
    assert_eq!(found.len(), 2);
    assert!(matches!(found[0].params, RunnableParams::RustBin(_)));
    assert!(matches!(found[1].params, RunnableParams::RustLib(_)));
    for r in &found {
        assert_eq!(r.name, "tool");
        assert_eq!(r.description.as_deref(), Some("does things"));
        assert_eq!(r.path, "/w/pkg");
    }
}

#[test]
fn package_without_manifest_or_entry_point_yields_nothing() {
    let mut dir = empty_dir("/w/pkg");
    dir.has_main_rs = true;
    let mut out = Vec::new();
    RustBin::add_runnable(&dir, &mut out);
    assert!(out.is_empty());
    dir.package = Some(CargoPackage { name: "p".to_string(), description: None });
    dir.has_main_rs = false;
    RustBin::add_runnable(&dir, &mut out);
    RustLib::add_runnable(&dir, &mut out);
    assert!(out.is_empty());
}

#[test]
fn cargo_commands_have_their_shell_text() {
    let r = Runnable {
        path: "/w/pkg".to_string(),
        ..Runnable::default()
    };
    let bin = RustBinParams { command: RustBinCommand::Install };
    assert_eq!(RustBin::command(&r, &bin), "cd /w/pkg && cargo install --path .");
    assert_eq!(RustBinCommand::RunRelease.to_string(), "cargo run --release");
    assert_eq!(RustBinCommand::default().to_string(), "cargo run");
    let lib = RustLibParams { command: RustLibCommand::BuildRelease };
    assert_eq!(RustLib::command(&r, &lib), "cd /w/pkg && cargo build --release");
    assert_eq!(RustLibCommand::default().to_string(), "cargo publish");
}

#[test]
fn params_labels_and_variants() {
    let p = RunnableParams::RustLib(RustLibParams { command: RustLibCommand::Test });
    assert_eq!(p.to_string(), "rust (lib)");
    assert_eq!(p.extract_variant(), RunnableParamsVariant::RustLib);
    assert_eq!(RunnableParams::Shell(ShellParams {}).to_string(), "shell");
    assert_eq!(RunnableParams::default().to_string(), "none");
}
