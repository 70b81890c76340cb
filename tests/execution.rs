use runnables::execution::{
    build_command, execution_plan, find_runnable, parse_variant, split_reference, LookupError,
    PlanError,
};
use runnables::sources::runfile::RunFileParams;
use runnables::sources::shell::ShellParams;
use runnables::types::{Runnable, RunnableParams, RunnableParamsVariant};

fn task(name: &str, after: &[&str]) -> Runnable {
    Runnable {
        name: name.to_string(),
        path: format!("/w/{name}"),
        after: if after.is_empty() { None } else { Some(after.iter().map(|s| s.to_string()).collect()) },
        params: RunnableParams::RunFile(RunFileParams { command: format!("run-{name}") }),
        ..Runnable::default()
    }
}

#[test]
fn dependencies_run_first_in_listed_order() {
    let all = vec![task("a", &["b", "RunFile:c"]), task("b", &["d"]), task("c", &[]), task("d", &[])];
    let plan = execution_plan(&all[0], &all).unwrap();
    assert_eq!(
        plan,
        vec![
            "cd /w/d && run-d",
            "cd /w/b && run-b",
            "cd /w/c && run-c",
            "cd /w/a && run-a",
        ]
    );
}

#[test]
fn missing_dependencies_are_skipped() {
    let all = vec![task("a", &["nope", "Shell:c"]), task("c", &[])];
    assert_eq!(execution_plan(&all[0], &all).unwrap(), vec!["cd /w/a && run-a"]);
}

#[test]
fn invalid_dependency_kind_is_an_error() {
    let all = vec![task("a", &["Bogus:b"]), task("b", &[])];
    assert_eq!(execution_plan(&all[0], &all), Err(PlanError::InvalidKind));
}

#[test]
fn dependency_cycle_is_an_error() {
    let all = vec![task("a", &["b"]), task("b", &["a"])];
    assert_eq!(execution_plan(&all[0], &all), Err(PlanError::TooDeep));
}

#[test]
fn unset_runnable_runs_nothing() {
    let r = Runnable::default();
    assert_eq!(build_command(&r), None);
    assert_eq!(execution_plan(&r, &Vec::new()).unwrap(), Vec::<String>::new());
}

#[test]
fn references_name_a_kind_and_a_runnable() {
    assert_eq!(parse_variant("RustBin"), Some(RunnableParamsVariant::RustBin));
    assert_eq!(parse_variant("rustbin"), None);
    assert_eq!(split_reference("just-ls"), Some((RunnableParamsVariant::RunFile, "just-ls".to_string())));
    assert_eq!(split_reference("Shell:a:b"), Some((RunnableParamsVariant::Shell, "a:b".to_string())));
    assert_eq!(split_reference("Nope:x"), None);
}

#[test]
fn lookup_finds_the_first_match_or_says_why_not() {
    let mut sh = task("x", &[]);
    sh.params = RunnableParams::Shell(ShellParams {});
    let all = vec![task("y", &[]), sh, task("x", &[]), task("x", &[])];
    assert_eq!(find_runnable(&all, "x"), Ok(2));
    assert_eq!(find_runnable(&all, "Shell:x"), Ok(1));
    assert_eq!(find_runnable(&all, "RustLib:x"), Err(LookupError::NotFound));
    assert_eq!(find_runnable(&all, "Bad:x"), Err(LookupError::UnknownKind));
}

#[test]
fn shell_command_runs_the_script() {
    let r = Runnable {
        path: "/w/go.sh".to_string(),
        params: RunnableParams::Shell(ShellParams {}),
        ..Runnable::default()
    };
    assert_eq!(build_command(&r).unwrap(), "sh /w/go.sh");
}
