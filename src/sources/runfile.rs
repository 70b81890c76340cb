//! Tasks declared in `runfile.toml`.

use vstd::prelude::*;
use vstd::string::StringExecFns;
use crate::paths::{join, join_path};
use crate::sources::{cd_command, cd_then, DirSnapshot};
use crate::text::{clone_opt, clone_opt_list, opt_list_view, opt_view};
use crate::types::{ParamsView, Runnable, RunnableParams, RunnableView, runnable_views};

verus! {

/// The parameters of a task of a run file: the shell command it runs.
#[derive(Clone, Debug)]
pub struct RunFileParams {
    pub command: String,
}

/// One task of a run file.
#[derive(Clone, Debug)]
pub struct RunFileItem {
    /// The shell command to run.
    pub command: String,
    /// Other tasks to run before this one, in order from first to last.
    pub after: Option<Vec<String>>,
    /// What the task does.
    pub description: Option<String>,
    /// The working directory, relative to the directory of the run file.
    pub path: String,
}

/// The working directory of a task that names none.
pub fn default_path() -> (r: String)
    ensures
        r@ == "."@,
{
    String::from_str(".")
}

/// The runnable made from task `name` of the run file in `dir`.
pub open spec fn runfile_runnable(dir: Seq<char>, name: String, item: RunFileItem) -> RunnableView {
    RunnableView {
        name: name@,
        aliases: Seq::<Seq<char>>::empty(),
        display_name: None,
        description: opt_view(item.description),
        after: opt_list_view(item.after),
        path: join(dir, item.path@),
        index: 0,
        params: ParamsView::RunFile(item.command@),
    }
}

/// The runnables of the tasks `items` of the run file in `dir`, in order.
pub open spec fn runfile_runnables(dir: Seq<char>, items: Seq<(String, RunFileItem)>) -> Seq<
    RunnableView,
> {
    items.map_values(|e: (String, RunFileItem)| runfile_runnable(dir, e.0, e.1))
}

/// The runnables that the run-file source finds in `d`.
pub open spec fn runfile_scan(d: DirSnapshot) -> Seq<RunnableView> {
    match d.runfile {
        Some(items) => runfile_runnables(d.path@, items@),
        None => Seq::<RunnableView>::empty(),
    }
}

/// The source of tasks declared in `runfile.toml`.
pub struct RunFile;

impl RunFile {
    /// Appends one runnable per task of the directory's run file, in file order.
    pub fn add_runnable(dir: &DirSnapshot, runnables: &mut Vec<Runnable>)
        ensures
            runnable_views(final(runnables)@) == runnable_views(old(runnables)@) + runfile_scan(
                *dir,
            ),
    {
        let ghost start = runnable_views(runnables@);
        match &dir.runfile {
            None => {
                assert(runnable_views(runnables@) =~= start + runfile_scan(*dir));
            },
            Some(items) => {
                let mut i: usize = 0;
                while i < items.len()
                    invariant
                        dir.runfile == Some(*items),
                        i <= items@.len(),
                        runnable_views(runnables@) == start + runfile_runnables(
                            dir.path@,
                            items@.subrange(0, i as int),
                        ),
                    decreases items@.len() - i,
                {
                    let (name, item) = &items[i];
                    let r = Runnable {
                        name: name.clone(),
                        aliases: Vec::new(),
                        display_name: None,
                        description: clone_opt(&item.description),
                        after: clone_opt_list(&item.after),
                        path: join_path(dir.path.as_str(), item.path.as_str()),
                        index: 0,
                        params: RunnableParams::RunFile(RunFileParams { command: item.command.clone() }),
                    };
                    let ghost before = runnable_views(runnables@);
                    runnables.push(r);
                    i += 1;
                    assert(r@.aliases =~= Seq::<Seq<char>>::empty());
                    assert(runnable_views(runnables@) =~= before.push(r@));
                    assert(runfile_runnables(dir.path@, items@.subrange(0, i as int)) =~= runfile_runnables(
                        dir.path@,
                        items@.subrange(0, i - 1),
                    ).push(r@));
                }
                assert(items@.subrange(0, items@.len() as int) =~= items@);
            },
        }
    }

    /// `cd <path> && <command>`.
    pub fn command(runnable: &Runnable, params: &RunFileParams) -> (r: String)
        ensures
            r@ == cd_then(runnable.path@, params.command@),
    {
        cd_command(runnable.path.as_str(), params.command.as_str())
    }
}

} // verus!
