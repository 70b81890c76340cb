//! Shell scripts lying directly in a directory.

use vstd::prelude::*;
use vstd::string::StringExecFns;
use crate::paths::{join, join_path};
use crate::sources::DirSnapshot;
use crate::text::chars_of;
use crate::types::{ParamsView, Runnable, RunnableParams, RunnableView, runnable_views};

verus! {

/// The parameters of a shell script: it runs as it is.
#[derive(Clone, Debug)]
pub struct ShellParams {}

/// A file name whose extension is `sh`, as `Path::extension` finds it: the
/// text after the last dot, where something precedes that dot.
pub open spec fn has_sh_extension(name: Seq<char>) -> bool {
    &&& name.len() > 3
    &&& name[name.len() - 3] == '.'
    &&& name[name.len() - 2] == 's'
    &&& name[name.len() - 1] == 'h'
}

/// The runnable of script `name` in `dir`.
pub open spec fn shell_runnable(dir: Seq<char>, name: Seq<char>) -> RunnableView {
    RunnableView {
        name: join(dir, name),
        aliases: Seq::<Seq<char>>::empty(),
        display_name: None,
        description: None,
        after: None,
        path: join(dir, name),
        index: 0,
        params: ParamsView::Shell,
    }
}

/// The runnables of the scripts among the files `names` of `dir`, in order.
pub open spec fn shell_runnables(dir: Seq<char>, names: Seq<String>) -> Seq<RunnableView>
    decreases names.len(),
{
    if names.len() == 0 {
        Seq::<RunnableView>::empty()
    } else {
        let prev = shell_runnables(dir, names.drop_last());
        if has_sh_extension(names.last()@) {
            prev.push(shell_runnable(dir, names.last()@))
        } else {
            prev
        }
    }
}

/// The runnables that the shell source finds in `d`.
pub open spec fn shell_scan(d: DirSnapshot) -> Seq<RunnableView> {
    shell_runnables(d.path@, d.files@)
}

/// Whether the file `name` is a shell script.
pub fn is_shell_script(name: &str) -> (r: bool)
    ensures
        r == has_sh_extension(name@),
{
    let cs = chars_of(name);
    let n = cs.len();
    n > 3 && cs[n - 3] == '.' && cs[n - 2] == 's' && cs[n - 1] == 'h'
}

/// The source of shell scripts.
pub struct Shell;

impl Shell {
    /// Appends one runnable per shell script among the directory's files, in listing order.
    pub fn add_runnable(dir: &DirSnapshot, runnables: &mut Vec<Runnable>)
        ensures
            runnable_views(final(runnables)@) == runnable_views(old(runnables)@) + shell_scan(*dir),
    {
        let ghost start = runnable_views(runnables@);
        let mut i: usize = 0;
        assert(shell_runnables(dir.path@, dir.files@.subrange(0, 0)) =~= Seq::<RunnableView>::empty());
        assert(start + Seq::<RunnableView>::empty() =~= start);
        while i < dir.files.len()
            invariant
                i <= dir.files@.len(),
                runnable_views(runnables@) == start + shell_runnables(
                    dir.path@,
                    dir.files@.subrange(0, i as int),
                ),
            decreases dir.files@.len() - i,
        {
            let name = &dir.files[i];
            let ghost done = dir.files@.subrange(0, i as int);
            let ghost next = dir.files@.subrange(0, i + 1);
            assert(next.drop_last() =~= done);
            if is_shell_script(name.as_str()) {
                let script = join_path(dir.path.as_str(), name.as_str());
                let r = Runnable {
                    name: script.clone(),
                    aliases: Vec::new(),
                    display_name: None,
                    description: None,
                    after: None,
                    path: script,
                    index: 0,
                    params: RunnableParams::Shell(ShellParams {  }),
                };
                let ghost before = runnable_views(runnables@);
                runnables.push(r);
                assert(r@.aliases =~= Seq::<Seq<char>>::empty());
                assert(runnable_views(runnables@) =~= before.push(r@));
            }
            i += 1;
        }
        assert(dir.files@.subrange(0, dir.files@.len() as int) =~= dir.files@);
    }

    /// `sh <script>`.
    pub fn command(runnable: &Runnable, params: &ShellParams) -> (r: String)
        ensures
            r@ == "sh "@ + runnable.path@,
    {
        let mut r = String::from_str("sh ");
        r.append(runnable.path.as_str());
        r
    }
}

} // verus!
