//! The discovery engine: include and ignore filters, the directory walk, and the
//! flattened, indexed output of all enabled sources.

use vstd::prelude::*;
use crate::sources::runfile::RunFile;
use crate::sources::rust_bin::RustBin;
use crate::sources::rust_lib::RustLib;
use crate::sources::shell::Shell;
use crate::sources::{scan, DirSnapshot};
use crate::string_list::{parse_string_list, string_list};
use crate::paths::{join, join_path};
use crate::text::{chars_of, eq_chars, string_views};
use crate::types::{Runnable, RunnableParamsVariant, RunnableView, runnable_views};

verus! {

/// `p` without its trailing separators.
pub open spec fn trim_trailing_seps(p: Seq<char>) -> Seq<char>
    decreases p.len(),
{
    if p.len() > 0 && p.last() == '/' {
        trim_trailing_seps(p.drop_last())
    } else {
        p
    }
}

/// The text after the last separator of `p`.
pub open spec fn after_last_sep(p: Seq<char>) -> Seq<char>
    decreases p.len(),
{
    if p.len() == 0 {
        p
    } else if p.last() == '/' {
        Seq::<char>::empty()
    } else {
        after_last_sep(p.drop_last()).push(p.last())
    }
}

/// The last component of a path: its final name, trailing separators aside.
pub open spec fn last_component(p: Seq<char>) -> Seq<char> {
    after_last_sep(trim_trailing_seps(p))
}

/// A directory that is never searched: build output, installed dependencies,
/// or version-control metadata.
pub open spec fn is_ignored_dir(p: Seq<char>) -> bool {
    let c = last_component(p);
    c == "target"@ || c == "node_modules"@ || c == ".git"@
}

/// Whether `path` names a directory that is never searched.
pub fn ignore_dir(path: &str) -> (r: bool)
    ensures
        r == is_ignored_dir(path@),
{
    let cs = chars_of(path);
    let n = cs.len();
    let mut e: usize = n;
    assert(cs@.subrange(0, n as int) =~= cs@);
    while e > 0 && cs[e - 1] == '/'
        invariant
            e <= n == cs@.len(),
            trim_trailing_seps(cs@.subrange(0, e as int)) == trim_trailing_seps(cs@),
        decreases e,
    {
        assert(cs@.subrange(0, e as int).drop_last() =~= cs@.subrange(0, e - 1));
        e -= 1;
    }
    let mut s: usize = e;
    assert(cs@.subrange(s as int, e as int) =~= Seq::<char>::empty());
    assert(after_last_sep(cs@.subrange(0, e as int)) =~= after_last_sep(cs@.subrange(0, s as int))
        + cs@.subrange(s as int, e as int));
    while s > 0 && cs[s - 1] != '/'
        invariant
            s <= e <= n == cs@.len(),
            after_last_sep(cs@.subrange(0, e as int)) == after_last_sep(cs@.subrange(0, s as int))
                + cs@.subrange(s as int, e as int),
        decreases s,
    {
        assert(cs@.subrange(0, s as int).drop_last() =~= cs@.subrange(0, s - 1));
        assert(cs@.subrange(s - 1, e as int) =~= seq![cs@[s - 1]] + cs@.subrange(s as int, e as int));
        assert(after_last_sep(cs@.subrange(0, s as int)) =~= after_last_sep(cs@.subrange(0, s - 1)).push(cs@[s - 1]));
        s -= 1;
    }
    assert(after_last_sep(cs@.subrange(0, s as int)) =~= Seq::<char>::empty());
    assert(Seq::<char>::empty() + cs@.subrange(s as int, e as int) =~= cs@.subrange(s as int, e as int));
    let mut component: Vec<char> = Vec::new();
    let mut k: usize = s;
    while k < e
        invariant
            s <= k <= e <= n == cs@.len(),
            component@ == cs@.subrange(s as int, k as int),
        decreases e - k,
    {
        component.push(cs[k]);
        k += 1;
        assert(component@ =~= cs@.subrange(s as int, k as int));
    }
    let target = chars_of("target");
    let node_modules = chars_of("node_modules");
    let git = chars_of(".git");
    eq_chars(&component, &target) || eq_chars(&component, &node_modules) || eq_chars(&component, &git)
}

/// Whether `s` equals one of the strings of `v`.
pub fn contains_string(v: &Vec<String>, s: &String) -> (r: bool)
    ensures
        r == string_views(v@).contains(s@),
{
    let mut i: usize = 0;
    while i < v.len()
        invariant
            i <= v@.len(),
            forall|k: int| 0 <= k < i ==> v@[k]@ != s@,
        decreases v@.len() - i,
    {
        if v[i] == *s {
            assert(string_views(v@)[i as int] == s@);
            return true;
        }
        i += 1;
    }
    proof {
        if string_views(v@).contains(s@) {
            let k = choose|k: int| 0 <= k < string_views(v@).len() && string_views(v@)[k] == s@;
            assert(v@[k]@ == s@);
        }
    }
    false
}

/// Whether the walk enters a child directory at `path`, whose canonical form
/// is `canonical`: never into a built-in exclusion; only into an include when
/// there are includes; never into an exclude.
pub open spec fn enters(
    includes: Seq<Seq<char>>,
    excludes: Seq<Seq<char>>,
    path: Seq<char>,
    canonical: Seq<char>,
) -> bool {
    &&& !is_ignored_dir(path)
    &&& includes.len() == 0 || includes.contains(canonical)
    &&& !excludes.contains(canonical)
}

/// The canonical directories that the walk is limited to, and those it skips.
#[derive(Clone, Debug)]
pub struct PathFilterSet {
    pub includes: Vec<String>,
    pub excludes: Vec<String>,
}

/// A subdirectory found while walking.
#[derive(Clone, Debug)]
pub struct ChildDir {
    /// The parent's path joined with the entry's name.
    pub path: String,
    /// The canonical form of `path`.
    pub canonical: String,
}

impl PathFilterSet {
    /// No includes and no excludes.
    pub fn new() -> (r: PathFilterSet)
        ensures
            r.includes@.len() == 0,
            r.excludes@.len() == 0,
    {
        PathFilterSet { includes: Vec::new(), excludes: Vec::new() }
    }

    /// Whether the walk enters `child`.
    pub fn allows(&self, child: &ChildDir) -> (r: bool)
        ensures
            r == enters(
                string_views(self.includes@),
                string_views(self.excludes@),
                child.path@,
                child.canonical@,
            ),
            is_ignored_dir(child.path@) ==> !r,
    {
        if ignore_dir(child.path.as_str()) {
            return false;
        }
        if self.includes.len() > 0 && !contains_string(&self.includes, &child.canonical) {
            return false;
        }
        !contains_string(&self.excludes, &child.canonical)
    }

    /// Adds canonical directories to the includes.
    pub fn add_includes(&mut self, entries: &Vec<String>)
        ensures
            string_views(final(self).includes@) == string_views(old(self).includes@)
                + string_views(entries@),
            final(self).excludes == old(self).excludes,
    {
        append_strings(&mut self.includes, entries);
    }

    /// Adds canonical directories to the excludes.
    pub fn add_excludes(&mut self, entries: &Vec<String>)
        ensures
            string_views(final(self).excludes@) == string_views(old(self).excludes@)
                + string_views(entries@),
            final(self).includes == old(self).includes,
    {
        append_strings(&mut self.excludes, entries);
    }
}

/// Appends copies of `entries` to `v`.
fn append_strings(v: &mut Vec<String>, entries: &Vec<String>)
    ensures
        string_views(final(v)@) == string_views(old(v)@) + string_views(entries@),
{
    let ghost start = v@;
    let mut i: usize = 0;
    while i < entries.len()
        invariant
            i <= entries@.len(),
            v@.len() == start.len() + i,
            forall|k: int| 0 <= k < start.len() ==> #[trigger] v@[k] == start[k],
            forall|k: int| 0 <= k < i ==> #[trigger] v@[start.len() + k]@ == entries@[k]@,
        decreases entries@.len() - i,
    {
        let s = entries[i].clone();
        v.push(s);
        i += 1;
    }
    assert forall|k: int| 0 <= k < v@.len() implies #[trigger] string_views(v@)[k] == (string_views(start) + string_views(entries@))[k] by {
        if k >= start.len() {
            assert(v@[start.len() + (k - start.len())]@ == entries@[k - start.len()]@);
        }
    }
    assert(string_views(v@) =~= string_views(start) + string_views(entries@));
}

/// The entries of a `.runinclude` or `.runignore` file in `dir`, each joined
/// to `dir`; they still have to be made canonical.
pub open spec fn marker_entries(dir: Seq<char>, contents: Seq<char>) -> Seq<Seq<char>> {
    string_list(contents).map_values(|e: Seq<char>| join(dir, e))
}

/// The paths that a `.runinclude` or `.runignore` file in `dir` names.
pub fn resolve_entries(dir: &str, contents: &str) -> (r: Vec<String>)
    ensures
        string_views(r@) == marker_entries(dir@, contents@),
{
    let entries = parse_string_list(contents);
    let mut r: Vec<String> = Vec::new();
    let mut i: usize = 0;
    while i < entries.len()
        invariant
            i <= entries@.len(),
            string_views(entries@) == string_list(contents@),
            r@.len() == i,
            forall|k: int| 0 <= k < i ==> #[trigger] r@[k]@ == join(dir@, entries@[k]@),
        decreases entries@.len() - i,
    {
        assert(string_views(entries@)[i as int] == entries@[i as int]@);
        r.push(join_path(dir, entries[i].as_str()));
        i += 1;
    }
    assert(string_views(r@) =~= marker_entries(dir@, contents@));
    r
}

/// The order in which the walk visits the children it enters: last pushed,
/// first visited, so the pending stack holds them in reverse.
pub open spec fn entered_reversed(
    includes: Seq<Seq<char>>,
    excludes: Seq<Seq<char>>,
    children: Seq<ChildDir>,
) -> Seq<Seq<char>>
    decreases children.len(),
{
    if children.len() == 0 {
        Seq::<Seq<char>>::empty()
    } else {
        let rest = entered_reversed(includes, excludes, children.subrange(1, children.len() as int));
        let c = children[0];
        if enters(includes, excludes, c.path@, c.canonical@) {
            rest.push(c.path@)
        } else {
            rest
        }
    }
}

/// Built-in exclusions hold whatever the include and ignore lists say, empty
/// or not: the walk never schedules a directory named like build output,
/// installed dependencies or version-control metadata.
pub proof fn lemma_walk_skips_builtin_exclusions(
    includes: Seq<Seq<char>>,
    excludes: Seq<Seq<char>>,
    children: Seq<ChildDir>,
)
    ensures
        forall|k: int|
            0 <= k < entered_reversed(includes, excludes, children).len() ==> !is_ignored_dir(
                #[trigger] entered_reversed(includes, excludes, children)[k],
            ),
    decreases children.len(),
{
    if children.len() > 0 {
        let tail = children.subrange(1, children.len() as int);
        lemma_walk_skips_builtin_exclusions(includes, excludes, tail);
        let rest = entered_reversed(includes, excludes, tail);
        let all = entered_reversed(includes, excludes, children);
        assert forall|k: int| 0 <= k < all.len() implies !is_ignored_dir(#[trigger] all[k]) by {
            if k < rest.len() {
                assert(all[k] == rest[k]);
            }
        }
    }
}

/// A depth-first, pre-order walk of a directory tree, driven from outside:
/// the caller takes the next directory, reads it, and hands back its children.
pub struct Walk {
    /// The directories still to visit; the last is visited next.
    pub pending: Vec<String>,
}

impl Walk {
    /// A walk that starts at `root`.
    pub fn new(root: String) -> (r: Walk)
        ensures
            string_views(r.pending@) == seq![root@],
    {
        let mut pending: Vec<String> = Vec::new();
        pending.push(root);
        assert(string_views(pending@) =~= seq![root@]);
        Walk { pending }
    }

    /// The next directory to visit, or `None` when the walk is over.
    pub fn next_dir(&mut self) -> (r: Option<String>)
        ensures
            old(self).pending@.len() == 0 ==> r is None && final(self).pending@.len() == 0,
            old(self).pending@.len() > 0 ==> r is Some && r->0@ == old(self).pending@.last()@
                && final(self).pending@ == old(self).pending@.drop_last(),
    {
        self.pending.pop()
    }

    /// Schedules the children of the directory just visited that the filters
    /// let the walk enter, so that they are visited in listing order.
    pub fn descend(&mut self, children: &Vec<ChildDir>, filters: &PathFilterSet)
        ensures
            string_views(final(self).pending@) == string_views(old(self).pending@) + entered_reversed(
                string_views(filters.includes@),
                string_views(filters.excludes@),
                children@,
            ),
    {
        let ghost inc = string_views(filters.includes@);
        let ghost exc = string_views(filters.excludes@);
        let ghost start = string_views(self.pending@);
        let mut i: usize = children.len();
        assert(children@.subrange(children@.len() as int, children@.len() as int) =~= Seq::<
            ChildDir,
        >::empty());
        assert(start + Seq::<Seq<char>>::empty() =~= start);
        while i > 0
            invariant
                inc == string_views(filters.includes@),
                exc == string_views(filters.excludes@),
                i <= children@.len(),
                string_views(self.pending@) == start + entered_reversed(
                    inc,
                    exc,
                    children@.subrange(i as int, children@.len() as int),
                ),
            decreases i,
        {
            let child = &children[i - 1];
            let ghost tail = children@.subrange(i - 1, children@.len() as int);
            assert(tail.subrange(1, tail.len() as int) =~= children@.subrange(
                i as int,
                children@.len() as int,
            ));
            assert(tail[0] == *child);
            let ghost rest = entered_reversed(inc, exc, tail.subrange(1, tail.len() as int));
            assert(entered_reversed(inc, exc, tail) == if enters(inc, exc, child.path@, child.canonical@) {
                rest.push(child.path@)
            } else {
                rest
            });
            if filters.allows(child) {
                let ghost before = self.pending@;
                self.pending.push(child.path.clone());
                assert(string_views(self.pending@) =~= string_views(before).push(child.path@));
                assert(string_views(self.pending@) =~= start + rest.push(child.path@));
            }
            i -= 1;
        }
        assert(children@.subrange(0, children@.len() as int) =~= children@);
    }
}

/// The runnables that the source of kind `kind` finds in the directories
/// `dirs`, directory after directory.
pub open spec fn kind_pass(kind: RunnableParamsVariant, dirs: Seq<DirSnapshot>) -> Seq<RunnableView>
    decreases dirs.len(),
{
    if dirs.len() == 0 {
        Seq::<RunnableView>::empty()
    } else {
        kind_pass(kind, dirs.drop_last()) + scan(kind, dirs.last())
    }
}

/// The sources, in priority order.
pub open spec fn source_order() -> Seq<RunnableParamsVariant> {
    seq![
        RunnableParamsVariant::RunFile,
        RunnableParamsVariant::Shell,
        RunnableParamsVariant::RustBin,
        RunnableParamsVariant::RustLib,
    ]
}

/// The output of the sources `kinds` that `ignore` does not hold, one after the other.
pub open spec fn passes(
    kinds: Seq<RunnableParamsVariant>,
    dirs: Seq<DirSnapshot>,
    ignore: Seq<RunnableParamsVariant>,
) -> Seq<RunnableView>
    decreases kinds.len(),
{
    if kinds.len() == 0 {
        Seq::<RunnableView>::empty()
    } else {
        let prev = passes(kinds.drop_last(), dirs, ignore);
        if ignore.contains(kinds.last()) {
            prev
        } else {
            prev + kind_pass(kinds.last(), dirs)
        }
    }
}

/// `rs` with each record's index set to its position.
pub open spec fn with_indices(rs: Seq<RunnableView>) -> Seq<RunnableView> {
    Seq::new(rs.len(), |i: int| RunnableView { index: i as usize, ..rs[i] })
}

/// All runnables of one discovery pass over `dirs` (the directories of the
/// walk, in visiting order), the sources in `ignore` left out.
pub open spec fn discovered(dirs: Seq<DirSnapshot>, ignore: Seq<RunnableParamsVariant>) -> Seq<
    RunnableView,
> {
    with_indices(passes(source_order(), dirs, ignore))
}

/// Appends what the source of kind `kind` finds in each of `dirs`.
fn add_runnables(kind: RunnableParamsVariant, dirs: &Vec<DirSnapshot>, runnables: &mut Vec<Runnable>)
    requires
        kind != RunnableParamsVariant::Unset,
    ensures
        runnable_views(final(runnables)@) == runnable_views(old(runnables)@) + kind_pass(kind, dirs@),
{
    let ghost start = runnable_views(runnables@);
    let mut i: usize = 0;
    assert(dirs@.subrange(0, 0) =~= Seq::<DirSnapshot>::empty());
    assert(start + Seq::<RunnableView>::empty() =~= start);
    while i < dirs.len()
        invariant
            kind != RunnableParamsVariant::Unset,
            i <= dirs@.len(),
            runnable_views(runnables@) == start + kind_pass(kind, dirs@.subrange(0, i as int)),
        decreases dirs@.len() - i,
    {
        let dir = &dirs[i];
        let ghost before = runnable_views(runnables@);
        match kind {
            RunnableParamsVariant::RunFile => RunFile::add_runnable(dir, runnables),
            RunnableParamsVariant::Shell => Shell::add_runnable(dir, runnables),
            RunnableParamsVariant::RustBin => RustBin::add_runnable(dir, runnables),
            _ => RustLib::add_runnable(dir, runnables),
        }
        assert(runnable_views(runnables@) == before + scan(kind, dirs@[i as int]));
        let ghost next = dirs@.subrange(0, i + 1);
        assert(next.drop_last() =~= dirs@.subrange(0, i as int));
        i += 1;
        assert(runnable_views(runnables@) =~= start + kind_pass(kind, dirs@.subrange(0, i as int)));
    }
    assert(dirs@.subrange(0, dirs@.len() as int) =~= dirs@);
}

/// Whether `kind` is among `kinds`.
fn contains_kind(kinds: &Vec<RunnableParamsVariant>, kind: RunnableParamsVariant) -> (r: bool)
    ensures
        r == kinds@.contains(kind),
{
    let mut i: usize = 0;
    while i < kinds.len()
        invariant
            i <= kinds@.len(),
            forall|k: int| 0 <= k < i ==> kinds@[k] != kind,
        decreases kinds@.len() - i,
    {
        if kinds[i] == kind {
            return true;
        }
        i += 1;
    }
    false
}

/// Sets the index of each runnable to its position.
pub fn assign_indices(runnables: &mut Vec<Runnable>)
    ensures
        runnable_views(final(runnables)@) == with_indices(runnable_views(old(runnables)@)),
{
    let ghost start = runnable_views(runnables@);
    let mut i: usize = 0;
    while i < runnables.len()
        invariant
            i <= runnables@.len() == start.len(),
            forall|k: int| 0 <= k < i ==> #[trigger] runnables@[k]@ == (RunnableView { index: k as usize, ..start[k] }),
            forall|k: int| i <= k < start.len() ==> #[trigger] runnables@[k]@ == start[k],
        decreases start.len() - i,
    {
        let ghost before = runnables@;
        runnables[i].index = i;
        assert(before[i as int]@ == start[i as int]);
        assert(runnables@[i as int]@ == (RunnableView { index: i, ..start[i as int] }));
        assert(forall|k: int| 0 <= k < runnables@.len() && k != i ==> runnables@[k] == before[k]);
        i += 1;
    }
    assert(runnable_views(runnables@) =~= with_indices(start));
}

/// Runs every source not in `ignore` over the walked directories `dirs`, in
/// the order run file, shell, binary package, library package, and numbers the
/// runnables by their position in the result.
pub fn get_runnables(dirs: &Vec<DirSnapshot>, ignore: &Vec<RunnableParamsVariant>) -> (r: Vec<
    Runnable,
>)
    ensures
        runnable_views(r@) == discovered(dirs@, ignore@),
        forall|i: int| 0 <= i < r@.len() ==> #[trigger] r@[i].index == i,
        forall|i: int, j: int|
            0 <= i < r@.len() && 0 <= j < r@.len() && i != j ==> #[trigger] r@[i].index
                != #[trigger] r@[j].index,
{
    let mut runnables: Vec<Runnable> = Vec::new();
    let order: Vec<RunnableParamsVariant> = vec![
        RunnableParamsVariant::RunFile,
        RunnableParamsVariant::Shell,
        RunnableParamsVariant::RustBin,
        RunnableParamsVariant::RustLib,
    ];
    assert(order@ == source_order());
    let mut i: usize = 0;
    assert(runnable_views(runnables@) =~= passes(order@.subrange(0, 0), dirs@, ignore@));
    while i < order.len()
        invariant
            order@ == source_order(),
            i <= order@.len(),
            runnable_views(runnables@) == passes(order@.subrange(0, i as int), dirs@, ignore@),
        decreases order@.len() - i,
    {
        let kind = order[i];
        let ghost next = order@.subrange(0, i + 1);
        assert(next.drop_last() =~= order@.subrange(0, i as int));
        if !contains_kind(ignore, kind) {
            add_runnables(kind, dirs, &mut runnables);
        }
        i += 1;
    }
    assert(order@.subrange(0, order@.len() as int) =~= order@);
    assign_indices(&mut runnables);
    let n = runnables.len();
    proof {
        let p = passes(source_order(), dirs@, ignore@);
        assert(runnable_views(runnables@).len() == n);
        assert forall|i: int| 0 <= i < n implies #[trigger] runnables@[i].index == i by {
            assert(runnable_views(runnables@)[i] == runnables@[i]@);
            assert(with_indices(p)[i].index == i as usize);
        }
    }
    runnables
}

} // verus!
