//! The execution coordinator: looking runnables up by reference, composing
//! their commands, and ordering the commands of their dependencies first.

use vstd::prelude::*;
use crate::sources::cd_then;
use crate::sources::runfile::{runfile_runnables, RunFile, RunFileItem};
use crate::paths::join;
use crate::sources::rust_bin::{bin_command_text, RustBin};
use crate::sources::rust_lib::{lib_command_text, RustLib};
use crate::sources::shell::Shell;
use crate::text::{chars_of, eq_chars, string_of, string_views};
use crate::types::{kind_of, ParamsView, Runnable, RunnableParams, RunnableParamsVariant, RunnableView, runnable_views};

verus! {

/// The kind that a name in a reference denotes.
pub open spec fn variant_named(s: Seq<char>) -> Option<RunnableParamsVariant> {
    if s == "RunFile"@ {
        Some(RunnableParamsVariant::RunFile)
    } else if s == "Shell"@ {
        Some(RunnableParamsVariant::Shell)
    } else if s == "RustBin"@ {
        Some(RunnableParamsVariant::RustBin)
    } else if s == "RustLib"@ {
        Some(RunnableParamsVariant::RustLib)
    } else if s == "None"@ {
        Some(RunnableParamsVariant::Unset)
    } else {
        None
    }
}

/// The kind named `s`, if it names one.
pub fn parse_variant(s: &str) -> (r: Option<RunnableParamsVariant>)
    ensures
        r == variant_named(s@),
{
    let cs = chars_of(s);
    if eq_chars(&cs, &chars_of("RunFile")) {
        Some(RunnableParamsVariant::RunFile)
    } else if eq_chars(&cs, &chars_of("Shell")) {
        Some(RunnableParamsVariant::Shell)
    } else if eq_chars(&cs, &chars_of("RustBin")) {
        Some(RunnableParamsVariant::RustBin)
    } else if eq_chars(&cs, &chars_of("RustLib")) {
        Some(RunnableParamsVariant::RustLib)
    } else if eq_chars(&cs, &chars_of("None")) {
        Some(RunnableParamsVariant::Unset)
    } else {
        None
    }
}

/// `s` split at its first colon, if it has one.
pub open spec fn split_at_colon(s: Seq<char>) -> Option<(Seq<char>, Seq<char>)>
    decreases s.len(),
{
    if s.len() == 0 {
        None
    } else if s[0] == ':' {
        Some((Seq::<char>::empty(), s.subrange(1, s.len() as int)))
    } else {
        match split_at_colon(s.subrange(1, s.len() as int)) {
            Some(p) => Some((seq![s[0]] + p.0, p.1)),
            None => None,
        }
    }
}

proof fn lemma_split_at_colon(s: Seq<char>, i: int)
    requires
        0 <= i <= s.len(),
        forall|j: int| 0 <= j < i ==> s[j] != ':',
    ensures
        i < s.len() && s[i] == ':' ==> split_at_colon(s) == Some(
            (s.subrange(0, i), s.subrange(i + 1, s.len() as int)),
        ),
        i == s.len() ==> split_at_colon(s) is None,
    decreases i,
{
    if i > 0 {
        let rest = s.subrange(1, s.len() as int);
        lemma_split_at_colon(rest, i - 1);
        assert(seq![s[0]] + rest.subrange(0, i - 1) =~= s.subrange(0, i));
        if i < s.len() {
            assert(rest.subrange(i, rest.len() as int) =~= s.subrange(i + 1, s.len() as int));
        }
    } else if s.len() > 0 {
        assert(s.subrange(0, 0) =~= Seq::<char>::empty());
    }
}

/// The kind and name that a reference `"Kind:name"` or `"name"` denotes; a
/// bare name refers to a run-file task. `None` when the kind is not a kind.
pub open spec fn parse_reference(r: Seq<char>) -> Option<(RunnableParamsVariant, Seq<char>)> {
    match split_at_colon(r) {
        Some(p) => match variant_named(p.0) {
            Some(k) => Some((k, p.1)),
            None => None,
        },
        None => Some((RunnableParamsVariant::RunFile, r)),
    }
}

/// Splits a reference into its kind and name.
pub fn split_reference(reference: &str) -> (r: Option<(RunnableParamsVariant, String)>)
    ensures
        match (parse_reference(reference@), r) {
            (Some(p), Some(q)) => q.0 == p.0 && q.1@ == p.1,
            (None, None) => true,
            _ => false,
        },
{
    let cs = chars_of(reference);
    let n = cs.len();
    let mut i: usize = 0;
    while i < n && cs[i] != ':'
        invariant
            n == cs@.len(),
            i <= n,
            forall|j: int| 0 <= j < i ==> cs@[j] != ':',
        decreases n - i,
    {
        i += 1;
    }
    proof {
        lemma_split_at_colon(reference@, i as int);
    }
    if i == n {
        let name = string_of(&cs, 0, n);
        assert(cs@.subrange(0, n as int) =~= reference@);
        return Some((RunnableParamsVariant::RunFile, name));
    }
    let kind_text = string_of(&cs, 0, i);
    match parse_variant(kind_text.as_str()) {
        Some(kind) => Some((kind, string_of(&cs, i + 1, n))),
        None => None,
    }
}

/// Whether `r` is of kind `kind` and named `name`.
pub open spec fn is_target(r: RunnableView, kind: RunnableParamsVariant, name: Seq<char>) -> bool {
    kind_of(r.params) == kind && r.name == name
}

/// The position of the first runnable of `rs` of kind `kind` named `name`.
pub open spec fn first_target(rs: Seq<RunnableView>, kind: RunnableParamsVariant, name: Seq<char>) -> Option<int>
    decreases rs.len(),
{
    if rs.len() == 0 {
        None
    } else {
        match first_target(rs.drop_last(), kind, name) {
            Some(i) => Some(i),
            None => if is_target(rs.last(), kind, name) {
                Some(rs.len() - 1)
            } else {
                None
            },
        }
    }
}

/// The position of the first runnable of kind `kind` named `name`.
pub fn find_target(runnables: &Vec<Runnable>, kind: RunnableParamsVariant, name: &String) -> (r: Option<usize>)
    ensures
        match first_target(runnable_views(runnables@), kind, name@) {
            Some(i) => r is Some && r->0 == i && i < runnables@.len(),
            None => r is None,
        },
{
    let ghost rs = runnable_views(runnables@);
    let mut i: usize = 0;
    assert(rs.subrange(0, 0) =~= Seq::<RunnableView>::empty());
    while i < runnables.len()
        invariant
            rs == runnable_views(runnables@),
            i <= runnables@.len(),
            first_target(rs.subrange(0, i as int), kind, name@) is None,
        decreases runnables@.len() - i,
    {
        let r = &runnables[i];
        let ghost next = rs.subrange(0, i + 1);
        assert(next.drop_last() =~= rs.subrange(0, i as int));
        assert(next.last() == r@);
        if r.params.extract_variant() == kind && r.name == *name {
            proof { lemma_first_target_prefix(rs, kind, name@, i + 1); }
            return Some(i);
        }
        i += 1;
    }
    assert(rs.subrange(0, rs.len() as int) =~= rs);
    None
}

proof fn lemma_first_target_prefix(rs: Seq<RunnableView>, kind: RunnableParamsVariant, name: Seq<char>, n: int)
    requires
        0 <= n <= rs.len(),
        first_target(rs.subrange(0, n), kind, name) is Some,
    ensures
        first_target(rs, kind, name) == first_target(rs.subrange(0, n), kind, name),
    decreases rs.len() - n,
{
    if n < rs.len() {
        let next = rs.subrange(0, n + 1);
        assert(next.drop_last() =~= rs.subrange(0, n));
        lemma_first_target_prefix(rs, kind, name, n + 1);
    } else {
        assert(rs.subrange(0, n) =~= rs);
    }
}

/// Why a reference finds no runnable.
#[derive(Clone, Copy, Debug, PartialEq, Eq, Structural)]
pub enum LookupError {
    /// The text before the colon names no kind.
    UnknownKind,
    /// No runnable has that kind and name.
    NotFound,
}

/// The runnable that `reference` denotes in `rs`.
pub open spec fn resolve(rs: Seq<RunnableView>, reference: Seq<char>) -> Result<int, LookupError> {
    match parse_reference(reference) {
        None => Err(LookupError::UnknownKind),
        Some(p) => match first_target(rs, p.0, p.1) {
            Some(i) => Ok(i),
            None => Err(LookupError::NotFound),
        },
    }
}

/// The position of the first runnable that `reference` (`"Kind:name"`, or a
/// bare run-file task name) denotes.
pub fn find_runnable(runnables: &Vec<Runnable>, reference: &str) -> (r: Result<usize, LookupError>)
    ensures
        match resolve(runnable_views(runnables@), reference@) {
            Ok(i) => r is Ok && r->Ok_0 == i && i < runnables@.len(),
            Err(e) => r == Err::<usize, LookupError>(e),
        },
{
    match split_reference(reference) {
        None => Err(LookupError::UnknownKind),
        Some((kind, name)) => match find_target(runnables, kind, &name) {
            Some(i) => Ok(i),
            None => Err(LookupError::NotFound),
        },
    }
}

/// The shell command of a runnable, by its kind.
pub open spec fn command_of(r: RunnableView) -> Option<Seq<char>> {
    match r.params {
        ParamsView::RunFile(c) => Some(cd_then(r.path, c)),
        ParamsView::Shell => Some("sh "@ + r.path),
        ParamsView::RustBin(c) => Some(cd_then(r.path, bin_command_text(c))),
        ParamsView::RustLib(c) => Some(cd_then(r.path, lib_command_text(c))),
        ParamsView::Unset => None,
    }
}

/// The shell command of `runnable`; none while nothing is chosen.
pub fn build_command(runnable: &Runnable) -> (r: Option<String>)
    ensures
        match command_of(runnable@) {
            Some(c) => r is Some && r->0@ == c,
            None => r is None,
        },
{
    match &runnable.params {
        RunnableParams::RunFile(p) => Some(RunFile::command(runnable, p)),
        RunnableParams::Shell(p) => Some(Shell::command(runnable, p)),
        RunnableParams::RustBin(p) => Some(RustBin::command(runnable, p)),
        RunnableParams::RustLib(p) => Some(RustLib::command(runnable, p)),
        RunnableParams::Unset => None,
    }
}

/// Why no execution plan could be made.
#[derive(Clone, Copy, Debug, PartialEq, Eq, Structural)]
pub enum PlanError {
    /// A dependency reference names no kind.
    InvalidKind,
    /// Dependencies nest deeper than there are runnables: they form a cycle.
    TooDeep,
}

/// The dependencies of `r`, in order.
pub open spec fn deps_of(r: RunnableView) -> Seq<Seq<char>> {
    match r.after {
        Some(a) => a,
        None => Seq::<Seq<char>>::empty(),
    }
}

/// The commands that running `r` executes, in order: those of its
/// dependencies first, each with its own dependencies before it, then its
/// own. Dependencies that find no runnable are skipped. A runnable with no
/// chosen parameters runs nothing. `fuel` bounds the nesting.
pub open spec fn plan(rs: Seq<RunnableView>, r: RunnableView, fuel: nat) -> Result<
    Seq<Seq<char>>,
    PlanError,
>
    decreases fuel, 0nat,
{
    if r.params is Unset {
        Ok(Seq::<Seq<char>>::empty())
    } else if fuel == 0 {
        Err(PlanError::TooDeep)
    } else {
        match plan_deps(rs, deps_of(r), (fuel - 1) as nat) {
            Ok(pre) => Ok(pre.push(command_of(r)->0)),
            Err(e) => Err(e),
        }
    }
}

/// The commands of the dependencies `deps`, one after the other.
pub open spec fn plan_deps(rs: Seq<RunnableView>, deps: Seq<Seq<char>>, fuel: nat) -> Result<
    Seq<Seq<char>>,
    PlanError,
>
    decreases fuel, deps.len(),
{
    if deps.len() == 0 {
        Ok(Seq::<Seq<char>>::empty())
    } else {
        match plan_deps(rs, deps.drop_last(), fuel) {
            Err(e) => Err(e),
            Ok(pre) => match parse_reference(deps.last()) {
                None => Err(PlanError::InvalidKind),
                Some(p) => match first_target(rs, p.0, p.1) {
                    None => Ok(pre),
                    Some(i) => if 0 <= i < rs.len() {
                        match plan(rs, rs[i], fuel) {
                            Ok(c) => Ok(pre + c),
                            Err(e) => Err(e),
                        }
                    } else {
                        Ok(pre)
                    },
                },
            },
        }
    }
}

proof fn lemma_first_target_in_bounds(rs: Seq<RunnableView>, kind: RunnableParamsVariant, name: Seq<char>)
    ensures
        first_target(rs, kind, name) matches Some(i) ==> 0 <= i < rs.len() && is_target(rs[i], kind, name),
    decreases rs.len(),
{
    if rs.len() > 0 {
        lemma_first_target_in_bounds(rs.drop_last(), kind, name);
    }
}

proof fn lemma_plan_deps_err_prefix(rs: Seq<RunnableView>, ds: Seq<Seq<char>>, fuel: nat, n: int)
    requires
        0 <= n <= ds.len(),
        plan_deps(rs, ds.subrange(0, n), fuel) is Err,
    ensures
        plan_deps(rs, ds, fuel) == plan_deps(rs, ds.subrange(0, n), fuel),
    decreases ds.len() - n,
{
    if n < ds.len() {
        let next = ds.subrange(0, n + 1);
        assert(next.drop_last() =~= ds.subrange(0, n));
        lemma_plan_deps_err_prefix(rs, ds, fuel, n + 1);
    } else {
        assert(ds.subrange(0, n) =~= ds);
    }
}

/// Appends the commands of running `r` to `out`.
fn plan_into(runnables: &Vec<Runnable>, r: &Runnable, fuel: usize, out: &mut Vec<String>) -> (res:
    Result<(), PlanError>)
    ensures
        match plan(runnable_views(runnables@), r@, fuel as nat) {
            Ok(c) => res is Ok && string_views(final(out)@) == string_views(old(out)@) + c,
            Err(e) => res == Err::<(), PlanError>(e),
        },
    decreases fuel, 0nat,
{
    if let RunnableParams::Unset = r.params {
        assert(string_views(out@) =~= string_views(out@) + Seq::<Seq<char>>::empty());
        return Ok(());
    }
    if fuel == 0 {
        return Err(PlanError::TooDeep);
    }
    let empty: Vec<String> = Vec::new();
    let deps = match &r.after {
        Some(a) => a,
        None => &empty,
    };
    assert(string_views(deps@) == deps_of(r@));
    match plan_deps_into(runnables, deps, fuel - 1, out) {
        Err(e) => Err(e),
        Ok(()) => {
            let command = build_command(r);
            match command {
                Some(c) => {
                    let ghost before = string_views(out@);
                    out.push(c);
                    assert(string_views(out@) =~= before.push(c@));
                    Ok(())
                },
                None => Ok(()),
            }
        },
    }
}

/// Appends the commands of the dependencies `deps` to `out`.
fn plan_deps_into(runnables: &Vec<Runnable>, deps: &Vec<String>, fuel: usize, out: &mut Vec<String>) -> (res:
    Result<(), PlanError>)
    ensures
        match plan_deps(runnable_views(runnables@), string_views(deps@), fuel as nat) {
            Ok(c) => res is Ok && string_views(final(out)@) == string_views(old(out)@) + c,
            Err(e) => res == Err::<(), PlanError>(e),
        },
    decreases fuel, deps@.len(),
{
    let ghost rs = runnable_views(runnables@);
    let ghost ds = string_views(deps@);
    let ghost start = string_views(out@);
    let mut i: usize = 0;
    assert(ds.subrange(0, 0) =~= Seq::<Seq<char>>::empty());
    assert(start + Seq::<Seq<char>>::empty() =~= start);
    while i < deps.len()
        invariant
            rs == runnable_views(runnables@),
            ds == string_views(deps@),
            i <= deps@.len(),
            plan_deps(rs, ds.subrange(0, i as int), fuel as nat) matches Ok(c) && string_views(out@)
                == start + c,
        decreases deps@.len() - i,
    {
        let ghost prefix = ds.subrange(0, i + 1);
        assert(prefix.drop_last() =~= ds.subrange(0, i as int));
        assert(prefix.last() == deps@[i as int]@);
        let ghost pre = plan_deps(rs, ds.subrange(0, i as int), fuel as nat)->Ok_0;
        match split_reference(deps[i].as_str()) {
            None => {
                proof { lemma_plan_deps_err_prefix(rs, ds, fuel as nat, i + 1); }
                return Err(PlanError::InvalidKind);
            },
            Some((kind, name)) => {
                proof { lemma_first_target_in_bounds(rs, kind, name@); }
                match find_target(runnables, kind, &name) {
                    None => {},
                    Some(idx) => {
                        assert(rs[idx as int] == runnables@[idx as int]@);
                        match plan_into(runnables, &runnables[idx], fuel, out) {
                            Err(e) => {
                                assert(plan(rs, rs[idx as int], fuel as nat) == Err::<Seq<Seq<char>>, PlanError>(e));
                                assert(plan_deps(rs, prefix, fuel as nat) == Err::<Seq<Seq<char>>, PlanError>(e));
                                proof { lemma_plan_deps_err_prefix(rs, ds, fuel as nat, i + 1); }
                                return Err(e);
                            },
                            Ok(()) => {
                                assert(string_views(out@) =~= start + (pre + plan(rs, rs[idx as int], fuel as nat)->Ok_0));
                            },
                        }
                    },
                }
            },
        }
        i += 1;
    }
    assert(ds.subrange(0, deps@.len() as int) =~= ds);
    Ok(())
}

/// The nesting bound of a plan over `n` runnables. Below the runnable that is
/// run, each level of nesting is a runnable of the list; a chain longer than
/// the list repeats one, and then it never ends.
pub open spec fn plan_fuel(n: nat) -> nat {
    if n < usize::MAX {
        n + 1
    } else {
        n
    }
}

/// The commands that running `runnable` executes, in order, with the
/// dependencies of its `after` list looked up in `runnables`: each found
/// dependency's commands (its own dependencies first), then its own command.
/// Fails on a dependency reference that names no kind, and on dependencies
/// that form a cycle.
pub fn execution_plan(runnable: &Runnable, runnables: &Vec<Runnable>) -> (r: Result<
    Vec<String>,
    PlanError,
>)
    ensures
        match plan(runnable_views(runnables@), runnable@, plan_fuel(runnables@.len())) {
            Ok(c) => r is Ok && string_views(r->Ok_0@) == c,
            Err(e) => r == Err::<Vec<String>, PlanError>(e),
        },
{
    let n = runnables.len();
    let fuel = if n < usize::MAX {
        n + 1
    } else {
        n
    };
    let mut out: Vec<String> = Vec::new();
    match plan_into(runnables, runnable, fuel, &mut out) {
        Ok(()) => {
            assert(string_views(out@) =~= Seq::<Seq<char>>::empty() + plan(
                runnable_views(runnables@),
                runnable@,
                fuel as nat,
            )->Ok_0);
            Ok(out)
        },
        Err(e) => Err(e),
    }
}

/// Dependencies run first, in their listed order: when `a` lists the
/// references `b_ref` then `c_ref`, which denote the runnables at `b` and `c`,
/// running `a` executes all commands of running the one at `b` (its own
/// dependencies first), then those of the one at `c`, then the command of `a`.
pub proof fn lemma_dependencies_run_first(
    rs: Seq<RunnableView>,
    a: RunnableView,
    b_ref: Seq<char>,
    c_ref: Seq<char>,
    b: int,
    c: int,
    fuel: nat,
)
    requires
        !(a.params is Unset),
        fuel > 0,
        a.after == Some(seq![b_ref, c_ref]),
        0 <= b < rs.len(),
        0 <= c < rs.len(),
        resolve(rs, b_ref) == Ok::<int, LookupError>(b),
        resolve(rs, c_ref) == Ok::<int, LookupError>(c),
        plan(rs, rs[b], (fuel - 1) as nat) is Ok,
        plan(rs, rs[c], (fuel - 1) as nat) is Ok,
    ensures
        plan(rs, a, fuel) == Ok::<Seq<Seq<char>>, PlanError>(
            plan(rs, rs[b], (fuel - 1) as nat)->Ok_0 + plan(rs, rs[c], (fuel - 1) as nat)->Ok_0
                + seq![command_of(a)->0],
        ),
{
    let f = (fuel - 1) as nat;
    let deps = seq![b_ref, c_ref];
    let pb = parse_reference(b_ref)->0;
    let pc = parse_reference(c_ref)->0;
    lemma_first_target_in_bounds(rs, pb.0, pb.1);
    lemma_first_target_in_bounds(rs, pc.0, pc.1);
    assert(deps.drop_last() =~= seq![b_ref]);
    assert(seq![b_ref].drop_last() =~= Seq::<Seq<char>>::empty());
    assert(seq![b_ref].last() == b_ref);
    assert(plan_deps(rs, Seq::<Seq<char>>::empty(), f) == Ok::<Seq<Seq<char>>, PlanError>(
        Seq::<Seq<char>>::empty(),
    ));
    assert(first_target(rs, pb.0, pb.1) == Some(b));
    assert(first_target(rs, pc.0, pc.1) == Some(c));
    assert(deps.last() == c_ref);
    assert(deps_of(a) == deps);
    let eb = plan(rs, rs[b], f)->Ok_0;
    let ec = plan(rs, rs[c], f)->Ok_0;
    assert(plan_deps(rs, seq![b_ref], f) == Ok::<Seq<Seq<char>>, PlanError>(Seq::<Seq<char>>::empty() + eb));
    assert(Seq::<Seq<char>>::empty() + eb =~= eb);
    assert(plan_deps(rs, deps, f) == Ok::<Seq<Seq<char>>, PlanError>(eb + ec));
    assert((eb + ec).push(command_of(a)->0) =~= eb + ec + seq![command_of(a)->0]);
}

/// A run-file task runs its command in the task's directory joined to the
/// run file's: the `k`-th task of the run file in `dir` yields a runnable
/// whose command is `cd <dir>/<path> && <command>`.
pub proof fn lemma_runfile_command(dir: Seq<char>, items: Seq<(String, RunFileItem)>, k: int)
    requires
        0 <= k < items.len(),
    ensures
        runfile_runnables(dir, items).len() == items.len(),
        command_of(runfile_runnables(dir, items)[k]) == Some(
            cd_then(join(dir, items[k].1.path@), items[k].1.command@),
        ),
{
}

} // verus!
