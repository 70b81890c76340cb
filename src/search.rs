//! The live search filter: which runnables a search text selects.

use vstd::prelude::*;
use crate::text::{chars_of, contains, is_substring, split_chars, split_on, views};
use crate::types::{Runnable, RunnableView, runnable_views};

verus! {

/// Every term occurs in `t`.
pub open spec fn all_terms_in(terms: Seq<Seq<char>>, t: Seq<char>) -> bool {
    forall|k: int| 0 <= k < terms.len() ==> is_substring(#[trigger] terms[k], t)
}

/// The views of a sequence of string slices.
pub open spec fn str_views(v: Seq<&str>) -> Seq<Seq<char>> {
    v.map_values(|x: &str| x@)
}

/// Whether `search`, split on spaces into terms, matches `target` or one of
/// `extras`: all terms must occur in the same string.
pub open spec fn split_match(search: Seq<char>, target: Seq<char>, extras: Seq<Seq<char>>) -> bool {
    let terms = split_on(search, ' ');
    all_terms_in(terms, target) || exists|k: int|
        0 <= k < extras.len() && all_terms_in(terms, #[trigger] extras[k])
}

/// Whether every one of `terms` occurs in `t`.
fn all_in(terms: &Vec<Vec<char>>, t: &Vec<char>) -> (r: bool)
    ensures
        r == all_terms_in(views(terms@), t@),
{
    let mut i: usize = 0;
    while i < terms.len()
        invariant
            i <= terms@.len(),
            forall|k: int| 0 <= k < i ==> is_substring(#[trigger] views(terms@)[k], t@),
        decreases terms@.len() - i,
    {
        if !contains(t, &terms[i]) {
            assert(views(terms@)[i as int] == terms@[i as int]@);
            return false;
        }
        i += 1;
    }
    true
}

/// Whether the space-separated terms of `search` all occur in `target`, or all
/// in one of `extras`. Matching is by case-sensitive substring.
pub fn split_match_strings(search: &str, target: &str, extras: &[&str]) -> (r: bool)
    ensures
        r == split_match(search@, target@, str_views(extras@)),
{
    let terms = split_chars(&chars_of(search), ' ');
    if all_in(&terms, &chars_of(target)) {
        return true;
    }
    let mut i: usize = 0;
    while i < extras.len()
        invariant
            views(terms@) == split_on(search@, ' '),
            i <= extras@.len(),
            forall|k: int| 0 <= k < i ==> !all_terms_in(views(terms@), #[trigger] str_views(extras@)[k]),
        decreases extras@.len() - i,
    {
        let extra: &str = extras[i];
        if all_in(&terms, &chars_of(extra)) {
            assert(str_views(extras@)[i as int] == extra@);
            return true;
        }
        i += 1;
    }
    false
}

/// Whether `search` selects the runnable `r`, by its name or one of its aliases.
pub open spec fn matches_runnable(search: Seq<char>, r: RunnableView) -> bool {
    split_match(search, r.name, r.aliases)
}

/// The runnables of `rs` that `search` selects, in order.
pub open spec fn matching(rs: Seq<RunnableView>, search: Seq<char>) -> Seq<RunnableView>
    decreases rs.len(),
{
    if rs.len() == 0 {
        Seq::<RunnableView>::empty()
    } else {
        let prev = matching(rs.drop_last(), search);
        if matches_runnable(search, rs.last()) {
            prev.push(rs.last())
        } else {
            prev
        }
    }
}

/// The positions in `rs` of the runnables that `search` selects, in order.
pub open spec fn active_indices(rs: Seq<RunnableView>, search: Seq<char>) -> Seq<int>
    decreases rs.len(),
{
    if rs.len() == 0 {
        Seq::<int>::empty()
    } else {
        let prev = active_indices(rs.drop_last(), search);
        if matches_runnable(search, rs.last()) {
            prev.push(rs.len() - 1)
        } else {
            prev
        }
    }
}

/// The views of a sequence of positions.
pub open spec fn index_views(v: Seq<usize>) -> Seq<int> {
    v.map_values(|x: usize| x as int)
}

/// Whether `search` selects `r`.
pub fn runnable_matches(search: &str, r: &Runnable) -> (b: bool)
    ensures
        b == matches_runnable(search@, r@),
{
    let aliases = r.aliases();
    let b = split_match_strings(search, r.name.as_str(), aliases.as_slice());
    assert(str_views(aliases@) =~= r@.aliases);
    b
}

/// The positions of the runnables that `search` selects, in order.
pub fn filter_runnables(runnables: &Vec<Runnable>, search: &str) -> (r: Vec<usize>)
    ensures
        index_views(r@) == active_indices(runnable_views(runnables@), search@),
{
    let ghost rs = runnable_views(runnables@);
    let mut r: Vec<usize> = Vec::new();
    let mut i: usize = 0;
    assert(rs.subrange(0, 0) =~= Seq::<RunnableView>::empty());
    assert(index_views(r@) =~= Seq::<int>::empty());
    while i < runnables.len()
        invariant
            rs == runnable_views(runnables@),
            i <= runnables@.len(),
            index_views(r@) == active_indices(rs.subrange(0, i as int), search@),
        decreases runnables@.len() - i,
    {
        let ghost next = rs.subrange(0, i + 1);
        assert(next.drop_last() =~= rs.subrange(0, i as int));
        assert(next.last() == runnables@[i as int]@);
        let ghost before = r@;
        if runnable_matches(search, &runnables[i]) {
            r.push(i);
            assert(index_views(r@) =~= index_views(before).push(i as int));
        }
        i += 1;
    }
    assert(rs.subrange(0, rs.len() as int) =~= rs);
    r
}

/// The empty search text selects every runnable.
pub proof fn lemma_empty_search_matches(r: RunnableView)
    ensures
        matches_runnable(Seq::<char>::empty(), r),
{
    let terms = split_on(Seq::<char>::empty(), ' ');
    assert(terms =~= seq![Seq::<char>::empty()]);
    assert(terms[0].len() == 0);
    assert(r.name.subrange(0int, 0int + terms[0].len()) =~= terms[0]);
    assert(is_substring(terms[0], r.name));
    assert(all_terms_in(terms, r.name));
}

/// Filtering with an empty search text keeps every runnable, in order.
pub proof fn lemma_empty_search_keeps_all(rs: Seq<RunnableView>)
    ensures
        matching(rs, Seq::<char>::empty()) == rs,
        active_indices(rs, Seq::<char>::empty()) == Seq::new(rs.len(), |i: int| i),
    decreases rs.len(),
{
    if rs.len() > 0 {
        lemma_empty_search_keeps_all(rs.drop_last());
        lemma_empty_search_matches(rs.last());
        assert(rs.drop_last().push(rs.last()) =~= rs);
        assert(Seq::new((rs.len() - 1) as nat, |i: int| i).push(rs.len() - 1) =~= Seq::new(
            rs.len(),
            |i: int| i,
        ));
    } else {
        assert(rs =~= Seq::<RunnableView>::empty());
        assert(Seq::new(0, |i: int| i) =~= Seq::<int>::empty());
    }
}

/// Filtering is idempotent: filtering the result of a filter again with the
/// same search text changes nothing.
pub proof fn lemma_filter_idempotent(rs: Seq<RunnableView>, search: Seq<char>)
    ensures
        matching(matching(rs, search), search) == matching(rs, search),
    decreases rs.len(),
{
    if rs.len() > 0 {
        lemma_filter_idempotent(rs.drop_last(), search);
        let prev = matching(rs.drop_last(), search);
        if matches_runnable(search, rs.last()) {
            let m = prev.push(rs.last());
            assert(m.drop_last() =~= prev);
        }
    }
}

/// The positions that the filter keeps pick out exactly the runnables it selects.
pub proof fn lemma_active_indices_select(rs: Seq<RunnableView>, search: Seq<char>)
    ensures
        active_indices(rs, search).len() == matching(rs, search).len(),
        active_indices(rs, search).len() <= rs.len(),
        forall|k: int| 0 <= k < active_indices(rs, search).len() ==> {
            let i = #[trigger] active_indices(rs, search)[k];
            0 <= i < rs.len() && rs[i] == matching(rs, search)[k]
        },
    decreases rs.len(),
{
    if rs.len() > 0 {
        lemma_active_indices_select(rs.drop_last(), search);
    }
}

} // verus!
