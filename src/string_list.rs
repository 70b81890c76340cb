//! The list grammar of `.runinclude`, `.runignore` and task `after` fields:
//! entries separated by newlines or commas, with `#` comments.

use vstd::prelude::*;
use crate::text::{chars_of, split_chars, split_on, string_of, string_views, views};

verus! {

/// Unicode white space, as `char::is_whitespace` classifies it.
pub open spec fn is_ws(c: char) -> bool {
    let u = c as u32;
    ||| 0x09 <= u <= 0x0D
    ||| u == 0x20
    ||| u == 0x85
    ||| u == 0xA0
    ||| u == 0x1680
    ||| 0x2000 <= u <= 0x200A
    ||| u == 0x2028
    ||| u == 0x2029
    ||| u == 0x202F
    ||| u == 0x205F
    ||| u == 0x3000
}

/// Whether `c` is white space.
pub fn is_whitespace(c: char) -> (r: bool)
    ensures
        r == is_ws(c),
{
    let u = c as u32;
    (0x09 <= u && u <= 0x0D) || u == 0x20 || u == 0x85 || u == 0xA0 || u == 0x1680 || (0x2000 <= u
        && u <= 0x200A) || u == 0x2028 || u == 0x2029 || u == 0x202F || u == 0x205F || u == 0x3000
}

/// `s` without its leading white space.
pub open spec fn trim_start(s: Seq<char>) -> Seq<char>
    decreases s.len(),
{
    if s.len() > 0 && is_ws(s[0]) {
        trim_start(s.subrange(1, s.len() as int))
    } else {
        s
    }
}

/// `s` without its trailing white space.
pub open spec fn trim_end(s: Seq<char>) -> Seq<char>
    decreases s.len(),
{
    if s.len() > 0 && is_ws(s.last()) {
        trim_end(s.drop_last())
    } else {
        s
    }
}

/// `s` without leading and trailing white space, as `str::trim` gives it.
pub open spec fn trim(s: Seq<char>) -> Seq<char> {
    trim_end(trim_start(s))
}

/// The part of `s` before the first `" #"`, or all of `s` if there is none.
pub open spec fn before_comment(s: Seq<char>) -> Seq<char>
    decreases s.len(),
{
    if s.len() == 0 {
        s
    } else if s.len() >= 2 && s[0] == ' ' && s[1] == '#' {
        Seq::<char>::empty()
    } else {
        seq![s[0]] + before_comment(s.subrange(1, s.len() as int))
    }
}

/// The trimmed pieces that are not empty, in order.
pub open spec fn nonempty_trimmed(parts: Seq<Seq<char>>) -> Seq<Seq<char>>
    decreases parts.len(),
{
    if parts.len() == 0 {
        Seq::<Seq<char>>::empty()
    } else {
        let prev = nonempty_trimmed(parts.drop_last());
        let t = trim(parts.last());
        if t.len() == 0 {
            prev
        } else {
            prev.push(t)
        }
    }
}

/// The entries that one line contributes: none for a blank or comment line, else
/// the comma-separated pieces of the text before an inline comment.
pub open spec fn line_entries(line: Seq<char>) -> Seq<Seq<char>> {
    let t = trim(line);
    if t.len() == 0 || t[0] == '#' {
        Seq::<Seq<char>>::empty()
    } else {
        nonempty_trimmed(split_on(before_comment(t), ','))
    }
}

/// The entries of the given lines, line after line.
pub open spec fn lines_entries(lines: Seq<Seq<char>>) -> Seq<Seq<char>>
    decreases lines.len(),
{
    if lines.len() == 0 {
        Seq::<Seq<char>>::empty()
    } else {
        lines_entries(lines.drop_last()) + line_entries(lines.last())
    }
}

/// The entries of a string list.
pub open spec fn string_list(source: Seq<char>) -> Seq<Seq<char>> {
    lines_entries(split_on(source, '\n'))
}

/// The bounds `(a, b)` such that `cs[a..b]` is `cs` trimmed.
fn trim_bounds(cs: &Vec<char>) -> (r: (usize, usize))
    ensures
        r.0 <= r.1 <= cs@.len(),
        cs@.subrange(r.0 as int, r.1 as int) == trim(cs@),
{
    let n = cs.len();
    let mut a: usize = 0;
    assert(cs@.subrange(0, n as int) =~= cs@);
    while a < n && is_whitespace(cs[a])
        invariant
            n == cs@.len(),
            a <= n,
            trim_start(cs@.subrange(a as int, n as int)) == trim_start(cs@),
        decreases n - a,
    {
        let ghost rest = cs@.subrange(a as int, n as int);
        assert(rest.subrange(1, rest.len() as int) =~= cs@.subrange(a + 1, n as int));
        a += 1;
    }
    proof {
        let rest = cs@.subrange(a as int, n as int);
        assert(trim_start(rest) == rest);
    }
    let mut b: usize = n;
    while b > a && is_whitespace(cs[b - 1])
        invariant
            n == cs@.len(),
            a <= b <= n,
            trim_end(cs@.subrange(a as int, b as int)) == trim(cs@),
        decreases b - a,
    {
        let ghost rest = cs@.subrange(a as int, b as int);
        assert(rest.drop_last() =~= cs@.subrange(a as int, b - 1));
        b -= 1;
    }
    (a, b)
}

/// The end of the text of `cs[from..to]` before its first `" #"`.
fn comment_start(cs: &Vec<char>, from: usize, to: usize) -> (r: usize)
    requires
        from <= to <= cs@.len(),
    ensures
        from <= r <= to,
        cs@.subrange(from as int, r as int) == before_comment(cs@.subrange(from as int, to as int)),
{
    let mut i: usize = from;
    while i < to && !(i + 1 < to && cs[i] == ' ' && cs[i + 1] == '#')
        invariant
            from <= i <= to <= cs@.len(),
            before_comment(cs@.subrange(from as int, to as int)) == cs@.subrange(from as int, i as int)
                + before_comment(cs@.subrange(i as int, to as int)),
        decreases to - i,
    {
        let ghost rest = cs@.subrange(i as int, to as int);
        assert(rest.subrange(1, rest.len() as int) =~= cs@.subrange(i + 1, to as int));
        assert(cs@.subrange(from as int, i as int) + seq![cs@[i as int]] =~= cs@.subrange(
            from as int,
            i + 1,
        ));
        i += 1;
    }
    proof {
        let rest = cs@.subrange(i as int, to as int);
        assert(before_comment(rest) =~= Seq::<char>::empty());
        assert(cs@.subrange(from as int, i as int) + Seq::<char>::empty() =~= cs@.subrange(
            from as int,
            i as int,
        ));
    }
    i
}

/// Appends the entries of one line to `out`.
fn push_line_entries(line: &Vec<char>, out: &mut Vec<String>)
    ensures
        string_views(final(out)@) == string_views(old(out)@) + line_entries(line@),
{
    let ghost start = string_views(out@);
    let (a, b) = trim_bounds(line);
    if a == b || line[a] == '#' {
        assert(string_views(out@) =~= start + line_entries(line@));
        return;
    }
    let end = comment_start(line, a, b);
    let mut text: Vec<char> = Vec::new();
    let mut k: usize = a;
    while k < end
        invariant
            a <= k <= end <= line@.len(),
            text@ == line@.subrange(a as int, k as int),
        decreases end - k,
    {
        text.push(line[k]);
        k += 1;
        assert(text@ =~= line@.subrange(a as int, k as int));
    }
    assert(line@.subrange(a as int, b as int) == trim(line@));
    let parts = split_chars(&text, ',');
    let mut i: usize = 0;
    while i < parts.len()
        invariant
            i <= parts@.len(),
            views(parts@) == split_on(text@, ','),
            string_views(out@) == start + nonempty_trimmed(views(parts@).subrange(0, i as int)),
        decreases parts@.len() - i,
    {
        let piece = &parts[i];
        let (pa, pb) = trim_bounds(piece);
        let ghost done = views(parts@).subrange(0, i as int);
        let ghost next = views(parts@).subrange(0, i + 1);
        assert(next.drop_last() =~= done);
        assert(next.last() == piece@);
        let ghost before_push = string_views(out@);
        if pa < pb {
            let entry = string_of(piece, pa, pb);
            out.push(entry);
            assert(string_views(out@) =~= before_push.push(entry@));
        }
        i += 1;
    }
    assert(views(parts@).subrange(0, parts@.len() as int) =~= views(parts@));
}

/// Parses a list of strings written one or more per line.
///
/// Lines are trimmed; blank lines and lines starting with `#` are skipped; text
/// from `" #"` on is a comment; a line may hold several entries separated by
/// commas; entries are trimmed and empty ones dropped.
pub fn parse_string_list(source: &str) -> (r: Vec<String>)
    ensures
        string_views(r@) == string_list(source@),
{
    let cs = chars_of(source);
    let lines = split_chars(&cs, '\n');
    let mut out: Vec<String> = Vec::new();
    let mut i: usize = 0;
    while i < lines.len()
        invariant
            i <= lines@.len(),
            views(lines@) == split_on(source@, '\n'),
            string_views(out@) == lines_entries(views(lines@).subrange(0, i as int)),
        decreases lines@.len() - i,
    {
        let ghost done = views(lines@).subrange(0, i as int);
        let ghost next = views(lines@).subrange(0, i + 1);
        assert(next.drop_last() =~= done);
        push_line_entries(&lines[i], &mut out);
        i += 1;
    }
    assert(views(lines@).subrange(0, lines@.len() as int) =~= views(lines@));
    out
}

} // verus!
