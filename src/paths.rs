//! Paths as strings: joining, the built-in exclusions, and display relative to a root.

use vstd::prelude::*;
use vstd::string::StringExecFns;
use crate::text::{chars_of, occurs_at};

verus! {

/// A path that starts at the file-system root.
pub open spec fn is_absolute(p: Seq<char>) -> bool {
    p.len() > 0 && p[0] == '/'
}

/// `base` joined with `rel`, as `Path::join` does: an absolute `rel` replaces
/// `base`, and a separator is put between them unless `base` is empty or
/// already ends with one.
pub open spec fn join(base: Seq<char>, rel: Seq<char>) -> Seq<char> {
    if is_absolute(rel) {
        rel
    } else if base.len() == 0 || base.last() == '/' {
        base + rel
    } else {
        base + "/"@ + rel
    }
}

/// `base` joined with `rel`.
pub fn join_path(base: &str, rel: &str) -> (r: String)
    ensures
        r@ == join(base@, rel@),
{
    let rel_chars = crate::text::chars_of(rel);
    if rel_chars.len() > 0 && rel_chars[0] == '/' {
        return String::from_str(rel);
    }
    let base_chars = crate::text::chars_of(base);
    let mut r = String::from_str(base);
    if base_chars.len() > 0 && base_chars[base_chars.len() - 1] != '/' {
        r.append("/");
    }
    r.append(rel);
    r
}

/// The lexically cleaned form of a path.
pub uninterp spec fn cleaned(p: Seq<char>) -> Seq<char>;

/// Relies on `path_clean::clean`, which lexically drops `.` components,
/// resolves `..` against the component before it and merges repeated
/// separators; it gives `.` rather than an empty path.
#[verifier::external_body]
fn clean_path(p: &str) -> (r: String)
    ensures
        r@ == cleaned(p@),
        r@.len() > 0,
{
    path_clean::clean(p).display().to_string()
}

/// The absolute form of `path`, taken relative to `current_dir` unless it is
/// absolute, then cleaned.
pub open spec fn absolute(current_dir: Seq<char>, path: Seq<char>) -> Seq<char> {
    if is_absolute(path) {
        cleaned(path)
    } else {
        cleaned(join(current_dir, path))
    }
}

/// The absolute, cleaned form of `path`, where relative paths start at `current_dir`.
pub fn absolute_path(current_dir: &str, path: &str) -> (r: String)
    ensures
        r@ == absolute(current_dir@, path@),
{
    let cs = chars_of(path);
    if cs.len() > 0 && cs[0] == '/' {
        clean_path(path)
    } else {
        let joined = join_path(current_dir, path);
        clean_path(joined.as_str())
    }
}

/// `rep` before each character of `s` and after the last, as replacing the
/// empty pattern does.
pub open spec fn interleave(s: Seq<char>, rep: Seq<char>) -> Seq<char>
    decreases s.len(),
{
    if s.len() == 0 {
        rep
    } else {
        rep + seq![s[0]] + interleave(s.subrange(1, s.len() as int), rep)
    }
}

/// `s` with every occurrence of `pat` replaced by `rep`, matching from the
/// left without overlap, as `str::replace` does.
pub open spec fn replace_all(s: Seq<char>, pat: Seq<char>, rep: Seq<char>) -> Seq<char>
    decreases s.len(),
{
    if pat.len() == 0 {
        interleave(s, rep)
    } else if s.len() < pat.len() {
        s
    } else if s.subrange(0, pat.len() as int) == pat {
        rep + replace_all(s.subrange(pat.len() as int, s.len() as int), pat, rep)
    } else {
        seq![s[0]] + replace_all(s.subrange(1, s.len() as int), pat, rep)
    }
}

/// `s` with every occurrence of `pat` replaced by `rep`.
pub fn replace(s: &str, pat: &str, rep: &str) -> (r: String)
    ensures
        r@ == replace_all(s@, pat@, rep@),
{
    let cs = chars_of(s);
    let ps = chars_of(pat);
    let n = cs.len();
    let mut out = String::new();
    let mut i: usize = 0;
    assert(cs@.subrange(0, n as int) =~= s@);
    if ps.len() == 0 {
        while i < n
            invariant
                n == cs@.len(),
                ps@.len() == 0,
                i <= n,
                out@ + interleave(cs@.subrange(i as int, n as int), rep@) == replace_all(s@, pat@, rep@),
            decreases n - i,
        {
            let ghost rest = cs@.subrange(i as int, n as int);
            assert(rest.subrange(1, rest.len() as int) =~= cs@.subrange(i + 1, n as int));
            let ghost before = out@;
            out.append(rep);
            out.push(cs[i]);
            assert(out@ =~= before + rep@ + seq![cs@[i as int]]);
            i += 1;
        }
        out.append(rep);
        assert(cs@.subrange(n as int, n as int) =~= Seq::<char>::empty());
        return out;
    }
    let pl = ps.len();
    while i < n
        invariant
            n == cs@.len(),
            pl == ps@.len() > 0,
            ps@ == pat@,
            i <= n,
            out@ + replace_all(cs@.subrange(i as int, n as int), pat@, rep@) == replace_all(
                s@,
                pat@,
                rep@,
            ),
        decreases n - i,
    {
        let ghost rest = cs@.subrange(i as int, n as int);
        let ghost before = out@;
        if n - i < pl {
            while i < n
                invariant
                    n == cs@.len(),
                    i <= n,
                    n - i < pl == pat@.len(),
                    out@ + replace_all(cs@.subrange(i as int, n as int), pat@, rep@) == replace_all(
                        s@,
                        pat@,
                        rep@,
                    ),
                decreases n - i,
            {
                let ghost r2 = cs@.subrange(i as int, n as int);
                assert(replace_all(r2, pat@, rep@) == r2);
                let ghost b2 = out@;
                out.push(cs[i]);
                i += 1;
                assert(r2 =~= seq![cs@[i - 1]] + cs@.subrange(i as int, n as int));
                assert(replace_all(cs@.subrange(i as int, n as int), pat@, rep@) == cs@.subrange(i as int, n as int));
                assert(out@ + cs@.subrange(i as int, n as int) =~= b2 + r2);
            }
        } else if occurs_at(&cs, &ps, i) {
            assert(rest.subrange(0, pl as int) =~= cs@.subrange(i as int, i + pl));
            assert(rest.subrange(pl as int, rest.len() as int) =~= cs@.subrange(i + pl, n as int));
            out.append(rep);
            i += pl;
            assert(out@ + replace_all(cs@.subrange(i as int, n as int), pat@, rep@) =~= before + (rep@
                + replace_all(cs@.subrange(i as int, n as int), pat@, rep@)));
        } else {
            assert(rest.subrange(0, pl as int) =~= cs@.subrange(i as int, i + pl));
            assert(rest.subrange(1, rest.len() as int) =~= cs@.subrange(i + 1, n as int));
            out.push(cs[i]);
            i += 1;
            assert(out@ + replace_all(cs@.subrange(i as int, n as int), pat@, rep@) =~= before + (seq![
                cs@[i - 1],
            ] + replace_all(cs@.subrange(i as int, n as int), pat@, rep@)));
        }
    }
    assert(cs@.subrange(n as int, n as int) =~= Seq::<char>::empty());
    assert(out@ + Seq::<char>::empty() =~= out@);
    out
}

/// The absolute form of `path` with the root's path shown as `.`.
pub fn runnable_path_display(root_path: &str, current_dir: &str, path: &str) -> (r: String)
    ensures
        r@ == replace_all(absolute(current_dir@, path@), root_path@, "."@),
{
    let absolute = absolute_path(current_dir, path);
    replace(absolute.as_str(), root_path, ".")
}

} // verus!
