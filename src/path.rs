//! Path text handling: separators, trailing-separator trimming, extended-path
//! prefixes and mount-point containment.
use vstd::prelude::*;
use crate::text::{has_prefix, starts_with, substring};

verus! {

/// A path separator on any supported platform.
pub open spec fn is_sep(c: char) -> bool {
    c == '/' || c == '\\'
}

/// Whether `c` is a path separator (`/` or `\`).
pub fn is_separator(c: char) -> (r: bool)
    ensures
        r == is_sep(c),
{
    c == '/' || c == '\\'
}

/// The path with its trailing separators removed; a path that is nothing but
/// separators keeps its first one, so a root stays a root.
pub open spec fn trim_trailing(s: Seq<char>) -> Seq<char>
    decreases s.len(),
{
    if s.len() > 1 && is_sep(s.last()) {
        trim_trailing(s.drop_last())
    } else {
        s
    }
}

/// Removing trailing separators keeps a prefix of the path.
pub proof fn lemma_trim_is_prefix(s: Seq<char>)
    ensures
        trim_trailing(s).len() <= s.len(),
        trim_trailing(s) == s.subrange(0, trim_trailing(s).len() as int),
        s.len() > 0 ==> trim_trailing(s).len() > 0,
    decreases s.len(),
{
    if s.len() > 1 && is_sep(s.last()) {
        lemma_trim_is_prefix(s.drop_last());
        assert(s.drop_last().subrange(0, trim_trailing(s).len() as int) =~= s.subrange(
            0,
            trim_trailing(s).len() as int,
        ));
    } else {
        assert(s.subrange(0, s.len() as int) =~= s);
    }
}

/// A trailing separator makes no difference to the trimmed path.
pub proof fn lemma_trim_ignores_trailing_separator(s: Seq<char>, c: char)
    requires
        s.len() > 0,
        is_sep(c),
    ensures
        trim_trailing(s.push(c)) == trim_trailing(s),
{
    assert(s.push(c).drop_last() =~= s);
}

/// The characters of `path` before its trailing separators.
pub fn trim_trailing_separators(path: &str) -> (r: String)
    ensures
        r@ == trim_trailing(path@),
{
    let mut end = path.unicode_len();
    assert(path@.subrange(0, end as int) =~= path@);
    while end > 1 && is_separator(path.get_char(end - 1))
        invariant
            end <= path@.len(),
            trim_trailing(path@.subrange(0, end as int)) == trim_trailing(path@),
        decreases end,
    {
        assert(path@.subrange(0, end as int).drop_last() =~= path@.subrange(0, end - 1));
        end = end - 1;
    }
    let r = substring(path, 0, end);
    r
}

pub open spec fn verbatim_prefix() -> Seq<char> {
    seq!['\\', '\\', '?', '\\']
}

pub open spec fn verbatim_unc_prefix() -> Seq<char> {
    seq!['\\', '\\', '?', '\\', 'U', 'N', 'C', '\\']
}

pub open spec fn unc_prefix() -> Seq<char> {
    seq!['\\', '\\']
}

/// The path without a Windows extended-length prefix: `\\?\UNC\server\share`
/// becomes `\\server\share` and `\\?\C:\dir` becomes `C:\dir`; any other path
/// is left as it is.
pub open spec fn strip_extended(p: Seq<char>) -> Seq<char> {
    if has_prefix(p, verbatim_unc_prefix()) {
        unc_prefix() + p.subrange(8, p.len() as int)
    } else if has_prefix(p, verbatim_prefix()) {
        p.subrange(4, p.len() as int)
    } else {
        p
    }
}

/// The extended-length form of a path: a UNC path `\\server\share` becomes
/// `\\?\UNC\server\share`, any other path gains the `\\?\` prefix.
pub open spec fn extended_form(p: Seq<char>) -> Seq<char> {
    if has_prefix(p, unc_prefix()) {
        verbatim_unc_prefix() + p.subrange(2, p.len() as int)
    } else {
        verbatim_prefix() + p
    }
}

/// Stripping the prefix of an extended-length path gives the plain path back,
/// for every path but a relative one that itself starts with `UNC\`.
pub proof fn lemma_strip_extended_form(p: Seq<char>)
    requires
        !has_prefix(p, seq!['U', 'N', 'C', '\\']),
    ensures
        strip_extended(extended_form(p)) == p,
{
    let e = extended_form(p);
    if has_prefix(p, unc_prefix()) {
        assert(e.subrange(0, 8) =~= verbatim_unc_prefix());
        assert(unc_prefix() + e.subrange(8, e.len() as int) =~= p);
    } else {
        assert(e.subrange(0, 4) =~= verbatim_prefix());
        if has_prefix(e, verbatim_unc_prefix()) {
            assert(p.subrange(0, 4) =~= e.subrange(4, 8));
            assert(p.subrange(0, 4) =~= seq!['U', 'N', 'C', '\\']);
        }
        assert(e.subrange(4, e.len() as int) =~= p);
    }
}

/// Removes a Windows extended-length prefix (`\\?\` or `\\?\UNC\`) from a path.
pub fn strip_extended_prefix(path: &str) -> (r: String)
    ensures
        r@ == strip_extended(path@),
{
    proof {
        reveal_strlit("\\\\?\\UNC\\");
        reveal_strlit("\\\\?\\");
        reveal_strlit("\\\\");
    }
    assert("\\\\?\\UNC\\"@ =~= verbatim_unc_prefix());
    assert("\\\\?\\"@ =~= verbatim_prefix());
    assert("\\\\"@ =~= unc_prefix());
    let n = path.unicode_len();
    if starts_with(path, "\\\\?\\UNC\\") {
        let rest = substring(path, 8, n);
        let r = String::from_str("\\\\").concat(rest.as_str());
        assert(r@ =~= unc_prefix() + path@.subrange(8, n as int));
        r
    } else if starts_with(path, "\\\\?\\") {
        substring(path, 4, n)
    } else {
        String::from_str(path)
    }
}

/// `p` names `m` itself or something beneath it, comparing whole components.
pub open spec fn nested_under(p: Seq<char>, m: Seq<char>) -> bool {
    &&& m.len() > 0
    &&& has_prefix(p, m)
    &&& (p.len() == m.len() || is_sep(m.last()) || is_sep(p[m.len() as int]))
}

/// `path` lies at or under the mount point `mount`, once an extended-length
/// prefix is removed from the path and trailing separators from both.
pub open spec fn within_mount(path: Seq<char>, mount: Seq<char>) -> bool {
    nested_under(trim_trailing(strip_extended(path)), trim_trailing(mount))
}

pub fn is_nested_under(p: &str, m: &str) -> (r: bool)
    ensures
        r == nested_under(p@, m@),
{
    let ml = m.unicode_len();
    if ml == 0 || !starts_with(p, m) {
        return false;
    }
    let pl = p.unicode_len();
    pl == ml || is_separator(m.get_char(ml - 1)) || is_separator(p.get_char(ml))
}

/// Whether `path` lies at or under the mount point `mount`.
pub fn is_within_mount(path: &str, mount: &str) -> (r: bool)
    ensures
        r == within_mount(path@, mount@),
{
    let stripped = strip_extended_prefix(path);
    let p = trim_trailing_separators(stripped.as_str());
    let m = trim_trailing_separators(mount);
    is_nested_under(p.as_str(), m.as_str())
}

} // verus!
