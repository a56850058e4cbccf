//! Canonical form of a request path, the key under which routes are found.

use vstd::prelude::*;

verus! {

/// The character that separates the segments of a path.
pub open spec fn separator() -> char {
    '/'
}

/// `path` without one trailing separator, where it has one and is longer than
/// the root path.
pub open spec fn strip_trailing_separator(path: Seq<char>) -> Seq<char> {
    if path.len() > 1 && path.last() == separator() {
        path.drop_last()
    } else {
        path
    }
}

/// `path` without the separators it begins with.
pub open spec fn skip_leading_separators(path: Seq<char>) -> Seq<char>
    decreases path.len(),
{
    if path.len() > 0 && path[0] == separator() {
        skip_leading_separators(path.drop_first())
    } else {
        path
    }
}

/// The canonical key of a raw path: one trailing separator is stripped, and the
/// result begins with exactly one separator. Nothing else is changed.
pub open spec fn normalized(path: Seq<char>) -> Seq<char> {
    seq![separator()] + skip_leading_separators(strip_trailing_separator(path))
}

/// Skipping the leading separators of `path[from..to]` gives the same as
/// skipping those of `path[from + 1..to]` when `path[from]` is a separator.
proof fn skip_one_separator(path: Seq<char>, from: int, to: int)
    requires
        0 <= from < to <= path.len(),
        path[from] == separator(),
    ensures
        skip_leading_separators(path.subrange(from, to)) == skip_leading_separators(
            path.subrange(from + 1, to),
        ),
{
    assert(path.subrange(from, to).drop_first() =~= path.subrange(from + 1, to));
}

/// Brings a raw request path into the form under which routes are keyed.
pub fn format_path(path: &str) -> (out: String)
    ensures
        out@ == normalized(path@),
{
    let n: usize = path.unicode_len();
    let end: usize = if n > 1 && path.get_char(n - 1) == '/' {
        n - 1
    } else {
        n
    };
    assert(path@.subrange(0, end as int) =~= strip_trailing_separator(path@));
    let mut start: usize = 0;
    while start < end && path.get_char(start) == '/'
        invariant
            start <= end <= n,
            n == path@.len(),
            skip_leading_separators(path@.subrange(0, end as int)) == skip_leading_separators(
                path@.subrange(start as int, end as int),
            ),
        decreases end - start,
    {
        proof {
            skip_one_separator(path@, start as int, end as int);
        }
        start += 1;
    }
    let mut out = String::from_str("/");
    proof {
        reveal_strlit("/");
    }
    out.append(path.substring_char(start, end));
    out
}

/// A path and the same path with one separator appended have the same key,
/// provided the path does not itself end in a separator.
pub proof fn trailing_separator_is_ignored(path: Seq<char>)
    requires
        path.len() == 0 || path.last() != separator(),
    ensures
        normalized(path + seq![separator()]) == normalized(path),
{
    let longer = path + seq![separator()];
    if path.len() == 0 {
        assert(skip_leading_separators(longer) == skip_leading_separators(longer.drop_first()));
    } else {
        assert(longer.drop_last() =~= path);
    }
}

/// A key begins with exactly one separator.
pub proof fn key_has_one_leading_separator(path: Seq<char>)
    ensures
        normalized(path).len() >= 1,
        normalized(path)[0] == separator(),
        normalized(path).len() >= 2 ==> normalized(path)[1] != separator(),
{
    skipped_has_no_leading_separator(strip_trailing_separator(path));
}

/// What remains after skipping the leading separators begins with none.
proof fn skipped_has_no_leading_separator(path: Seq<char>)
    ensures
        skip_leading_separators(path).len() > 0 ==> skip_leading_separators(path)[0]
            != separator(),
    decreases path.len(),
{
    if path.len() > 0 && path[0] == separator() {
        skipped_has_no_leading_separator(path.drop_first());
    }
}

} // verus!
