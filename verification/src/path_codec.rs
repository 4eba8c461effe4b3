//! Splitting a queue path into a namespace prefix and a key, and joining the
//! two back together.
//!
//! A path is split on the last occurrence of the separator `':'`: everything
//! before it is the prefix (which may itself contain separators), everything
//! after it is the key. A path without a separator has no prefix, and its key
//! is the whole path. Decomposition never fails.

use vstd::prelude::*;

verus! {

/// Index of the last separator in `s`, or -1 when `s` holds none.
pub open spec fn last_sep(s: Seq<char>) -> int
    decreases s.len(),
{
    if s.len() == 0 {
        -1
    } else if s[s.len() - 1] == ':' {
        s.len() - 1
    } else {
        last_sep(s.drop_last())
    }
}

/// Whether `s` holds the separator at all.
pub open spec fn has_sep(s: Seq<char>) -> bool {
    exists|i: int| 0 <= i < s.len() && s[i] == ':'
}

/// The prefix a path decomposes to: the part before the last separator,
/// or absent when the path has no separator.
pub open spec fn path_prefix(s: Seq<char>) -> Option<Seq<char>> {
    if last_sep(s) >= 0 {
        Some(s.subrange(0, last_sep(s)))
    } else {
        None
    }
}

/// The key a path decomposes to: the part after the last separator,
/// or the whole path when it has no separator.
pub open spec fn path_key(s: Seq<char>) -> Seq<char> {
    if last_sep(s) >= 0 {
        s.subrange(last_sep(s) + 1, s.len() as int)
    } else {
        s
    }
}

/// The path a (prefix, key) pair reconstructs to.
pub open spec fn path_join(prefix: Option<Seq<char>>, key: Seq<char>) -> Seq<char> {
    match prefix {
        Some(p) => p + seq![':'] + key,
        None => key,
    }
}

/// `last_sep` points at the last separator: it is a valid index or -1, the
/// character there is the separator, no separator follows it, and it is -1
/// exactly on separator-free strings.
pub proof fn lemma_last_sep_props(s: Seq<char>)
    ensures
        -1 <= last_sep(s) < s.len(),
        last_sep(s) >= 0 ==> s[last_sep(s)] == ':',
        forall|j: int| last_sep(s) < j < s.len() ==> s[j] != ':',
        (last_sep(s) == -1) <==> !has_sep(s),
    decreases s.len(),
{
    if s.len() == 0 {
        assert(!has_sep(s));
    } else if s[s.len() - 1] == ':' {
        assert(has_sep(s));
    } else {
        lemma_last_sep_props(s.drop_last());
        let t = s.drop_last();
        assert(forall|j: int| 0 <= j < t.len() ==> t[j] == s[j]);
        assert(last_sep(s) == last_sep(t));
        if has_sep(s) {
            let w = choose|i: int| 0 <= i < s.len() && s[i] == ':';
            assert(w < s.len() - 1);
            assert(t[w] == ':');
            assert(has_sep(t));
        }
        if has_sep(t) {
            let w = choose|i: int| 0 <= i < t.len() && t[i] == ':';
            assert(s[w] == ':');
            assert(has_sep(s));
        }
    }
}

/// Splitting and rejoining gives the original path back, for every path.
pub proof fn lemma_path_round_trip(s: Seq<char>)
    ensures
        path_join(path_prefix(s), path_key(s)) == s,
{
    lemma_last_sep_props(s);
    let i = last_sep(s);
    if i >= 0 {
        assert(path_join(path_prefix(s), path_key(s)) =~= s);
    }
}

/// A path without a separator decomposes to an absent prefix and itself as
/// the key, and rejoining gives it back unchanged.
pub proof fn lemma_no_sep(s: Seq<char>)
    requires
        !has_sep(s),
    ensures
        path_prefix(s) is None,
        path_key(s) == s,
        path_join(path_prefix(s), path_key(s)) == s,
{
    lemma_last_sep_props(s);
}

/// The found index is the last separator: the separator stands there and none
/// follows it.
proof fn lemma_last_sep_at(s: Seq<char>, i: int)
    requires
        0 <= i < s.len(),
        s[i] == ':',
        forall|j: int| i < j < s.len() ==> s[j] != ':',
    ensures
        last_sep(s) == i,
{
    lemma_last_sep_props(s);
    assert(has_sep(s));
}

/// Split a path on its last separator into (prefix, key).
pub fn split_path(path: &str) -> (r: (Option<String>, String))
    ensures
        r.0.deep_view() == path_prefix(path@),
        r.1@ == path_key(path@),
{
    let n = path.unicode_len();
    let mut i: usize = n;
    while i > 0
        invariant
            i <= n,
            n == path@.len(),
            forall|j: int| i <= j < n ==> path@[j] != ':',
        decreases i,
    {
        i = i - 1;
        if path.get_char(i) == ':' {
            proof {
                lemma_last_sep_at(path@, i as int);
            }
            let prefix = path.substring_char(0, i);
            let key = path.substring_char(i + 1, n);
            return (Some(String::from_str(prefix)), String::from_str(key));
        }
    }
    proof {
        lemma_last_sep_props(path@);
        if has_sep(path@) {
            let w = choose|k: int| 0 <= k < path@.len() && path@[k] == ':';
            assert(path@[w] != ':');
        }
    }
    (None, String::from_str(path))
}

} // verus!
