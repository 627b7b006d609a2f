//! Folder paths as text, in the notation of the platform that the game runs
//! on: components separated by a backslash, with the forward slash accepted
//! as a separator too.

use vstd::prelude::*;
use crate::text::{chars_of, string_of};

verus! {

/// The separator written between a folder and its child.
pub const SEPARATOR: char = '\\';

/// Whether the character separates two components of a path.
pub open spec fn is_separator(c: char) -> bool {
    c == '\\' || c == '/'
}

/// Whether no character of the name is a separator.
pub open spec fn is_plain_name(name: Seq<char>) -> bool {
    name.len() > 0 && forall|i: int| 0 <= i < name.len() ==> !is_separator(#[trigger] name[i])
}

/// The path of `child` under `base`: the two joined by one separator, which
/// is left out where `base` is empty or already ends in one.
pub open spec fn join_of(base: Seq<char>, child: Seq<char>) -> Seq<char> {
    if base.len() == 0 || is_separator(base.last()) {
        base + child
    } else {
        base.push(SEPARATOR) + child
    }
}

/// The length of the path without the separators at its end.
pub open spec fn trimmed_len(path: Seq<char>) -> nat
    decreases path.len(),
{
    if path.len() > 0 && is_separator(path.last()) {
        trimmed_len(path.drop_last())
    } else {
        path.len()
    }
}

/// The position of the last separator in the path, or -1 where it has none.
pub open spec fn last_separator(path: Seq<char>) -> int
    decreases path.len(),
{
    if path.len() == 0 {
        -1
    } else if is_separator(path.last()) {
        path.len() - 1
    } else {
        last_separator(path.drop_last())
    }
}

/// The folder that holds the path's last component: the path without the
/// separators at its end, cut before its last separator. A path of one
/// component has no parent.
pub open spec fn parent_of(path: Seq<char>) -> Option<Seq<char>> {
    let trimmed = path.take(trimmed_len(path) as int);
    let cut = last_separator(trimmed);
    if cut < 0 {
        None
    } else {
        Some(trimmed.take(cut))
    }
}

/// Whether the character separates two components of a path.
pub fn separates(c: char) -> (r: bool)
    ensures
        r == is_separator(c),
{
    c == '\\' || c == '/'
}

/// Joins a folder and the name of a child.
pub fn join(base: &str, child: &str) -> (joined: String)
    ensures
        joined@ == join_of(base@, child@),
{
    let mut out = chars_of(base);
    let mut rest = chars_of(child);
    if out.len() > 0 && !separates(out[out.len() - 1]) {
        out.push(SEPARATOR);
    }
    out.append(&mut rest);
    string_of(out.as_slice())
}

proof fn lemma_trimmed_len_unique(path: Seq<char>, n: nat)
    requires
        n <= path.len(),
        n > 0 ==> !is_separator(path[n - 1]),
        forall|i: int| n <= i < path.len() ==> is_separator(#[trigger] path[i]),
    ensures
        trimmed_len(path) == n,
    decreases path.len(),
{
    if path.len() > 0 && is_separator(path.last()) {
        if n == path.len() {
            assert(false);
        }
        lemma_trimmed_len_unique(path.drop_last(), n);
    } else if path.len() > 0 {
        if n < path.len() {
            assert(is_separator(path[path.len() - 1]));
        }
    }
}

proof fn lemma_last_separator_unique(path: Seq<char>, k: int)
    requires
        -1 <= k < path.len(),
        k >= 0 ==> is_separator(path[k]),
        forall|i: int| k < i < path.len() ==> !is_separator(#[trigger] path[i]),
    ensures
        last_separator(path) == k,
    decreases path.len(),
{
    if path.len() > 0 {
        if is_separator(path.last()) {
            if k < path.len() - 1 {
                assert(!is_separator(path[path.len() - 1]));
            }
        } else {
            lemma_last_separator_unique(path.drop_last(), k);
        }
    }
}

/// The parent folder of a path, where it has one.
pub fn parent(path: &str) -> (up: Option<String>)
    ensures
        match up {
            Some(p) => parent_of(path@) == Some(p@),
            None => parent_of(path@) is None,
        },
{
    let chars = chars_of(path);
    let mut end: usize = chars.len();
    while end > 0 && separates(chars[end - 1])
        invariant
            end <= chars@.len(),
            forall|i: int| end <= i < chars@.len() ==> is_separator(#[trigger] chars@[i]),
        decreases end,
    {
        end -= 1;
    }
    proof {
        lemma_trimmed_len_unique(chars@, end as nat);
    }
    let ghost trimmed = chars@.take(end as int);
    let mut cut: usize = end;
    while cut > 0 && !separates(chars[cut - 1])
        invariant
            cut <= end <= chars@.len(),
            trimmed == chars@.take(end as int),
            forall|i: int| cut <= i < end ==> !is_separator(#[trigger] trimmed[i]),
        decreases cut,
    {
        cut -= 1;
    }
    if cut == 0 {
        proof {
            lemma_last_separator_unique(trimmed, -1);
        }
        None
    } else {
        proof {
            lemma_last_separator_unique(trimmed, cut - 1);
        }
        let mut kept = chars;
        kept.truncate(cut - 1);
        assert(kept@ =~= trimmed.take(cut - 1));
        Some(string_of(kept.as_slice()))
    }
}

/// Joining a plain name onto a folder and taking the parent gives the
/// folder back, provided the folder is not empty and does not end in a
/// separator.
pub proof fn lemma_parent_of_join(base: Seq<char>, child: Seq<char>)
    requires
        base.len() > 0,
        !is_separator(base.last()),
        is_plain_name(child),
    ensures
        parent_of(join_of(base, child)) == Some(base),
{
    let joined = join_of(base, child);
    assert(joined == base.push(SEPARATOR) + child);
    assert(!is_separator(joined[joined.len() - 1])) by {
        assert(joined[joined.len() - 1] == child[child.len() - 1]);
    }
    lemma_trimmed_len_unique(joined, joined.len());
    assert(joined.take(joined.len() as int) =~= joined);
    assert forall|i: int| base.len() < i < joined.len() implies !is_separator(#[trigger] joined[i]) by {
        assert(joined[i] == child[i - base.len() - 1]);
    }
    assert(joined[base.len() as int] == SEPARATOR);
    lemma_last_separator_unique(joined, base.len() as int);
    assert(joined.take(base.len() as int) =~= base);
}

} // verus!
