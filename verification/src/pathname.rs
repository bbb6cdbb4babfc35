//! A textual model of filesystem paths.
//!
//! A path is its sequence of characters; components are separated by `'/'`.
//! Joining a root with a relative suffix inserts a single separator between
//! them; the parent of a path is everything before its last separator.

use vstd::prelude::*;
use vstd::string::*;

verus! {

/// The path obtained by joining a root directory and a relative suffix
/// with a single separator.
pub open spec fn join_with(root: Seq<char>, suffix: Seq<char>) -> Seq<char> {
    root + seq!['/'] + suffix
}

/// Index of the last separator in `s`, or -1 when `s` holds none.
pub open spec fn last_slash(s: Seq<char>) -> int
    decreases s.len(),
{
    if s.len() == 0 {
        -1
    } else if s[s.len() - 1] == '/' {
        s.len() - 1
    } else {
        last_slash(s.drop_last())
    }
}

/// `last_slash` indeed points at the last separator: it lies inside `s`,
/// it holds a separator when non-negative, and no separator follows it.
pub proof fn lemma_last_slash(s: Seq<char>)
    ensures
        -1 <= last_slash(s) < s.len(),
        last_slash(s) == -1 ==> forall|i: int| 0 <= i < s.len() ==> s[i] != '/',
        last_slash(s) >= 0 ==> s[last_slash(s)] == '/',
        forall|i: int| last_slash(s) < i < s.len() ==> s[i] != '/',
    decreases s.len(),
{
    if s.len() == 0 {
    } else if s[s.len() - 1] == '/' {
    } else {
        lemma_last_slash(s.drop_last());
        assert forall|i: int| last_slash(s) < i < s.len() implies s[i] != '/' by {
            if i < s.len() - 1 {
                assert(s.drop_last()[i] == s[i]);
            }
        }
        assert forall|i: int| last_slash(s) == -1 && 0 <= i < s.len() implies s[i] != '/' by {
            if i < s.len() - 1 {
                assert(s.drop_last()[i] == s[i]);
            }
        }
    }
}

/// The parent directory of a path: everything before the last separator,
/// with "/" kept as the parent of a top-level entry.  The filesystem root
/// "/" itself and a bare name without separators have no parent.
pub open spec fn parent_of(s: Seq<char>) -> Option<Seq<char>> {
    let k = last_slash(s);
    if k < 0 {
        None
    } else if k == 0 {
        if s.len() == 1 {
            None
        } else {
            Some(seq!['/'])
        }
    } else {
        Some(s.subrange(0, k))
    }
}

/// A parent is strictly shorter than its child, so walking upward
/// terminates.
pub proof fn lemma_parent_shorter(s: Seq<char>)
    ensures
        parent_of(s) matches Some(p) ==> p.len() < s.len(),
{
    lemma_last_slash(s);
}

/// The last path component: everything after the last separator.
pub open spec fn base_name(s: Seq<char>) -> Seq<char> {
    s.subrange(last_slash(s) + 1, s.len() as int)
}

/// Joins a root directory and a relative suffix with a single separator.
pub fn join(root: &str, suffix: &str) -> (r: String)
    ensures
        r@ == join_with(root@, suffix@),
{
    let mut r = root.to_owned();
    r.append("/");
    r.append(suffix);
    proof {
        reveal_strlit("/");
        assert(r@ =~= join_with(root@, suffix@));
    }
    r
}

/// Finds the last separator of `s`, scanning from the end.
pub fn find_last_slash(s: &str) -> (r: Option<usize>)
    ensures
        match r {
            Some(i) => i < s@.len() && last_slash(s@) == i,
            None => last_slash(s@) == -1,
        },
{
    let n = s.unicode_len();
    let mut i = n;
    while i > 0
        invariant
            i <= n,
            n == s@.len(),
            forall|j: int| i <= j < n ==> s@[j] != '/',
        decreases i,
    {
        let c = s.get_char(i - 1);
        if c == '/' {
            proof {
                lemma_last_slash(s@);
            }
            return Some(i - 1);
        }
        i = i - 1;
    }
    proof {
        lemma_last_slash(s@);
    }
    None
}

/// Returns the parent directory of `path`, as `parent_of` describes it.
pub fn parent_dir(path: &str) -> (r: Option<String>)
    ensures
        r.deep_view() == parent_of(path@),
{
    match find_last_slash(path) {
        None => None,
        Some(k) => {
            if k == 0 {
                if path.unicode_len() == 1 {
                    None
                } else {
                    let sep = "/".to_owned();
                    proof {
                        reveal_strlit("/");
                        assert(sep@ =~= seq!['/']);
                    }
                    Some(sep)
                }
            } else {
                Some(path.substring_char(0, k).to_owned())
            }
        },
    }
}

/// Returns the last component of `path`, as `base_name` describes it.
pub fn base_name_of(path: &str) -> (r: String)
    ensures
        r@ == base_name(path@),
{
    let n = path.unicode_len();
    match find_last_slash(path) {
        None => {
            let r = path.to_owned();
            proof {
                assert(r@ =~= base_name(path@));
            }
            r
        },
        Some(k) => path.substring_char(k + 1, n).to_owned(),
    }
}

} // verus!
