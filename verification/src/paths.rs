//! Path strings and the parent relation.
//!
//! Every path handed to the journal is a plain string; a path is acceptable
//! when it is non-empty and rooted at `/`. The parent of a path is obtained
//! by cutting the string at its last separator.

use vstd::prelude::*;

verus! {

/// A path the journal accepts: non-empty and starting with `/`.
pub open spec fn valid_path(p: Seq<char>) -> bool {
    p.len() > 0 && p[0] == '/'
}

/// Index of the separator that splits off the last segment: the largest
/// position holding `/`, except that position 0 never counts (a top-level
/// path keeps nothing before its separator). 0 when no such position exists.
pub open spec fn spec_last_sep(p: Seq<char>) -> int
    decreases p.len(),
{
    if p.len() <= 1 {
        0
    } else if p[p.len() - 1] == '/' {
        p.len() - 1
    } else {
        spec_last_sep(p.drop_last())
    }
}

/// The parent of a path: everything before the last separator, or `/` for a
/// top-level path (and for `/` itself).
pub open spec fn spec_dirname(p: Seq<char>) -> Seq<char> {
    if spec_last_sep(p) > 0 {
        p.take(spec_last_sep(p))
    } else {
        seq!['/']
    }
}

/// `q` lies strictly below `p` in the sense the journal uses: `p` is a
/// proper string prefix of `q`.
pub open spec fn is_strict_descendant(q: Seq<char>, p: Seq<char>) -> bool {
    q.len() > p.len() && q.take(p.len() as int) == p
}

pub proof fn lemma_last_sep_range(p: Seq<char>)
    requires
        p.len() >= 1,
    ensures
        0 <= spec_last_sep(p) < p.len(),
    decreases p.len(),
{
    if p.len() > 1 && p[p.len() - 1] != '/' {
        lemma_last_sep_range(p.drop_last());
    }
}

/// The parent of a valid path other than `/` itself is a strictly shorter
/// string, and is itself a valid path.
pub proof fn lemma_dirname_shorter(p: Seq<char>)
    requires
        valid_path(p),
        p != seq!['/'],
    ensures
        spec_dirname(p).len() < p.len(),
        spec_dirname(p) != p,
        valid_path(spec_dirname(p)),
    decreases p.len(),
{
    lemma_last_sep_range(p);
    if spec_last_sep(p) > 0 {
        assert(spec_dirname(p) == p.take(spec_last_sep(p)));
        assert(spec_dirname(p)[0] == p[0]);
    } else {
        assert(p.len() >= 2 || p =~= seq!['/']);
        assert(seq!['/'][0] == '/');
    }
}

/// Position of the separator before the last `/`-delimited segment.
pub fn last_sep(path: &str) -> (i: usize)
    requires
        path@.len() >= 1,
    ensures
        i == spec_last_sep(path@),
{
    let n = path.unicode_len();
    let mut index: usize = n - 1;
    proof {
        assert(path@.take(n as int) =~= path@);
    }
    loop
        invariant
            path@.len() >= 1,
            0 <= index < path@.len(),
            spec_last_sep(path@) == spec_last_sep(path@.take(index + 1)),
        decreases index,
    {
        if index == 0 {
            return 0;
        }
        if path.get_char(index) == '/' {
            proof {
                assert(path@.take(index + 1).last() == path@[index as int]);
            }
            return index;
        }
        proof {
            assert(path@.take(index + 1).drop_last() =~= path@.take(index as int));
        }
        index -= 1;
    }
}

/// The parent path, as `spec_dirname` describes it.
pub fn dirname(path: &str) -> (res: String)
    requires
        path@.len() >= 1,
    ensures
        res@ == spec_dirname(path@),
{
    let index = last_sep(path);
    proof {
        lemma_last_sep_range(path@);
    }
    if index > 0 {
        let s = path.substring_char(0, index);
        s.to_owned()
    } else {
        proof {
            reveal_strlit("/");
            assert("/"@ =~= seq!['/']);
        }
        "/".to_owned()
    }
}

/// Character-for-character string equality.
pub fn str_eq(a: &str, b: &str) -> (r: bool)
    ensures
        r == (a@ == b@),
{
    let n = a.unicode_len();
    if n != b.unicode_len() {
        return false;
    }
    let mut i: usize = 0;
    while i < n
        invariant
            n == a@.len(),
            n == b@.len(),
            0 <= i <= n,
            forall|j: int| 0 <= j < i ==> a@[j] == b@[j],
        decreases n - i,
    {
        if a.get_char(i) != b.get_char(i) {
            return false;
        }
        i += 1;
    }
    proof {
        assert(a@ =~= b@);
    }
    true
}

/// Whether `b` is a (not necessarily proper) string prefix of `a`.
pub fn str_starts_with(a: &str, b: &str) -> (r: bool)
    ensures
        r == (a@.len() >= b@.len() && a@.take(b@.len() as int) == b@),
{
    let bn = b.unicode_len();
    if a.unicode_len() < bn {
        return false;
    }
    let mut i: usize = 0;
    while i < bn
        invariant
            bn == b@.len(),
            a@.len() >= bn,
            0 <= i <= bn,
            forall|j: int| 0 <= j < i ==> a@[j] == b@[j],
        decreases bn - i,
    {
        if a.get_char(i) != b.get_char(i) {
            proof {
                assert(a@.take(bn as int)[i as int] == a@[i as int]);
            }
            return false;
        }
        i += 1;
    }
    proof {
        assert(a@.take(bn as int) =~= b@);
    }
    true
}

} // verus!
