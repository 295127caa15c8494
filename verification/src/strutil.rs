//! Small verified string helpers shared by the path filter and the
//! reference validator.

use vstd::prelude::*;
use vstd::string::StrSliceExecFns;

verus! {

/// Character-by-character string equality.
pub fn str_eq(a: &str, b: &str) -> (r: bool)
    ensures
        r == (a@ == b@),
{
    let na = a.unicode_len();
    let nb = b.unicode_len();
    if na != nb {
        proof {
            assert(a@ != b@) by {
                if a@ == b@ {
                    assert(a@.len() == b@.len());
                }
            }
        }
        return false;
    }
    let mut i: usize = 0;
    while i < na
        invariant
            i <= na,
            na == a@.len(),
            na == b@.len(),
            forall|k: int| 0 <= k < i ==> a@[k] == b@[k],
        decreases na - i,
    {
        if a.get_char(i) != b.get_char(i) {
            return false;
        }
        i += 1;
    }
    proof {
        assert(a@ =~= b@);
    }
    true
}

/// Whether `sub` occurs in `s` starting at index `i`.
pub open spec fn contains_at(s: Seq<char>, sub: Seq<char>, i: int) -> bool {
    0 <= i && i + sub.len() <= s.len() && s.subrange(i, i + sub.len()) == sub
}

/// Whether `sub` occurs anywhere in `s`.
pub open spec fn contains_seq(s: Seq<char>, sub: Seq<char>) -> bool {
    exists|i: int| contains_at(s, sub, i)
}

/// Substring search by scanning every starting position.
pub fn contains_str(s: &str, sub: &str) -> (r: bool)
    requires
        sub@.len() > 0,
    ensures
        r == contains_seq(s@, sub@),
{
    let n = s.unicode_len();
    let m = sub.unicode_len();
    if m > n {
        proof {
            assert(!contains_seq(s@, sub@)) by {
                if contains_seq(s@, sub@) {
                    let i = choose|i: int| contains_at(s@, sub@, i);
                }
            }
        }
        return false;
    }
    let mut i: usize = 0;
    while i <= n - m
        invariant
            1 <= m <= n,
            n == s@.len(),
            m == sub@.len(),
            i <= n - m + 1,
            forall|k: int| 0 <= k < i ==> !contains_at(s@, sub@, k),
        decreases n - m + 1 - i,
    {
        let piece = s.substring_char(i, i + m);
        if str_eq(piece, sub) {
            proof {
                assert(contains_at(s@, sub@, i as int));
            }
            return true;
        }
        i += 1;
    }
    proof {
        assert(!contains_seq(s@, sub@)) by {
            if contains_seq(s@, sub@) {
                let k = choose|k: int| contains_at(s@, sub@, k);
                assert(0 <= k < i);
            }
        }
    }
    false
}

/// Find the leftmost occurrence of `sub` in `s`.
pub fn find_first(s: &str, sub: &str) -> (r: Option<usize>)
    requires
        sub@.len() > 0,
    ensures
        r matches Some(i) ==> contains_at(s@, sub@, i as int) && (forall|k: int|
            0 <= k < i ==> !contains_at(s@, sub@, k)),
        r is None ==> !contains_seq(s@, sub@),
{
    let n = s.unicode_len();
    let m = sub.unicode_len();
    if m > n {
        proof {
            assert(!contains_seq(s@, sub@)) by {
                if contains_seq(s@, sub@) {
                    let i = choose|i: int| contains_at(s@, sub@, i);
                }
            }
        }
        return None;
    }
    let mut i: usize = 0;
    while i <= n - m
        invariant
            1 <= m <= n,
            n == s@.len(),
            m == sub@.len(),
            i <= n - m + 1,
            forall|k: int| 0 <= k < i ==> !contains_at(s@, sub@, k),
        decreases n - m + 1 - i,
    {
        let piece = s.substring_char(i, i + m);
        if str_eq(piece, sub) {
            proof {
                assert(contains_at(s@, sub@, i as int));
            }
            return Some(i);
        }
        i += 1;
    }
    proof {
        assert(!contains_seq(s@, sub@)) by {
            if contains_seq(s@, sub@) {
                let k = choose|k: int| contains_at(s@, sub@, k);
                assert(0 <= k < i);
            }
        }
    }
    None
}

/// `s` with every trailing newline removed.
pub open spec fn strip_nl_rep(s: Seq<char>) -> Seq<char>
    decreases s.len(),
{
    if s.len() == 0 {
        s
    } else if s.last() == '\n' {
        strip_nl_rep(s.drop_last())
    } else {
        s
    }
}

proof fn lemma_strip_nl_at(s: Seq<char>, j: int)
    requires
        0 <= j <= s.len(),
        forall|k: int| j <= k < s.len() ==> s[k] == '\n',
        j > 0 ==> s[j - 1] != '\n',
    ensures
        strip_nl_rep(s) == s.subrange(0, j),
    decreases s.len(),
{
    if j == s.len() {
        assert(strip_nl_rep(s) =~= s.subrange(0, j));
    } else {
        let t = s.drop_last();
        assert(forall|k: int| j <= k < t.len() ==> t[k] == '\n');
        lemma_strip_nl_at(t, j);
        assert(t.subrange(0, j) =~= s.subrange(0, j));
    }
}

/// A stripped string never ends in a newline.
pub proof fn lemma_strip_nl_last(s: Seq<char>)
    ensures
        strip_nl_rep(s).len() > 0 ==> strip_nl_rep(s).last() != '\n',
    decreases s.len(),
{
    if s.len() > 0 && s.last() == '\n' {
        lemma_strip_nl_last(s.drop_last());
    }
}

/// Strip trailing newlines from a string.
pub fn strip_trailing_newlines(s: &str) -> (r: &str)
    ensures
        r@ == strip_nl_rep(s@),
{
    let n = s.unicode_len();
    let mut j: usize = n;
    while j > 0 && s.get_char(j - 1) == '\n'
        invariant
            j <= n,
            n == s@.len(),
            forall|k: int| j <= k < n ==> s@[k] == '\n',
        decreases j,
    {
        j -= 1;
    }
    proof {
        lemma_strip_nl_at(s@, j as int);
    }
    s.substring_char(0, j)
}

} // verus!
