//! Reference validation hardened against argument injection: a
//! reference whose trimmed form begins with a hyphen could be taken
//! for a command option and is rejected before any resolution.

use vstd::prelude::*;
use vstd::string::StrSliceExecFns;

verus! {

/// The Unicode White_Space property, the set `char::is_whitespace`
/// recognizes.
pub open spec fn is_ws(c: char) -> bool {
    ('\u{09}' <= c <= '\u{0d}') || c == ' ' || c == '\u{85}' || c == '\u{a0}' || c == '\u{1680}'
        || ('\u{2000}' <= c <= '\u{200a}') || c == '\u{2028}' || c == '\u{2029}' || c == '\u{202f}'
        || c == '\u{205f}' || c == '\u{3000}'
}

/// `s` with leading whitespace removed.
pub open spec fn trim_start_rep(s: Seq<char>) -> Seq<char>
    decreases s.len(),
{
    if s.len() == 0 {
        s
    } else if is_ws(s[0]) {
        trim_start_rep(s.drop_first())
    } else {
        s
    }
}

/// `s` with trailing whitespace removed.
pub open spec fn trim_end_rep(s: Seq<char>) -> Seq<char>
    decreases s.len(),
{
    if s.len() == 0 {
        s
    } else if is_ws(s.last()) {
        trim_end_rep(s.drop_last())
    } else {
        s
    }
}

/// `s` with whitespace removed from both ends.
pub open spec fn trim_rep(s: Seq<char>) -> Seq<char> {
    trim_end_rep(trim_start_rep(s))
}

/// Whether a reference string, once trimmed, begins with a hyphen
/// and so could be mistaken for a command flag.
pub open spec fn flag_like(s: Seq<char>) -> bool {
    trim_rep(s).len() > 0 && trim_rep(s)[0] == '-'
}

proof fn lemma_trim_start_head(s: Seq<char>)
    ensures
        trim_start_rep(s).len() > 0 ==> !is_ws(trim_start_rep(s)[0]),
    decreases s.len(),
{
    if s.len() > 0 && is_ws(s[0]) {
        lemma_trim_start_head(s.drop_first());
    }
}

proof fn lemma_trim_end_prefix(s: Seq<char>)
    ensures
        trim_end_rep(s).len() <= s.len(),
        trim_end_rep(s) == s.subrange(0, trim_end_rep(s).len() as int),
        trim_end_rep(s).len() > 0 ==> !is_ws(trim_end_rep(s).last()),
    decreases s.len(),
{
    if s.len() > 0 && is_ws(s.last()) {
        let t = s.drop_last();
        lemma_trim_end_prefix(t);
        assert(t.subrange(0, trim_end_rep(t).len() as int) =~= s.subrange(
            0,
            trim_end_rep(t).len() as int,
        ));
    } else if s.len() > 0 {
        assert(trim_end_rep(s) =~= s.subrange(0, s.len() as int));
    } else {
        assert(trim_end_rep(s) =~= s.subrange(0, 0));
    }
}

proof fn lemma_trim_end_keeps_head(s: Seq<char>)
    requires
        s.len() > 0,
        !is_ws(s[0]),
    ensures
        trim_end_rep(s).len() > 0,
        trim_end_rep(s)[0] == s[0],
    decreases s.len(),
{
    if is_ws(s.last()) {
        lemma_trim_end_keeps_head(s.drop_last());
    }
}

/// Trimming is idempotent.
pub proof fn lemma_trim_idempotent(s: Seq<char>)
    ensures
        trim_rep(trim_rep(s)) == trim_rep(s),
{
    let u = trim_start_rep(s);
    let t = trim_end_rep(u);
    lemma_trim_start_head(s);
    lemma_trim_end_prefix(u);
    if t.len() > 0 {
        assert(t[0] == u[0]);
        assert(!is_ws(t[0]));
        assert(trim_start_rep(t) == t);
        assert(!is_ws(t.last()));
        assert(trim_end_rep(t) == t);
    } else {
        assert(trim_start_rep(t) == t);
        assert(trim_end_rep(t) == t);
    }
}

/// Trimming first changes nothing about looking like a flag.
pub proof fn lemma_flag_like_trim(s: Seq<char>)
    ensures
        flag_like(trim_rep(s)) == flag_like(s),
{
    lemma_trim_idempotent(s);
}

/// A string whose first character is a hyphen is flag-like, and its
/// trimmed form still begins with that hyphen.
pub proof fn lemma_flag_like_head(s: Seq<char>)
    requires
        s.len() > 0,
        s[0] == '-',
    ensures
        flag_like(s),
{
    assert(!is_ws('-'));
    assert(trim_start_rep(s) == s);
    lemma_trim_end_keeps_head(s);
}

fn is_ws_exec(c: char) -> (r: bool)
    ensures
        r == is_ws(c),
{
    ('\u{09}' <= c && c <= '\u{0d}') || c == ' ' || c == '\u{85}' || c == '\u{a0}' || c
        == '\u{1680}' || ('\u{2000}' <= c && c <= '\u{200a}') || c == '\u{2028}' || c == '\u{2029}'
        || c == '\u{202f}' || c == '\u{205f}' || c == '\u{3000}'
}

proof fn lemma_trim_start_at(s: Seq<char>, i: int)
    requires
        0 <= i <= s.len(),
        forall|k: int| 0 <= k < i ==> is_ws(s[k]),
        i < s.len() ==> !is_ws(s[i]),
    ensures
        trim_start_rep(s) == s.subrange(i, s.len() as int),
    decreases s.len(),
{
    if i == 0 {
        if s.len() == 0 {
            assert(trim_start_rep(s) =~= s.subrange(0, s.len() as int));
        } else {
            assert(trim_start_rep(s) =~= s.subrange(0, s.len() as int));
        }
    } else {
        let t = s.drop_first();
        assert(forall|k: int| 0 <= k < i - 1 ==> is_ws(#[trigger] t[k]));
        lemma_trim_start_at(t, i - 1);
        assert(t.subrange(i - 1, t.len() as int) =~= s.subrange(i, s.len() as int));
    }
}

proof fn lemma_trim_end_at(s: Seq<char>, j: int)
    requires
        0 <= j <= s.len(),
        forall|k: int| j <= k < s.len() ==> is_ws(s[k]),
        j > 0 ==> !is_ws(s[j - 1]),
    ensures
        trim_end_rep(s) == s.subrange(0, j),
    decreases s.len(),
{
    if j == s.len() {
        assert(trim_end_rep(s) =~= s.subrange(0, j));
    } else {
        let t = s.drop_last();
        assert(forall|k: int| j <= k < t.len() ==> is_ws(#[trigger] t[k]));
        lemma_trim_end_at(t, j);
        assert(t.subrange(0, j) =~= s.subrange(0, j));
    }
}

/// `s` with whitespace removed from both ends, as `str::trim` does.
pub fn trim_str(s: &str) -> (r: &str)
    ensures
        r@ == trim_rep(s@),
{
    let n = s.unicode_len();
    let mut i: usize = 0;
    while i < n && is_ws_exec(s.get_char(i))
        invariant
            i <= n,
            n == s@.len(),
            forall|k: int| 0 <= k < i ==> is_ws(s@[k]),
        decreases n - i,
    {
        i += 1;
    }
    proof {
        lemma_trim_start_at(s@, i as int);
    }
    if i == n {
        proof {
            assert(trim_rep(s@) =~= ""@) by {
                assert(trim_start_rep(s@) =~= Seq::<char>::empty());
                reveal_strlit("");
            }
        }
        return "";
    }
    let mut j: usize = n;
    while j > i && is_ws_exec(s.get_char(j - 1))
        invariant
            i < j <= n || j == i,
            n == s@.len(),
            i < n,
            !is_ws(s@[i as int]),
            forall|k: int| j <= k < n ==> is_ws(s@[k]),
        decreases j,
    {
        j -= 1;
    }
    proof {
        assert(i < j);
        let t = trim_start_rep(s@);
        assert(t =~= s@.subrange(i as int, n as int));
        assert(forall|k: int| j - i <= k < t.len() ==> is_ws(#[trigger] t[k]));
        assert(!is_ws(t[j - i - 1]));
        lemma_trim_end_at(t, j - i);
        assert(t.subrange(0, j - i) =~= s@.subrange(i as int, j as int));
    }
    s.substring_char(i, j)
}

/// Whether a reference string, once trimmed, begins with a hyphen.
pub fn is_flag_like(s: &str) -> (r: bool)
    ensures
        r == flag_like(s@),
{
    let t = trim_str(s);
    if t.unicode_len() == 0 {
        false
    } else {
        t.get_char(0) == '-'
    }
}

} // verus!
