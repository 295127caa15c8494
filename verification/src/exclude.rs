//! The path exclusion filter: a fixed denylist of dependency-lock
//! basenames plus a vendor-directory path pattern. A path whose
//! basename is denied, or which contains the pattern, has its diff
//! lines suppressed entirely.

use vstd::prelude::*;
use vstd::string::StrSliceExecFns;
use crate::strutil::{contains_seq, contains_str, str_eq};

verus! {

/// The part of a path after its last `/`, or the whole path when it
/// has none.
pub open spec fn basename_of(s: Seq<char>) -> Seq<char>
    decreases s.len(),
{
    if s.len() == 0 {
        s
    } else if s.last() == '/' {
        Seq::empty()
    } else {
        basename_of(s.drop_last()).push(s.last())
    }
}

/// The fixed set of dependency-lock basenames whose diffs are
/// suppressed.
pub open spec fn excluded_name(b: Seq<char>) -> bool {
    b == "package-lock.json"@ || b == "yarn.lock"@ || b == "pnpm-lock.yaml"@ || b == "Cargo.lock"@
}

/// Whether a path's diff lines are suppressed: its basename is a
/// denied lock file, or the path contains the vendor-directory
/// marker.
pub open spec fn path_excluded(path: Seq<char>) -> bool {
    excluded_name(basename_of(path)) || contains_seq(path, "node_modules/"@)
}

proof fn lemma_basename_after(s: Seq<char>, j: int)
    requires
        0 <= j < s.len(),
        s[j] == '/',
        forall|k: int| j < k < s.len() ==> s[k] != '/',
    ensures
        basename_of(s) == s.subrange(j + 1, s.len() as int),
    decreases s.len(),
{
    if j == s.len() - 1 {
        assert(basename_of(s) =~= s.subrange(j + 1, s.len() as int));
    } else {
        let t = s.drop_last();
        lemma_basename_after(t, j);
        assert(basename_of(t).push(s.last()) =~= s.subrange(j + 1, s.len() as int));
    }
}

proof fn lemma_basename_no_slash(s: Seq<char>)
    requires
        forall|k: int| 0 <= k < s.len() ==> s[k] != '/',
    ensures
        basename_of(s) == s,
    decreases s.len(),
{
    if s.len() > 0 {
        let t = s.drop_last();
        lemma_basename_no_slash(t);
        assert(basename_of(t).push(s.last()) =~= s);
    }
}

fn excluded_basename(b: &str) -> (r: bool)
    ensures
        r == excluded_name(b@),
{
    str_eq(b, "package-lock.json") || str_eq(b, "yarn.lock") || str_eq(b, "pnpm-lock.yaml")
        || str_eq(b, "Cargo.lock")
}

/// Check whether a path's diff output is suppressed.
pub fn should_exclude_path(path: &str) -> (r: bool)
    ensures
        r == path_excluded(path@),
{
    let n = path.unicode_len();
    let mut slash: usize = n;
    let mut i: usize = 0;
    while i < n
        invariant
            i <= n,
            n == path@.len(),
            slash == n || (slash < i && path@[slash as int] == '/'),
            forall|k: int|
                (if slash == n {
                    0
                } else {
                    slash + 1
                }) <= k < i ==> path@[k] != '/',
        decreases n - i,
    {
        if path.get_char(i) == '/' {
            slash = i;
        }
        i += 1;
    }
    let base: &str = if slash == n {
        proof {
            lemma_basename_no_slash(path@);
        }
        path
    } else {
        proof {
            lemma_basename_after(path@, slash as int);
        }
        path.substring_char(slash + 1, n)
    };
    if excluded_basename(base) {
        return true;
    }
    proof {
        reveal_strlit("node_modules/");
    }
    contains_str(path, "node_modules/")
}

} // verus!
