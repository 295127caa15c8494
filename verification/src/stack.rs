//! Commit-range enumeration ("stacking"): given the walk over a
//! range, newest first, keep only commits with a non-empty
//! changed-file set and return them oldest first.

use vstd::prelude::*;
use crate::backend::StackedCommitInfo;

verus! {

/// One candidate commit from a range walk, newest first, with the
/// result of its changed-file classification.
pub struct StackEntry {
    /// Canonical hex object identifier.
    pub commit_id: String,
    /// Short prefix of the identifier.
    pub short_id: String,
    /// First line of the commit message.
    pub summary: String,
    /// Whether the commit changed at least one file.
    pub has_changes: bool,
}

/// The record a retained candidate contributes to the output.
pub open spec fn entry_info(e: StackEntry) -> StackedCommitInfo {
    StackedCommitInfo {
        commit_id: e.commit_id,
        short_id: e.short_id,
        change_id: None,
        summary: e.summary,
    }
}

/// The stacked output for a newest-first candidate list: oldest
/// first, commits without changes dropped.
pub open spec fn stack_rep(c: Seq<StackEntry>) -> Seq<StackedCommitInfo>
    decreases c.len(),
{
    if c.len() == 0 {
        Seq::empty()
    } else {
        stack_rep(c.drop_first()) + (if c.first().has_changes {
            seq![entry_info(c.first())]
        } else {
            Seq::<StackedCommitInfo>::empty()
        })
    }
}

/// Assemble the stacked records from a newest-first candidate list.
pub fn build_stack(candidates: &Vec<StackEntry>) -> (r: Vec<StackedCommitInfo>)
    ensures
        r@ == stack_rep(candidates@),
{
    let n = candidates.len();
    let mut out: Vec<StackedCommitInfo> = Vec::new();
    let mut j: usize = n;
    while j > 0
        invariant
            j <= n,
            n == candidates@.len(),
            out@ == stack_rep(candidates@.subrange(j as int, n as int)),
        decreases j,
    {
        j -= 1;
        let e = &candidates[j];
        if e.has_changes {
            out.push(
                StackedCommitInfo {
                    commit_id: e.commit_id.clone(),
                    short_id: e.short_id.clone(),
                    change_id: None,
                    summary: e.summary.clone(),
                },
            );
        }
        proof {
            let sub = candidates@.subrange(j as int, n as int);
            assert(sub.drop_first() =~= candidates@.subrange(j + 1, n as int));
            assert(sub.first() == candidates@[j as int]);
            assert(out@ =~= stack_rep(sub));
        }
    }
    proof {
        assert(candidates@.subrange(0, n as int) =~= candidates@);
    }
    out
}

/// An empty candidate list stacks to an empty output.
pub proof fn lemma_stack_empty()
    ensures
        stack_rep(Seq::<StackEntry>::empty()) == Seq::<StackedCommitInfo>::empty(),
{
}

/// For a list of candidates that all changed files, stacking keeps
/// every one of them and only reverses the order: entry `i` of the
/// output is candidate `n - 1 - i`, summary included.
pub proof fn lemma_stack_all_nonempty(c: Seq<StackEntry>)
    requires
        forall|k: int| 0 <= k < c.len() ==> (#[trigger] c[k]).has_changes,
    ensures
        stack_rep(c).len() == c.len(),
        forall|i: int| 0 <= i < c.len() ==> stack_rep(c)[i] == entry_info(c[c.len() - 1 - i]),
    decreases c.len(),
{
    if c.len() > 0 {
        let t = c.drop_first();
        lemma_stack_all_nonempty(t);
        assert(forall|i: int|
            0 <= i < c.len() - 1 ==> stack_rep(c)[i] == stack_rep(t)[i] && t[c.len() - 2 - i]
                == c[c.len() - 1 - i]);
        assert(stack_rep(c)[c.len() - 1] == entry_info(c.first()));
    }
}

/// Every stacked record comes from some candidate.
pub proof fn lemma_stack_elements(c: Seq<StackEntry>)
    ensures
        forall|i: int|
            0 <= i < stack_rep(c).len() ==> exists|k: int|
                0 <= k < c.len() && #[trigger] stack_rep(c)[i] == entry_info(#[trigger] c[k]),
    decreases c.len(),
{
    if c.len() > 0 {
        let t = c.drop_first();
        lemma_stack_elements(t);
        assert forall|i: int| 0 <= i < stack_rep(c).len() implies exists|k: int|
            0 <= k < c.len() && #[trigger] stack_rep(c)[i] == entry_info(#[trigger] c[k]) by {
            if i < stack_rep(t).len() {
                assert(stack_rep(c)[i] == stack_rep(t)[i]);
                let k = choose|k: int|
                    0 <= k < t.len() && stack_rep(t)[i] == entry_info(#[trigger] t[k]);
                assert(c[k + 1] == t[k]);
            } else {
                assert(stack_rep(c)[i] == entry_info(c[0]));
            }
        }
    }
}

/// A candidate with no changed files is dropped without disturbing
/// its neighbours: the output is that of the list with the entry
/// removed, so the surrounding commits keep their relative order.
pub proof fn lemma_stack_drops_empty(c: Seq<StackEntry>, i: int)
    requires
        0 <= i < c.len(),
        !c[i].has_changes,
    ensures
        stack_rep(c) == stack_rep(c.remove(i)),
    decreases c.len(),
{
    if i == 0 {
        assert(c.remove(0) =~= c.drop_first());
        assert(stack_rep(c.drop_first()) + Seq::<StackedCommitInfo>::empty() =~= stack_rep(
            c.drop_first(),
        ));
    } else {
        lemma_stack_drops_empty(c.drop_first(), i - 1);
        assert(c.remove(i).drop_first() =~= c.drop_first().remove(i - 1));
        assert(c.remove(i).first() == c.first());
        assert(c.remove(i).len() > 0);
    }
}

} // verus!
