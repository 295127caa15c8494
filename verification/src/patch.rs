//! Unified-patch rendering from a structural line list, applying the
//! path exclusion filter per line: a line belonging to an excluded
//! path on either side of the change is dropped entirely.

use vstd::prelude::*;
use vstd::string::StringExecFns;
use crate::exclude::{path_excluded, should_exclude_path};

verus! {

/// One line of a structural diff: the paths on both sides of the
/// change it belongs to, its origin marker, and its text (absent
/// when the bytes were not valid UTF-8).
pub struct PatchLine {
    /// Path on the old side of the change, when one exists.
    pub old_path: Option<String>,
    /// Path on the new side of the change, when one exists.
    pub new_path: Option<String>,
    /// The line's origin marker: `+`, `-`, or a space for content
    /// lines; other markers for file headers, hunk headers, and
    /// binary notices.
    pub origin: char,
    /// The line's text, when it was valid UTF-8.
    pub content: Option<String>,
}

/// Whether a line is suppressed: either side's path is excluded.
pub open spec fn line_suppressed(l: PatchLine) -> bool {
    (l.old_path matches Some(p) && path_excluded(p@)) || (l.new_path matches Some(p)
        && path_excluded(p@))
}

/// Content lines carry their origin marker as a one-character
/// prefix; header and binary lines carry none.
pub open spec fn line_prefix(origin: char) -> Seq<char> {
    if origin == '+' || origin == '-' || origin == ' ' {
        seq![origin]
    } else {
        Seq::empty()
    }
}

/// The text a single retained line contributes to the output.
pub open spec fn line_text(l: PatchLine) -> Seq<char> {
    line_prefix(l.origin) + (match l.content {
        Some(c) => c@,
        None => Seq::empty(),
    })
}

/// The rendered patch: the concatenation, in order, of the text of
/// every line that is not suppressed.
pub open spec fn rendered(lines: Seq<PatchLine>) -> Seq<char>
    decreases lines.len(),
{
    if lines.len() == 0 {
        Seq::empty()
    } else {
        rendered(lines.drop_last()) + (if line_suppressed(lines.last()) {
            Seq::<char>::empty()
        } else {
            line_text(lines.last())
        })
    }
}

/// Render a structural line list as unified-patch text, dropping
/// every line of an excluded path.
pub fn render_patch(lines: &Vec<PatchLine>) -> (r: String)
    ensures
        r@ == rendered(lines@),
{
    let mut out = String::new();
    let n = lines.len();
    let mut i: usize = 0;
    while i < n
        invariant
            i <= n,
            n == lines@.len(),
            out@ == rendered(lines@.subrange(0, i as int)),
        decreases n - i,
    {
        let l = &lines[i];
        let mut drop_line = false;
        if let Some(p) = &l.new_path {
            if should_exclude_path(p.as_str()) {
                drop_line = true;
            }
        }
        if let Some(p) = &l.old_path {
            if should_exclude_path(p.as_str()) {
                drop_line = true;
            }
        }
        if !drop_line {
            if l.origin == '+' {
                out.append("+");
                proof {
                    reveal_strlit("+");
                }
            } else if l.origin == '-' {
                out.append("-");
                proof {
                    reveal_strlit("-");
                }
            } else if l.origin == ' ' {
                out.append(" ");
                proof {
                    reveal_strlit(" ");
                }
            }
            if let Some(c) = &l.content {
                out.append(c.as_str());
            }
        }
        i += 1;
        proof {
            assert(lines@.subrange(0, i as int).drop_last() =~= lines@.subrange(0, i - 1));
            assert(lines@.subrange(0, i as int).last() == lines@[i - 1]);
            assert(out@ =~= rendered(lines@.subrange(0, i as int)));
        }
    }
    proof {
        assert(lines@.subrange(0, n as int) =~= lines@);
    }
    out
}

/// Rendering ignores suppressed lines entirely: the output equals
/// the rendering of the retained lines alone, so no text of an
/// excluded path ever reaches the output.
pub proof fn lemma_rendered_skips_suppressed(lines: Seq<PatchLine>)
    ensures
        rendered(lines) == rendered(lines.filter(|l: PatchLine| !line_suppressed(l))),
    decreases lines.len(),
{
    reveal(Seq::filter);
    let pred = |l: PatchLine| !line_suppressed(l);
    if lines.len() > 0 {
        lemma_rendered_skips_suppressed(lines.drop_last());
        let f = lines.drop_last().filter(pred);
        if pred(lines.last()) {
            assert(lines.filter(pred) == f.push(lines.last()));
            assert(f.push(lines.last()).drop_last() =~= f);
            assert(rendered(lines.filter(pred)) == rendered(f) + line_text(lines.last()));
        } else {
            assert(lines.filter(pred) == f);
            assert(rendered(lines) == rendered(lines.drop_last()) + Seq::<char>::empty());
            assert(rendered(lines.drop_last()) + Seq::<char>::empty() =~= rendered(
                lines.drop_last(),
            ));
        }
    }
}

/// An empty structural diff renders as the empty string.
pub proof fn lemma_rendered_empty()
    ensures
        rendered(Seq::<PatchLine>::empty()) == Seq::<char>::empty(),
{
}

} // verus!
