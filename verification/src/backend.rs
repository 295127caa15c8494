//! The backend capability contract: the record types every backend
//! returns, the error taxonomy, and the polymorphic interface that
//! insulates callers from the concrete version-control system.

use vstd::prelude::*;
use crate::refname::flag_like;

verus! {

/// One resolved commit's presentation data.
pub struct CommitInfo {
    /// Canonical hex object identifier.
    pub commit_id: String,
    /// Stable change identifier, for backends that have one; absent
    /// for hash-only backends.
    pub change_id: Option<String>,
    /// Full commit message, trailing newlines stripped.
    pub message: String,
    /// Unified-patch text against the first parent (or the empty
    /// tree for a root commit).
    pub diff: String,
    /// `"Name <email>"`.
    pub author: String,
    /// Absolute local-time string, `YYYY-MM-DD HH:MM:SS`.
    pub date: String,
}

/// Lightweight per-commit record for range enumeration.
pub struct StackedCommitInfo {
    /// Canonical hex object identifier.
    pub commit_id: String,
    /// Short prefix of the identifier.
    pub short_id: String,
    /// Stable change identifier, when the backend has one.
    pub change_id: Option<String>,
    /// First line of the commit message.
    pub summary: String,
}

/// The error taxonomy. Errors are terminal per call; no operation
/// retries.
#[derive(Debug)]
pub enum VcsError {
    /// Repository discovery failed.
    NotARepository,
    /// A reference does not resolve or fails validation.
    InvalidRef(String),
    /// A path is absent at the requested revision.
    FileNotFound(String),
    /// A wrapped lower-level failure with human-readable context.
    Other(String),
}

/// The abstract interface every version-control backend satisfies.
/// Every operation that accepts a reference rejects one whose
/// trimmed form begins with a hyphen with `InvalidRef`, never with
/// the catch-all kind.
pub trait VcsBackend {
    /// Resolve a single reference to a commit with its metadata and
    /// diff against its first parent.
    fn get_commit(&self, reference: &str) -> (r: Result<CommitInfo, VcsError>)
        ensures
            flag_like(reference@) ==> r matches Err(VcsError::InvalidRef(_)),
    ;

    /// With `staged`, compare the last commit's tree to the index;
    /// otherwise compare the index to the working tree. A clean tree
    /// yields an empty string, not an error.
    fn get_working_tree_diff(&self, staged: bool) -> (r: Result<String, VcsError>);

    /// Diff `from`'s tree against `to`'s tree; with `three_dot`,
    /// diff the merge-base of the two against `to`'s tree instead.
    fn get_range_diff(&self, from: &str, to: &str, three_dot: bool) -> (r: Result<
        String,
        VcsError,
    >)
        ensures
            flag_like(from@) || flag_like(to@) ==> r matches Err(VcsError::InvalidRef(_)),
    ;

    /// Files changed by a range (when the reference holds a two-dot
    /// or three-dot separator) or by a single commit against its
    /// first parent.
    fn get_changed_files(&self, reference: &str) -> (r: Result<Vec<String>, VcsError>)
        ensures
            flag_like(reference@) ==> r matches Err(VcsError::InvalidRef(_)),
    ;

    /// The text of one file at one revision; `FileNotFound` when the
    /// path is absent from that revision's tree.
    fn get_file_content_at_ref(&self, reference: &str, path: &str) -> (r: Result<String, VcsError>)
        ensures
            flag_like(reference@) ==> r matches Err(VcsError::InvalidRef(_)),
    ;

    /// The current branch name, or `None` (not an error) when the
    /// working position is detached.
    fn get_current_branch(&self) -> (r: Result<Option<String>, VcsError>);

    /// One line per commit reachable from the working position, with
    /// short id, summary, and relative age, colored for
    /// fuzzy-selection tooling.
    fn get_commit_log_for_fzf(&self) -> (r: Result<String, VcsError>);

    /// Resolve a reference to its canonical commit id.
    fn resolve_ref(&self, reference: &str) -> (r: Result<String, VcsError>)
        ensures
            flag_like(reference@) ==> r matches Err(VcsError::InvalidRef(_)),
    ;

    /// The union of modified, added, and untracked paths; ignored
    /// paths and submodules excluded; duplicate-free.
    fn get_working_tree_changed_files(&self) -> (r: Result<Vec<String>, VcsError>);

    /// The nearest common ancestor of two commits.
    fn get_merge_base(&self, ref1: &str, ref2: &str) -> (r: Result<String, VcsError>)
        ensures
            flag_like(ref1@) || flag_like(ref2@) ==> r matches Err(VcsError::InvalidRef(_)),
    ;

    /// The backend's symbolic name for the current working position.
    fn working_copy_parent_ref(&self) -> (r: &'static str);

    /// Files changed between two resolved endpoints.
    fn get_range_changed_files(&self, from: &str, to: &str) -> (r: Result<Vec<String>, VcsError>)
        ensures
            flag_like(from@) || flag_like(to@) ==> r matches Err(VcsError::InvalidRef(_)),
    ;

    /// A reference expression for the commit's parent, or the
    /// backend's well-known empty-tree identifier for a root commit.
    fn get_parent_ref_or_empty(&self, reference: &str) -> (r: Result<String, VcsError>)
        ensures
            flag_like(reference@) ==> r matches Err(VcsError::InvalidRef(_)),
    ;

    /// The commits reachable from `to` but not from `from`, oldest
    /// first, dropping any commit whose changed-file set is empty.
    fn get_commits_in_range(&self, from: &str, to: &str) -> (r: Result<
        Vec<StackedCommitInfo>,
        VcsError,
    >)
        ensures
            flag_like(from@) || flag_like(to@) ==> r matches Err(VcsError::InvalidRef(_)),
    ;

    /// A constant identifier naming the backend.
    fn name(&self) -> (r: &'static str);
}

} // verus!
