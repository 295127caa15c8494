//! The git-backed implementation of the backend capability
//! contract, built on the `git2` crate. Every call into `git2` goes
//! through a trusted wrapper whose contract states only what the
//! crate's own source and documentation show; everything around the
//! calls — validation, filtering, rendering, assembly — is verified.

use vstd::prelude::*;
use vstd::string::StrSliceExecFns;
use vstd::string::StringExecFns;
use crate::backend::{CommitInfo, StackedCommitInfo, VcsBackend, VcsError};
use crate::files::{dedup_paths, present_paths};
use crate::patch::{render_patch, PatchLine};
use crate::refname::{flag_like, is_flag_like, trim_rep, trim_str};
use crate::stack::{build_stack, StackEntry};
use crate::strnum::all_lower_hex;
use crate::strutil::{contains_str, find_first, strip_trailing_newlines};
use crate::timefmt::{format_git_time, format_relative_time, git_time_rep};

verus! {

#[verifier::external_type_specification]
#[verifier::external_body]
pub struct ExRepository(git2::Repository);

#[verifier::external_type_specification]
#[verifier::external_body]
pub struct ExObject<'repo>(git2::Object<'repo>);

#[verifier::external_type_specification]
#[verifier::external_body]
pub struct ExCommit<'repo>(git2::Commit<'repo>);

#[verifier::external_type_specification]
#[verifier::external_body]
pub struct ExTree<'repo>(git2::Tree<'repo>);

#[verifier::external_type_specification]
#[verifier::external_body]
pub struct ExReference<'repo>(git2::Reference<'repo>);

#[verifier::external_type_specification]
#[verifier::external_body]
pub struct ExDiff<'repo>(git2::Diff<'repo>);

#[verifier::external_type_specification]
#[verifier::external_body]
pub struct ExOid(git2::Oid);

#[verifier::external_type_specification]
#[verifier::external_body]
pub struct ExIndex(git2::Index);

#[verifier::external_type_specification]
#[verifier::external_body]
pub struct ExConfig(git2::Config);

#[verifier::external_type_specification]
#[verifier::external_body]
pub struct ExSignature<'a>(git2::Signature<'a>);

#[verifier::external_type_specification]
#[verifier::external_body]
pub struct ExGitError(git2::Error);

/// Relies on `git2::Repository::discover`: walks up from `path`
/// until it finds a repository, failing when there is none.
#[verifier::external_body]
fn repo_discover(path: &str) -> (r: Result<git2::Repository, git2::Error>) {
    git2::Repository::discover(path)
}

/// Relies on `git2::Repository::revparse_single`: resolves a
/// revision string to a single object.
#[verifier::external_body]
fn revparse_single<'r>(repo: &'r git2::Repository, rev: &str) -> (r: Result<
    git2::Object<'r>,
    git2::Error,
>) {
    repo.revparse_single(rev)
}

/// Relies on `git2::Object::peel_to_commit`: peels an object to a
/// commit, failing when it is not one.
#[verifier::external_body]
fn obj_peel_to_commit<'r>(obj: &git2::Object<'r>) -> (r: Result<git2::Commit<'r>, git2::Error>) {
    obj.peel_to_commit()
}

/// Relies on `git2::Commit::id`: the commit's object id.
#[verifier::external_body]
fn commit_id(c: &git2::Commit<'_>) -> (r: git2::Oid) {
    c.id()
}

/// Relies on `git2::Oid`'s `Display` impl: an object id renders as
/// its full lowercase hexadecimal form. Without git2's unstable
/// sha-256 feature (not enabled here) every id is a 20-byte SHA-1,
/// so the form has exactly 40 digits.
#[verifier::external_body]
fn oid_hex(oid: &git2::Oid) -> (r: String)
    ensures
        r@.len() == 40,
        all_lower_hex(r@),
{
    oid.to_string()
}

/// Relies on `git2::Commit::tree`: the tree the commit points to.
#[verifier::external_body]
fn commit_tree<'r>(c: &git2::Commit<'r>) -> (r: Result<git2::Tree<'r>, git2::Error>) {
    c.tree()
}

/// Relies on `git2::Commit::parent_count`.
#[verifier::external_body]
fn commit_parent_count(c: &git2::Commit<'_>) -> (r: usize) {
    c.parent_count()
}

/// Relies on `git2::Commit::parent`: the commit's `i`th parent.
#[verifier::external_body]
fn commit_parent<'r>(c: &git2::Commit<'r>, i: usize) -> (r: Result<git2::Commit<'r>, git2::Error>) {
    c.parent(i)
}

/// Relies on `git2::Commit::author` and `git2::Signature`'s `name`
/// and `email`: the author's name and address, empty when not
/// valid UTF-8.
#[verifier::external_body]
fn commit_author_parts(c: &git2::Commit<'_>) -> (r: (String, String)) {
    let sig = c.author();
    (sig.name().unwrap_or("").to_string(), sig.email().unwrap_or("").to_string())
}

/// Relies on `git2::Commit::time` and `git2::Time`: seconds since
/// the epoch and the timezone offset in minutes.
#[verifier::external_body]
fn commit_time_parts(c: &git2::Commit<'_>) -> (r: (i64, i32)) {
    let t = c.time();
    (t.seconds(), t.offset_minutes())
}

/// Relies on `git2::Commit::message`: the full commit message,
/// empty when not valid UTF-8.
#[verifier::external_body]
fn commit_message_or_empty(c: &git2::Commit<'_>) -> (r: String) {
    c.message().unwrap_or("").to_string()
}

/// Relies on `git2::Commit::summary`: the first paragraph of the
/// message, whitespace trimmed and squashed; empty when absent or
/// not valid UTF-8.
#[verifier::external_body]
fn commit_summary_or_empty(c: &git2::Commit<'_>) -> (r: String) {
    match c.summary() {
        Ok(Some(s)) => s.to_string(),
        _ => String::new(),
    }
}

/// Relies on `git2::Repository::diff_tree_to_tree`, with options
/// built from the given context width and binary indication;
/// `None` stands for an empty tree.
#[verifier::external_body]
fn diff_tree_to_tree<'r>(
    repo: &'r git2::Repository,
    old_tree: Option<&git2::Tree<'r>>,
    new_tree: Option<&git2::Tree<'r>>,
    context: u32,
    show_binary: bool,
) -> (r: Result<git2::Diff<'r>, git2::Error>) {
    let mut opts = git2::DiffOptions::new();
    opts.show_binary(show_binary);
    opts.context_lines(context);
    repo.diff_tree_to_tree(old_tree, new_tree, Some(&mut opts))
}

/// Relies on `git2::Repository::diff_tree_to_index`, against the
/// repository's own index, with options built from the given
/// context width and binary indication.
#[verifier::external_body]
fn diff_tree_to_index<'r>(
    repo: &'r git2::Repository,
    old_tree: Option<&git2::Tree<'r>>,
    context: u32,
    show_binary: bool,
) -> (r: Result<git2::Diff<'r>, git2::Error>) {
    let mut opts = git2::DiffOptions::new();
    opts.show_binary(show_binary);
    opts.context_lines(context);
    repo.diff_tree_to_index(old_tree, None, Some(&mut opts))
}

/// Relies on `git2::Repository::diff_index_to_workdir`, against the
/// repository's own index, with options built from the given
/// context width and binary indication.
#[verifier::external_body]
fn diff_index_to_workdir<'r>(
    repo: &'r git2::Repository,
    context: u32,
    show_binary: bool,
) -> (r: Result<git2::Diff<'r>, git2::Error>) {
    let mut opts = git2::DiffOptions::new();
    opts.show_binary(show_binary);
    opts.context_lines(context);
    repo.diff_index_to_workdir(None, Some(&mut opts))
}

/// Relies on `git2::Diff::print` in patch format: the callback sees
/// every output line with its delta's file paths, origin marker,
/// and content bytes, in emission order.
#[verifier::external_body]
fn diff_patch_lines(diff: &git2::Diff<'_>) -> (r: Result<Vec<PatchLine>, git2::Error>) {
    let mut lines: Vec<PatchLine> = Vec::new();
    let res = diff.print(git2::DiffFormat::Patch, |delta, _hunk, line| {
        lines.push(PatchLine {
            old_path: delta.old_file().path().and_then(|p| p.to_str()).map(|s| s.to_string()),
            new_path: delta.new_file().path().and_then(|p| p.to_str()).map(|s| s.to_string()),
            origin: line.origin(),
            content: std::str::from_utf8(line.content()).ok().map(|s| s.to_string()),
        });
        true
    });
    res.map(|_| lines)
}

/// Relies on `git2::Diff::deltas` and `git2::DiffFile::path`: the
/// new-side path of every delta, in order, `None` where the path is
/// absent or not valid UTF-8.
#[verifier::external_body]
fn diff_new_paths(diff: &git2::Diff<'_>) -> (r: Vec<Option<String>>) {
    diff.deltas().map(
        |d| d.new_file().path().and_then(|p| p.to_str()).map(|s| s.to_string()),
    ).collect()
}

/// Relies on `git2::Repository::head`: the reference the working
/// position points at.
#[verifier::external_body]
fn repo_head<'r>(repo: &'r git2::Repository) -> (r: Result<git2::Reference<'r>, git2::Error>) {
    repo.head()
}

/// Relies on `git2::Reference::is_branch`.
#[verifier::external_body]
fn ref_is_branch(reference: &git2::Reference<'_>) -> (r: bool) {
    reference.is_branch()
}

/// Relies on `git2::Reference::shorthand`: the reference's short
/// name, `None` when not valid UTF-8.
#[verifier::external_body]
fn ref_shorthand(reference: &git2::Reference<'_>) -> (r: Option<String>) {
    reference.shorthand().ok().map(|s| s.to_string())
}

/// Relies on `git2::Reference::peel_to_tree`.
#[verifier::external_body]
fn ref_peel_to_tree<'r>(reference: &git2::Reference<'r>) -> (r: Result<
    git2::Tree<'r>,
    git2::Error,
>) {
    reference.peel_to_tree()
}

/// Relies on `git2::Reference::peel_to_commit`.
#[verifier::external_body]
fn ref_peel_to_commit<'r>(reference: &git2::Reference<'r>) -> (r: Result<
    git2::Commit<'r>,
    git2::Error,
>) {
    reference.peel_to_commit()
}

/// Relies on `git2::Repository::merge_base`: the best common
/// ancestor of the two commits, failing when there is none.
#[verifier::external_body]
fn repo_merge_base(
    repo: &git2::Repository,
    one: &git2::Oid,
    two: &git2::Oid,
) -> (r: Result<git2::Oid, git2::Error>) {
    repo.merge_base(*one, *two)
}

/// Relies on `git2::Repository::find_commit`.
#[verifier::external_body]
fn repo_find_commit<'r>(repo: &'r git2::Repository, oid: &git2::Oid) -> (r: Result<
    git2::Commit<'r>,
    git2::Error,
>) {
    repo.find_commit(*oid)
}

/// Relies on `git2::Repository::revwalk` with
/// `Revwalk::push_range`, which pushes the right-hand commit and
/// excludes everything reachable from the left-hand one: the ids of
/// the commits reachable from `top` but not from `base`, in the
/// walk's order, newest first.
#[verifier::external_body]
fn revwalk_between(
    repo: &git2::Repository,
    base: &git2::Oid,
    top: &git2::Oid,
) -> (r: Result<Vec<git2::Oid>, git2::Error>) {
    let mut walk = repo.revwalk()?;
    walk.push_range(&format!("{}..{}", base, top))?;
    walk.collect()
}

/// Relies on `git2::Repository::revwalk` with `push_head`: the ids
/// of the commits reachable from the working position, newest
/// first.
#[verifier::external_body]
fn revwalk_from_head(repo: &git2::Repository) -> (r: Result<Vec<git2::Oid>, git2::Error>) {
    let mut walk = repo.revwalk()?;
    walk.push_head()?;
    walk.collect()
}

/// Relies on `git2::Repository::index`: the repository's index.
#[verifier::external_body]
fn repo_index(repo: &git2::Repository) -> (r: Result<git2::Index, git2::Error>) {
    repo.index()
}

/// Relies on `git2::Index::add_path`: stages one path, relative to
/// the repository root.
#[verifier::external_body]
fn index_add_path(index: &mut git2::Index, path: &str) -> (r: Result<(), git2::Error>) {
    index.add_path(std::path::Path::new(path))
}

/// Relies on `git2::Index::write`: writes the index back to disk.
#[verifier::external_body]
fn index_write(index: &mut git2::Index) -> (r: Result<(), git2::Error>) {
    index.write()
}

/// Relies on `git2::Index::write_tree`: writes the index as a tree
/// and returns the tree's id.
#[verifier::external_body]
fn index_write_tree(index: &mut git2::Index) -> (r: Result<git2::Oid, git2::Error>) {
    index.write_tree()
}

/// Relies on `git2::Repository::config`: the repository's
/// configuration.
#[verifier::external_body]
fn repo_config(repo: &git2::Repository) -> (r: Result<git2::Config, git2::Error>) {
    repo.config()
}

/// Relies on `git2::Config::get_string`: the value of a
/// configuration key.
#[verifier::external_body]
fn config_get_string(config: &git2::Config, key: &str) -> (r: Result<String, git2::Error>) {
    config.get_string(key)
}

/// Relies on `git2::Signature::now`: a signature with the current
/// time.
#[verifier::external_body]
fn signature_now(name: &str, email: &str) -> (r: Result<git2::Signature<'static>, git2::Error>) {
    git2::Signature::now(name, email)
}

/// Relies on `git2::Repository::find_tree`.
#[verifier::external_body]
fn repo_find_tree<'r>(repo: &'r git2::Repository, oid: &git2::Oid) -> (r: Result<
    git2::Tree<'r>,
    git2::Error,
>) {
    repo.find_tree(*oid)
}

/// Relies on `git2::Repository::commit`: writes a commit with the
/// given tree, message, author-and-committer signature, and parent,
/// advancing `update_ref`, and returns the new commit's id.
#[verifier::external_body]
fn repo_commit_with_parent(
    repo: &git2::Repository,
    update_ref: &str,
    sig: &git2::Signature<'_>,
    message: &str,
    tree: &git2::Tree<'_>,
    parent: Option<&git2::Commit<'_>>,
) -> (r: Result<git2::Oid, git2::Error>) {
    let parents: Vec<&git2::Commit<'_>> = match parent {
        Some(p) => vec![p],
        None => vec![],
    };
    repo.commit(Some(update_ref), sig, sig, message, tree, &parents)
}

/// Relies on `git2::Repository::statuses` and
/// `git2::StatusEntry::path`: one entry per status record, `None`
/// where the path is not valid UTF-8.
#[verifier::external_body]
fn status_paths(
    repo: &git2::Repository,
    include_untracked: bool,
    include_ignored: bool,
    exclude_submodules: bool,
) -> (r: Result<Vec<Option<String>>, git2::Error>) {
    let mut opts = git2::StatusOptions::new();
    opts.include_untracked(include_untracked);
    opts.exclude_submodules(exclude_submodules);
    opts.include_ignored(include_ignored);
    let statuses = repo.statuses(Some(&mut opts))?;
    Ok(statuses.iter().map(|s| s.path().ok().map(|p| p.to_string())).collect())
}

/// Relies on `git2::Tree::get_path`: the id of the entry at a path
/// inside the tree, failing when the path is absent.
#[verifier::external_body]
fn tree_path_id(tree: &git2::Tree<'_>, path: &str) -> (r: Result<git2::Oid, git2::Error>) {
    tree.get_path(std::path::Path::new(path)).map(|entry| entry.id())
}

/// Relies on `git2::Repository::find_blob` and `Blob::content`,
/// decoded permissively: invalid sequences are replaced, never a
/// hard failure.
#[verifier::external_body]
fn blob_content_lossy(repo: &git2::Repository, oid: &git2::Oid) -> (r: Result<
    String,
    git2::Error,
>) {
    repo.find_blob(*oid).map(|blob| String::from_utf8_lossy(blob.content()).into_owned())
}

/// Relies on `git2::Error::message`: the failure's human-readable
/// text.
#[verifier::external_body]
fn error_text(e: &git2::Error) -> (r: String) {
    e.message().to_string()
}

/// Relies on `std::time::SystemTime::now`: seconds since the epoch,
/// or 0 when the clock reads before it.
#[verifier::external_body]
fn now_epoch_secs() -> (r: i64) {
    std::time::SystemTime::now().duration_since(std::time::UNIX_EPOCH).map(
        |d| d.as_secs() as i64,
    ).unwrap_or(0)
}

/// The well-known identifier of git's empty tree, used in place of
/// a parent reference for root commits.
pub fn empty_tree_hex() -> (r: &'static str)
    ensures
        r@ == "4b825dc642cb6eb9a060e54bf8d69288fbee4904"@,
{
    "4b825dc642cb6eb9a060e54bf8d69288fbee4904"
}

/// A catch-all error with a context prefix and the underlying
/// failure's text.
fn other_err(context: &str, e: &git2::Error) -> (r: VcsError)
    ensures
        r matches VcsError::Other(_),
{
    let mut m = context.to_owned();
    let t = error_text(e);
    m.append(t.as_str());
    VcsError::Other(m)
}

/// An invalid-reference error naming the offending reference.
fn invalid_ref_err(reference: &str) -> (r: VcsError)
    ensures
        r matches VcsError::InvalidRef(m) && m@ == reference@,
{
    VcsError::InvalidRef(reference.to_owned())
}

/// `"Name <email>"`.
fn author_line(name: &str, email: &str) -> (r: String)
    ensures
        r@ == name@ + " <"@ + email@ + ">"@,
{
    let mut s = name.to_owned();
    s.append(" <");
    s.append(email);
    s.append(">");
    s
}

/// Whether the local-time shift of a timestamp stays within the
/// range the absolute formatter covers.
pub open spec fn in_time_range(secs: int, offset_minutes: int) -> bool {
    -31_536_000_000_000_000 <= secs + offset_minutes * 60 <= 31_536_000_000_000_000
}

/// Format a timestamp when it is representable; a timestamp so far
/// out that its local shift leaves the formatter's range yields an
/// empty string instead of a panic.
fn fmt_time_guarded(secs: i64, offset_minutes: i32) -> (r: String)
    ensures
        in_time_range(secs as int, offset_minutes as int) ==> r@ == git_time_rep(
            secs as int,
            offset_minutes as int,
        ),
{
    let off: i64 = (offset_minutes as i64) * 60;
    match secs.checked_add(off) {
        Some(local) => {
            if -31_536_000_000_000_000 <= local && local <= 31_536_000_000_000_000 {
                format_git_time(secs, offset_minutes)
            } else {
                String::new()
            }
        },
        None => String::new(),
    }
}

/// The short prefix of a commit id: its first seven characters, or
/// all of it when it is shorter.
fn short_id_of(id: &str) -> (r: String)
    ensures
        r@ == id@.subrange(0, if id@.len() < 7 { id@.len() as int } else { 7 }),
{
    let n = id.unicode_len();
    let k: usize = if n < 7 {
        n
    } else {
        7
    };
    id.substring_char(0, k).to_owned()
}

/// One line of the fuzzy-selection log: a yellow short id, the
/// summary, and a dimmed relative age.
pub open spec fn fzf_line_rep(short: Seq<char>, summary: Seq<char>, age: Seq<char>) -> Seq<char> {
    "\u{1b}[33m"@ + short + "\u{1b}[0m "@ + summary + " \u{1b}[90m"@ + age + "\u{1b}[0m\n"@
}

fn build_fzf_line(out: &mut String, short: &str, summary: &str, age: &str)
    ensures
        final(out)@ == old(out)@ + fzf_line_rep(short@, summary@, age@),
{
    out.append("\u{1b}[33m");
    out.append(short);
    out.append("\u{1b}[0m ");
    out.append(summary);
    out.append(" \u{1b}[90m");
    out.append(age);
    out.append("\u{1b}[0m\n");
    proof {
        assert(out@ =~= old(out)@ + fzf_line_rep(short@, summary@, age@));
    }
}

/// Git backend holding one open repository handle for its lifetime.
pub struct GitBackend {
    repo: git2::Repository,
}

impl GitBackend {
    /// Open a git repository at the given path, discovering the
    /// repository root from any subdirectory.
    pub fn new(path: &str) -> (r: Result<Self, VcsError>)
        ensures
            r matches Err(e) ==> e matches VcsError::NotARepository,
    {
        match repo_discover(path) {
            Ok(repo) => Ok(GitBackend { repo }),
            Err(_) => Err(VcsError::NotARepository),
        }
    }

    /// Open a git repository from the current working directory.
    pub fn from_cwd() -> (r: Result<Self, VcsError>)
        ensures
            r matches Err(e) ==> e matches VcsError::NotARepository,
    {
        Self::new(".")
    }

    /// Reject a reference that could be mistaken for a command
    /// flag: one whose trimmed form begins with a hyphen.
    fn validate_ref_format(reference: &str) -> (r: Result<(), VcsError>)
        ensures
            r is Ok <==> !flag_like(reference@),
            r matches Err(e) ==> e matches VcsError::InvalidRef(_),
    {
        if is_flag_like(reference) {
            let mut m = "references cannot start with '-': ".to_owned();
            m.append(reference);
            Err(VcsError::InvalidRef(m))
        } else {
            Ok(())
        }
    }

    /// Render the unified diff of a commit against its first parent
    /// (or the empty tree for a root commit), excluded paths
    /// filtered out.
    fn generate_commit_diff(&self, commit: &git2::Commit<'_>) -> (r: Result<String, VcsError>)
        ensures
            r matches Err(e) ==> e matches VcsError::Other(_),
    {
        let tree = match commit_tree(commit) {
            Ok(t) => t,
            Err(e) => {
                return Err(other_err("failed to get commit tree: ", &e));
            },
        };
        let parent_tree: Option<git2::Tree<'_>> = if commit_parent_count(commit) > 0 {
            match commit_parent(commit, 0) {
                Ok(p) => match commit_tree(&p) {
                    Ok(t) => Some(t),
                    Err(_) => None,
                },
                Err(_) => None,
            }
        } else {
            None
        };
        let diff = match diff_tree_to_tree(&self.repo, parent_tree.as_ref(), Some(&tree), 3, true) {
            Ok(d) => d,
            Err(e) => {
                return Err(other_err("failed to create diff: ", &e));
            },
        };
        let lines = match diff_patch_lines(&diff) {
            Ok(l) => l,
            Err(e) => {
                return Err(other_err("failed to format diff: ", &e));
            },
        };
        Ok(render_patch(&lines))
    }

    /// Stage the given repository-relative paths in the index.
    /// Either every path stages and the index is written, or the
    /// operation fails before the index write, naming the offending
    /// path.
    pub fn stage_files(&self, paths: &Vec<String>) -> (r: Result<(), VcsError>)
        ensures
            r matches Err(e) ==> e matches VcsError::Other(_),
    {
        let mut index = match repo_index(&self.repo) {
            Ok(i) => i,
            Err(e) => {
                return Err(other_err("failed to get index: ", &e));
            },
        };
        let n = paths.len();
        let mut i: usize = 0;
        while i < n
            invariant
                i <= n,
                n == paths@.len(),
            decreases n - i,
        {
            match index_add_path(&mut index, paths[i].as_str()) {
                Ok(u) => u,
                Err(e) => {
                    let mut m = "failed to stage ".to_owned();
                    m.append(paths[i].as_str());
                    m.append(": ");
                    let t = error_text(&e);
                    m.append(t.as_str());
                    return Err(VcsError::Other(m));
                },
            }
            i += 1;
        }
        match index_write(&mut index) {
            Ok(u) => Ok(u),
            Err(e) => Err(other_err("failed to write index: ", &e)),
        }
    }

    /// Create a commit from the current index with the given
    /// message, reading the author identity from the repository's
    /// configuration, with the current head as sole parent (or none
    /// when head is unset), and return the new canonical id.
    pub fn commit(&self, message: &str) -> (r: Result<String, VcsError>)
        ensures
            r matches Ok(id) ==> id@.len() == 40 && all_lower_hex(id@),
            r matches Err(e) ==> e matches VcsError::Other(_),
    {
        let config = match repo_config(&self.repo) {
            Ok(c) => c,
            Err(e) => {
                return Err(other_err("failed to get git config: ", &e));
            },
        };
        let user_name = match config_get_string(&config, "user.name") {
            Ok(s) => s,
            Err(_) => {
                return Err(
                    VcsError::Other(
                        "git user.name not configured. Run: git config user.name \"Your Name\"".to_owned(),
                    ),
                );
            },
        };
        let user_email = match config_get_string(&config, "user.email") {
            Ok(s) => s,
            Err(_) => {
                return Err(
                    VcsError::Other(
                        "git user.email not configured. Run: git config user.email \"you@example.com\"".to_owned(),
                    ),
                );
            },
        };
        let sig = match signature_now(user_name.as_str(), user_email.as_str()) {
            Ok(s) => s,
            Err(e) => {
                return Err(other_err("failed to create signature: ", &e));
            },
        };
        let mut index = match repo_index(&self.repo) {
            Ok(i) => i,
            Err(e) => {
                return Err(other_err("failed to get index: ", &e));
            },
        };
        let tree_oid = match index_write_tree(&mut index) {
            Ok(o) => o,
            Err(e) => {
                return Err(other_err("failed to write tree: ", &e));
            },
        };
        let tree = match repo_find_tree(&self.repo, &tree_oid) {
            Ok(t) => t,
            Err(e) => {
                return Err(other_err("failed to find tree: ", &e));
            },
        };
        let parent: Option<git2::Commit<'_>> = match repo_head(&self.repo) {
            Ok(h) => match ref_peel_to_commit(&h) {
                Ok(c) => Some(c),
                Err(_) => None,
            },
            Err(_) => None,
        };
        match repo_commit_with_parent(&self.repo, "HEAD", &sig, message, &tree, parent.as_ref()) {
            Ok(oid) => Ok(oid_hex(&oid)),
            Err(e) => Err(other_err("failed to create commit: ", &e)),
        }
    }

    /// Resolve a reference and peel it to a commit, after trimming
    /// and validation. Both failure ways yield `InvalidRef` naming
    /// the reference.
    fn resolve_commit<'r>(&'r self, reference: &str) -> (r: Result<git2::Commit<'r>, VcsError>)
        ensures
            flag_like(reference@) ==> r matches Err(VcsError::InvalidRef(_)),
            r matches Err(e) ==> e matches VcsError::InvalidRef(_),
    {
        proof {
            crate::refname::lemma_flag_like_trim(reference@);
        }
        let tref = trim_str(reference);
        match Self::validate_ref_format(tref) {
            Ok(u) => u,
            Err(e) => {
                return Err(e);
            },
        }
        let obj = match revparse_single(&self.repo, tref) {
            Ok(o) => o,
            Err(_) => {
                return Err(invalid_ref_err(tref));
            },
        };
        match obj_peel_to_commit(&obj) {
            Ok(c) => Ok(c),
            Err(_) => Err(invalid_ref_err(tref)),
        }
    }
}

impl VcsBackend for GitBackend {
    fn get_commit(&self, reference: &str) -> (r: Result<CommitInfo, VcsError>)
        ensures
            r matches Ok(info) ==> info.commit_id@.len() == 40 && all_lower_hex(info.commit_id@)
                && info.change_id is None && (info.message@.len() == 0 || info.message@.last()
                != '\n'),
    {
        let commit = match self.resolve_commit(reference) {
            Ok(c) => c,
            Err(e) => {
                return Err(e);
            },
        };
        let oid = commit_id(&commit);
        let id_hex = oid_hex(&oid);
        let (author_name, author_email) = commit_author_parts(&commit);
        let author = author_line(author_name.as_str(), author_email.as_str());
        let (secs, offset_minutes) = commit_time_parts(&commit);
        let date = fmt_time_guarded(secs, offset_minutes);
        let raw_message = commit_message_or_empty(&commit);
        let message = strip_trailing_newlines(raw_message.as_str()).to_owned();
        proof {
            crate::strutil::lemma_strip_nl_last(raw_message@);
        }
        let diff = match self.generate_commit_diff(&commit) {
            Ok(d) => d,
            Err(e) => {
                return Err(e);
            },
        };
        Ok(
            CommitInfo {
                commit_id: id_hex,
                change_id: None,
                message,
                diff,
                author,
                date,
            },
        )
    }

    fn get_working_tree_diff(&self, staged: bool) -> (r: Result<String, VcsError>)
        ensures
            r matches Err(e) ==> e matches VcsError::Other(_),
    {
        let diff = if staged {
            let head_tree: Option<git2::Tree<'_>> = match repo_head(&self.repo) {
                Ok(h) => match ref_peel_to_tree(&h) {
                    Ok(t) => Some(t),
                    Err(_) => None,
                },
                Err(_) => None,
            };
            match diff_tree_to_index(&self.repo, head_tree.as_ref(), 3, true) {
                Ok(d) => d,
                Err(e) => {
                    return Err(other_err("failed to create staged diff: ", &e));
                },
            }
        } else {
            match diff_index_to_workdir(&self.repo, 3, true) {
                Ok(d) => d,
                Err(e) => {
                    return Err(other_err("failed to create unstaged diff: ", &e));
                },
            }
        };
        let lines = match diff_patch_lines(&diff) {
            Ok(l) => l,
            Err(e) => {
                return Err(other_err("failed to format diff: ", &e));
            },
        };
        Ok(render_patch(&lines))
    }

    fn get_range_diff(&self, from: &str, to: &str, three_dot: bool) -> (r: Result<
        String,
        VcsError,
    >) {
        match Self::validate_ref_format(from) {
            Ok(u) => u,
            Err(e) => {
                return Err(e);
            },
        }
        match Self::validate_ref_format(to) {
            Ok(u) => u,
            Err(e) => {
                return Err(e);
            },
        }
        let from_obj = match revparse_single(&self.repo, from) {
            Ok(o) => o,
            Err(_) => {
                return Err(invalid_ref_err(from));
            },
        };
        let from_commit = match obj_peel_to_commit(&from_obj) {
            Ok(c) => c,
            Err(_) => {
                return Err(invalid_ref_err(from));
            },
        };
        let to_obj = match revparse_single(&self.repo, to) {
            Ok(o) => o,
            Err(_) => {
                return Err(invalid_ref_err(to));
            },
        };
        let to_commit = match obj_peel_to_commit(&to_obj) {
            Ok(c) => c,
            Err(_) => {
                return Err(invalid_ref_err(to));
            },
        };
        let base_tree = if three_dot {
            let from_oid = commit_id(&from_commit);
            let to_oid = commit_id(&to_commit);
            let merge_base_oid = match repo_merge_base(&self.repo, &from_oid, &to_oid) {
                Ok(o) => o,
                Err(e) => {
                    return Err(other_err("failed to find merge base: ", &e));
                },
            };
            let merge_base = match repo_find_commit(&self.repo, &merge_base_oid) {
                Ok(c) => c,
                Err(e) => {
                    return Err(other_err("failed to find merge base commit: ", &e));
                },
            };
            match commit_tree(&merge_base) {
                Ok(t) => t,
                Err(e) => {
                    return Err(other_err("failed to get merge base tree: ", &e));
                },
            }
        } else {
            match commit_tree(&from_commit) {
                Ok(t) => t,
                Err(e) => {
                    return Err(other_err("failed to get from tree: ", &e));
                },
            }
        };
        let to_tree = match commit_tree(&to_commit) {
            Ok(t) => t,
            Err(e) => {
                return Err(other_err("failed to get to tree: ", &e));
            },
        };
        let diff = match diff_tree_to_tree(
            &self.repo,
            Some(&base_tree),
            Some(&to_tree),
            3,
            true,
        ) {
            Ok(d) => d,
            Err(e) => {
                return Err(other_err("failed to create range diff: ", &e));
            },
        };
        let lines = match diff_patch_lines(&diff) {
            Ok(l) => l,
            Err(e) => {
                return Err(other_err("failed to format diff: ", &e));
            },
        };
        Ok(render_patch(&lines))
    }

    fn get_changed_files(&self, reference: &str) -> (r: Result<Vec<String>, VcsError>) {
        proof {
            crate::refname::lemma_flag_like_trim(reference@);
            crate::refname::lemma_trim_idempotent(reference@);
            reveal_strlit("..");
            reveal_strlit("...");
        }
        let tref = trim_str(reference);
        let n = tref.unicode_len();
        if contains_str(tref, "..") {
            let sep: &str = if contains_str(tref, "...") {
                "..."
            } else {
                ".."
            };
            let m = sep.unicode_len();
            if let Some(i) = find_first(tref, sep) {
                let rest = tref.substring_char(i + m, n);
                if !contains_str(rest, sep) {
                    let left = tref.substring_char(0, i);
                    let right = tref.substring_char(i + m, n);
                    proof {
                        if flag_like(reference@) {
                            assert(tref@[i as int] == sep@[0]);
                            assert(left@[0] == '-');
                            crate::refname::lemma_flag_like_head(left@);
                        }
                    }
                    match Self::validate_ref_format(left) {
                        Ok(u) => u,
                        Err(e) => {
                            return Err(e);
                        },
                    }
                    match Self::validate_ref_format(right) {
                        Ok(u) => u,
                        Err(e) => {
                            return Err(e);
                        },
                    }
                    let from_obj = match revparse_single(&self.repo, left) {
                        Ok(o) => o,
                        Err(_) => {
                            return Err(invalid_ref_err(left));
                        },
                    };
                    let from_commit = match obj_peel_to_commit(&from_obj) {
                        Ok(c) => c,
                        Err(_) => {
                            return Err(invalid_ref_err(left));
                        },
                    };
                    let from_tree = match commit_tree(&from_commit) {
                        Ok(t) => t,
                        Err(e) => {
                            return Err(other_err("failed to get from tree: ", &e));
                        },
                    };
                    let to_obj = match revparse_single(&self.repo, right) {
                        Ok(o) => o,
                        Err(_) => {
                            return Err(invalid_ref_err(right));
                        },
                    };
                    let to_commit = match obj_peel_to_commit(&to_obj) {
                        Ok(c) => c,
                        Err(_) => {
                            return Err(invalid_ref_err(right));
                        },
                    };
                    let to_tree = match commit_tree(&to_commit) {
                        Ok(t) => t,
                        Err(e) => {
                            return Err(other_err("failed to get to tree: ", &e));
                        },
                    };
                    let diff = match diff_tree_to_tree(
                        &self.repo,
                        Some(&from_tree),
                        Some(&to_tree),
                        3,
                        false,
                    ) {
                        Ok(d) => d,
                        Err(e) => {
                            return Err(other_err("failed to create diff: ", &e));
                        },
                    };
                    let paths = diff_new_paths(&diff);
                    return Ok(present_paths(&paths));
                }
            }
        }
        match Self::validate_ref_format(tref) {
            Ok(u) => u,
            Err(e) => {
                return Err(e);
            },
        }
        let obj = match revparse_single(&self.repo, tref) {
            Ok(o) => o,
            Err(_) => {
                return Err(invalid_ref_err(tref));
            },
        };
        let commit = match obj_peel_to_commit(&obj) {
            Ok(c) => c,
            Err(_) => {
                return Err(invalid_ref_err(tref));
            },
        };
        let tree = match commit_tree(&commit) {
            Ok(t) => t,
            Err(e) => {
                return Err(other_err("failed to get commit tree: ", &e));
            },
        };
        let parent_tree: Option<git2::Tree<'_>> = if commit_parent_count(&commit) > 0 {
            match commit_parent(&commit, 0) {
                Ok(p) => match commit_tree(&p) {
                    Ok(t) => Some(t),
                    Err(_) => None,
                },
                Err(_) => None,
            }
        } else {
            None
        };
        let diff = match diff_tree_to_tree(
            &self.repo,
            parent_tree.as_ref(),
            Some(&tree),
            3,
            false,
        ) {
            Ok(d) => d,
            Err(e) => {
                return Err(other_err("failed to create diff: ", &e));
            },
        };
        let paths = diff_new_paths(&diff);
        Ok(present_paths(&paths))
    }

    fn get_file_content_at_ref(&self, reference: &str, path: &str) -> (r: Result<String, VcsError>)
        ensures
            r matches Err(VcsError::FileNotFound(p)) ==> p@ == path@,
    {
        let commit = match self.resolve_commit(reference) {
            Ok(c) => c,
            Err(e) => {
                return Err(e);
            },
        };
        let tree = match commit_tree(&commit) {
            Ok(t) => t,
            Err(e) => {
                return Err(other_err("failed to get tree: ", &e));
            },
        };
        let entry_oid = match tree_path_id(&tree, path) {
            Ok(o) => o,
            Err(_) => {
                return Err(VcsError::FileNotFound(path.to_owned()));
            },
        };
        match blob_content_lossy(&self.repo, &entry_oid) {
            Ok(text) => Ok(text),
            Err(_) => Err(VcsError::FileNotFound(path.to_owned())),
        }
    }

    fn get_current_branch(&self) -> (r: Result<Option<String>, VcsError>)
        ensures
            r matches Err(e) ==> e matches VcsError::Other(_),
    {
        let head = match repo_head(&self.repo) {
            Ok(h) => h,
            Err(e) => {
                return Err(other_err("failed to get HEAD: ", &e));
            },
        };
        if ref_is_branch(&head) {
            Ok(ref_shorthand(&head))
        } else {
            Ok(None)
        }
    }

    fn get_commit_log_for_fzf(&self) -> (r: Result<String, VcsError>)
        ensures
            r matches Err(e) ==> e matches VcsError::Other(_),
    {
        let oids = match revwalk_from_head(&self.repo) {
            Ok(v) => v,
            Err(e) => {
                return Err(other_err("failed to create revwalk: ", &e));
            },
        };
        let now = now_epoch_secs();
        let mut out = String::new();
        let n = oids.len();
        let mut i: usize = 0;
        while i < n
            invariant
                i <= n,
                n == oids@.len(),
            decreases n - i,
        {
            let commit = match repo_find_commit(&self.repo, &oids[i]) {
                Ok(c) => c,
                Err(e) => {
                    return Err(other_err("failed to find commit: ", &e));
                },
            };
            let id_hex = oid_hex(&oids[i]);
            let short = short_id_of(id_hex.as_str());
            let summary = commit_summary_or_empty(&commit);
            let (secs, _offset) = commit_time_parts(&commit);
            let age_secs: i64 = match now.checked_sub(secs) {
                Some(d) => d,
                None => if secs < 0 {
                    i64::MAX
                } else {
                    i64::MIN
                },
            };
            let age = format_relative_time(age_secs);
            build_fzf_line(&mut out, short.as_str(), summary.as_str(), age.as_str());
            i += 1;
        }
        Ok(out)
    }

    fn resolve_ref(&self, reference: &str) -> (r: Result<String, VcsError>)
        ensures
            r matches Ok(id) ==> id@.len() == 40 && all_lower_hex(id@),
            r matches Err(e) ==> e matches VcsError::InvalidRef(_),
    {
        let commit = match self.resolve_commit(reference) {
            Ok(c) => c,
            Err(e) => {
                return Err(e);
            },
        };
        let oid = commit_id(&commit);
        Ok(oid_hex(&oid))
    }

    fn get_working_tree_changed_files(&self) -> (r: Result<Vec<String>, VcsError>)
        ensures
            r matches Ok(files) ==> forall|i: int, j: int|
                0 <= i < j < files@.len() ==> files@[i]@ != files@[j]@,
            r matches Err(e) ==> e matches VcsError::Other(_),
    {
        let entries = match status_paths(&self.repo, true, false, true) {
            Ok(v) => v,
            Err(e) => {
                return Err(other_err("failed to get status: ", &e));
            },
        };
        let files = present_paths(&entries);
        Ok(dedup_paths(&files))
    }

    fn get_merge_base(&self, ref1: &str, ref2: &str) -> (r: Result<String, VcsError>)
        ensures
            r matches Ok(id) ==> id@.len() == 40 && all_lower_hex(id@),
    {
        proof {
            crate::refname::lemma_flag_like_trim(ref1@);
            crate::refname::lemma_flag_like_trim(ref2@);
            crate::refname::lemma_trim_idempotent(ref1@);
            crate::refname::lemma_trim_idempotent(ref2@);
        }
        let tref1 = trim_str(ref1);
        let tref2 = trim_str(ref2);
        match Self::validate_ref_format(tref1) {
            Ok(u) => u,
            Err(e) => {
                return Err(e);
            },
        }
        match Self::validate_ref_format(tref2) {
            Ok(u) => u,
            Err(e) => {
                return Err(e);
            },
        }
        let commit1 = match self.resolve_commit(tref1) {
            Ok(c) => c,
            Err(e) => {
                return Err(e);
            },
        };
        let commit2 = match self.resolve_commit(tref2) {
            Ok(c) => c,
            Err(e) => {
                return Err(e);
            },
        };
        let oid1 = commit_id(&commit1);
        let oid2 = commit_id(&commit2);
        match repo_merge_base(&self.repo, &oid1, &oid2) {
            Ok(base) => Ok(oid_hex(&base)),
            Err(e) => Err(other_err("failed to find merge base: ", &e)),
        }
    }

    fn working_copy_parent_ref(&self) -> (r: &'static str)
        ensures
            r@ == "HEAD"@,
    {
        "HEAD"
    }

    fn get_range_changed_files(&self, from: &str, to: &str) -> (r: Result<Vec<String>, VcsError>) {
        proof {
            crate::refname::lemma_flag_like_trim(from@);
            crate::refname::lemma_flag_like_trim(to@);
            crate::refname::lemma_trim_idempotent(from@);
            crate::refname::lemma_trim_idempotent(to@);
        }
        let tfrom = trim_str(from);
        let tto = trim_str(to);
        match Self::validate_ref_format(tfrom) {
            Ok(u) => u,
            Err(e) => {
                return Err(e);
            },
        }
        match Self::validate_ref_format(tto) {
            Ok(u) => u,
            Err(e) => {
                return Err(e);
            },
        }
        let from_commit = match self.resolve_commit(tfrom) {
            Ok(c) => c,
            Err(e) => {
                return Err(e);
            },
        };
        let from_tree = match commit_tree(&from_commit) {
            Ok(t) => t,
            Err(e) => {
                return Err(other_err("failed to get from tree: ", &e));
            },
        };
        let to_commit = match self.resolve_commit(tto) {
            Ok(c) => c,
            Err(e) => {
                return Err(e);
            },
        };
        let to_tree = match commit_tree(&to_commit) {
            Ok(t) => t,
            Err(e) => {
                return Err(other_err("failed to get to tree: ", &e));
            },
        };
        let diff = match diff_tree_to_tree(
            &self.repo,
            Some(&from_tree),
            Some(&to_tree),
            3,
            false,
        ) {
            Ok(d) => d,
            Err(e) => {
                return Err(other_err("failed to create diff: ", &e));
            },
        };
        let paths = diff_new_paths(&diff);
        Ok(present_paths(&paths))
    }

    fn get_parent_ref_or_empty(&self, reference: &str) -> (r: Result<String, VcsError>)
        ensures
            r matches Ok(parent) ==> parent@ == trim_rep(reference@) + "^"@ || parent@
                == "4b825dc642cb6eb9a060e54bf8d69288fbee4904"@,
            r matches Err(e) ==> e matches VcsError::InvalidRef(_),
    {
        proof {
            crate::refname::lemma_flag_like_trim(reference@);
        }
        let tref = trim_str(reference);
        match Self::validate_ref_format(tref) {
            Ok(u) => u,
            Err(e) => {
                return Err(e);
            },
        }
        let obj = match revparse_single(&self.repo, tref) {
            Ok(o) => o,
            Err(_) => {
                return Err(invalid_ref_err(tref));
            },
        };
        let commit = match obj_peel_to_commit(&obj) {
            Ok(c) => c,
            Err(_) => {
                return Err(invalid_ref_err(tref));
            },
        };
        if commit_parent_count(&commit) > 0 {
            let mut parent = tref.to_owned();
            parent.append("^");
            Ok(parent)
        } else {
            Ok(empty_tree_hex().to_owned())
        }
    }

    fn get_commits_in_range(&self, from: &str, to: &str) -> (r: Result<
        Vec<StackedCommitInfo>,
        VcsError,
    >)
        ensures
            r matches Ok(v) ==> forall|i: int|
                0 <= i < v@.len() ==> (#[trigger] v@[i]).commit_id@.len() == 40 && all_lower_hex(
                    v@[i].commit_id@,
                ) && v@[i].short_id@.len() == 7 && v@[i].change_id is None,
    {
        proof {
            crate::refname::lemma_flag_like_trim(from@);
            crate::refname::lemma_flag_like_trim(to@);
            crate::refname::lemma_trim_idempotent(from@);
            crate::refname::lemma_trim_idempotent(to@);
        }
        let tfrom = trim_str(from);
        let tto = trim_str(to);
        match Self::validate_ref_format(tfrom) {
            Ok(u) => u,
            Err(e) => {
                return Err(e);
            },
        }
        match Self::validate_ref_format(tto) {
            Ok(u) => u,
            Err(e) => {
                return Err(e);
            },
        }
        let from_commit = match self.resolve_commit(tfrom) {
            Ok(c) => c,
            Err(e) => {
                return Err(e);
            },
        };
        let to_commit = match self.resolve_commit(tto) {
            Ok(c) => c,
            Err(e) => {
                return Err(e);
            },
        };
        let from_oid = commit_id(&from_commit);
        let to_oid = commit_id(&to_commit);
        let oids = match revwalk_between(&self.repo, &from_oid, &to_oid) {
            Ok(v) => v,
            Err(e) => {
                return Err(other_err("failed to walk range: ", &e));
            },
        };
        let n = oids.len();
        let mut candidates: Vec<StackEntry> = Vec::new();
        let mut i: usize = 0;
        while i < n
            invariant
                i <= n,
                n == oids@.len(),
                !flag_like(from@),
                !flag_like(to@),
                forall|k: int|
                    0 <= k < candidates@.len() ==> (#[trigger] candidates@[k]).commit_id@.len()
                        == 40 && all_lower_hex(candidates@[k].commit_id@)
                        && candidates@[k].short_id@.len() == 7,
            decreases n - i,
        {
            let commit = match repo_find_commit(&self.repo, &oids[i]) {
                Ok(c) => c,
                Err(e) => {
                    return Err(other_err("failed to find commit: ", &e));
                },
            };
            let id_hex = oid_hex(&oids[i]);
            let short = short_id_of(id_hex.as_str());
            let summary = commit_summary_or_empty(&commit);
            let has_changes = match self.get_changed_files(id_hex.as_str()) {
                Ok(files) => files.len() > 0,
                Err(_) => false,
            };
            candidates.push(
                StackEntry { commit_id: id_hex, short_id: short, summary, has_changes },
            );
            i += 1;
        }
        let stacked = build_stack(&candidates);
        proof {
            crate::stack::lemma_stack_elements(candidates@);
        }
        Ok(stacked)
    }

    fn name(&self) -> (r: &'static str)
        ensures
            r@ == "git"@,
    {
        "git"
    }
}

} // verus!
