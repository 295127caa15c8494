//! Tests for the git-backed backend, against real repositories
//! built in a temporary directory through the git2 API.

use std::path::{Path, PathBuf};
use vcs_core::backend::{VcsBackend, VcsError};
use vcs_core::git::GitBackend;

fn temp_dir(tag: &str) -> PathBuf {
    let t = std::time::SystemTime::now()
        .duration_since(std::time::UNIX_EPOCH)
        .expect("clock");
    PathBuf::from(format!(
        "/tmp/vcs_core_{}_{}_{}",
        tag,
        t.as_secs(),
        t.subsec_nanos()
    ))
}

fn sig(n: i64) -> git2::Signature<'static> {
    git2::Signature::new(
        "Test User",
        "test@example.com",
        &git2::Time::new(1700000000 + n * 60, 0),
    )
    .expect("sig")
}

fn tree_with<'r>(
    repo: &'r git2::Repository,
    base: Option<&git2::Tree<'r>>,
    files: &[(&str, &str)],
) -> git2::Tree<'r> {
    let mut tb = repo.treebuilder(base).expect("treebuilder");
    for (name, content) in files {
        let oid = repo.blob(content.as_bytes()).expect("blob");
        tb.insert(*name, oid, 0o100644).expect("tree insert");
    }
    let oid = tb.write().expect("tree write");
    repo.find_tree(oid).expect("find tree")
}

/// Commit the head tree amended with `files` onto HEAD.
fn commit_head(repo: &git2::Repository, msg: &str, files: &[(&str, &str)], n: i64) -> git2::Oid {
    let parent = repo.head().ok().and_then(|h| h.peel_to_commit().ok());
    let base_tree = parent.as_ref().and_then(|p| p.tree().ok());
    let tree = tree_with(repo, base_tree.as_ref(), files);
    let s = sig(n);
    match &parent {
        Some(p) => repo
            .commit(Some("HEAD"), &s, &s, msg, &tree, &[p])
            .expect("commit"),
        None => repo
            .commit(Some("HEAD"), &s, &s, msg, &tree, &[])
            .expect("commit"),
    }
}

/// Make the index and the working tree match HEAD.
fn sync_workdir(repo: &git2::Repository) {
    let head_tree = repo.head().expect("head").peel_to_tree().expect("head tree");
    let mut idx = repo.index().expect("index");
    idx.read_tree(&head_tree).expect("read tree");
    idx.write().expect("write index");
    let mut cb = git2::build::CheckoutBuilder::new();
    cb.force();
    repo.checkout_head(Some(&mut cb)).expect("checkout head");
}

/// Materialize file contents in the working tree without touching
/// the index.
fn write_workdir_only(repo: &git2::Repository, files: &[(&str, &str)]) {
    let head_tree = repo.head().ok().and_then(|h| h.peel_to_tree().ok());
    let tree = tree_with(repo, head_tree.as_ref(), files);
    let mut cb = git2::build::CheckoutBuilder::new();
    cb.force();
    cb.update_index(false);
    repo.checkout_tree(tree.as_object(), Some(&mut cb))
        .expect("checkout tree");
}

/// Put `content` for `path` into the index without a file on disk.
fn stage_buffer(repo: &git2::Repository, path: &str, content: &str) {
    let mut idx = repo.index().expect("index");
    let entry = git2::IndexEntry {
        ctime: git2::IndexTime::new(0, 0),
        mtime: git2::IndexTime::new(0, 0),
        dev: 0,
        ino: 0,
        mode: 0o100644,
        uid: 0,
        gid: 0,
        file_size: 0,
        id: git2::Oid::from_bytes(&[0u8; 20]).expect("zero oid"),
        flags: 0,
        flags_extended: 0,
        path: path.as_bytes().to_vec(),
    };
    idx.add_frombuffer(&entry, content.as_bytes())
        .expect("add from buffer");
    idx.write().expect("write index");
}

fn init_repo(tag: &str) -> (PathBuf, git2::Repository) {
    let dir = temp_dir(tag);
    let repo = git2::Repository::init(&dir).expect("init");
    {
        let mut cfg = repo.config().expect("config");
        cfg.set_str("user.name", "Test User").expect("set name");
        cfg.set_str("user.email", "test@example.com").expect("set email");
    }
    (dir, repo)
}

/// A repository with one commit: `README.md` reading "hello".
fn std_repo(tag: &str) -> (PathBuf, git2::Repository) {
    let (dir, repo) = init_repo(tag);
    commit_head(&repo, "init", &[("README.md", "hello\n")], 0);
    sync_workdir(&repo);
    (dir, repo)
}

fn open_backend(dir: &Path) -> GitBackend {
    GitBackend::new(dir.to_str().expect("utf8 path")).expect("should open repo")
}

#[test]
fn test_get_commit_returns_valid_info() {
    let (dir, _repo) = std_repo("commit-info");
    let backend = open_backend(&dir);

    let info = backend.get_commit("HEAD").expect("should get commit");
    assert!(!info.commit_id.is_empty());
    assert!(info.change_id.is_none());
    assert_eq!(info.message, "init");
    assert!(info.author.contains("Test User"));
    assert!(!info.diff.is_empty());
}

#[test]
fn test_get_working_tree_diff_returns_string() {
    let (dir, _repo) = std_repo("wt-diff");
    let backend = open_backend(&dir);

    let diff = backend.get_working_tree_diff(false);
    assert!(diff.is_ok());
}

#[test]
fn test_get_changed_files_returns_paths() {
    let (dir, _repo) = std_repo("changed-files");
    let backend = open_backend(&dir);

    let files = backend.get_changed_files("HEAD").expect("should get files");
    assert!(files.contains(&"README.md".to_string()));
}

#[test]
fn test_get_current_branch() {
    let (dir, _repo) = std_repo("current-branch");
    let backend = open_backend(&dir);

    let branch = backend.get_current_branch().expect("should get branch");
    assert!(branch.is_some());
}

#[test]
fn test_get_file_content_at_ref() {
    let (dir, _repo) = std_repo("file-content");
    let backend = open_backend(&dir);

    let content = backend
        .get_file_content_at_ref("HEAD", "README.md")
        .expect("should get content");
    assert_eq!(content.trim(), "hello");
}

#[test]
fn test_invalid_ref_returns_error() {
    let (dir, _repo) = std_repo("invalid-ref");
    let backend = open_backend(&dir);

    let result = backend.get_commit("nonexistent12345");
    assert!(result.is_err());
}

#[test]
fn test_get_file_content_at_ref_missing_file() {
    let (dir, _repo) = std_repo("missing-file");
    let backend = open_backend(&dir);

    let result = backend.get_file_content_at_ref("HEAD", "nonexistent.txt");
    assert!(
        matches!(result, Err(VcsError::FileNotFound(_))),
        "Expected FileNotFound error, got: {:?}",
        result
    );
}

#[test]
fn test_get_commit_log_for_fzf() {
    let (dir, _repo) = std_repo("fzf-log");
    let backend = open_backend(&dir);

    let log = backend.get_commit_log_for_fzf().expect("should get log");
    assert!(!log.is_empty(), "commit log should not be empty");
    assert!(
        log.lines().next().is_some(),
        "log should have at least one line"
    );
}

#[test]
fn test_get_working_tree_diff_staged() {
    let (dir, repo) = init_repo("git-staged");
    commit_head(&repo, "init", &[("file.txt", "initial\n")], 0);
    sync_workdir(&repo);

    // One change staged, a further one only in the working tree.
    write_workdir_only(&repo, &[("file.txt", "staged change\nunstaged change\n")]);
    stage_buffer(&repo, "file.txt", "staged change\n");

    let backend = open_backend(&dir);

    let staged_diff = backend
        .get_working_tree_diff(true)
        .expect("should get staged diff");
    assert!(
        staged_diff.contains("staged change"),
        "staged diff should contain staged changes"
    );
    assert!(
        !staged_diff.contains("unstaged change"),
        "staged diff should NOT contain unstaged changes"
    );

    let unstaged_diff = backend
        .get_working_tree_diff(false)
        .expect("should get unstaged diff");
    assert!(
        unstaged_diff.contains("unstaged change"),
        "unstaged diff should contain unstaged changes"
    );
}

#[test]
fn test_get_range_diff() {
    let (dir, repo) = init_repo("git-range");
    commit_head(&repo, "commit A", &[("file.txt", "commit A\n")], 0);
    commit_head(&repo, "commit B", &[("file.txt", "commit B\n")], 1);

    let backend = open_backend(&dir);

    let diff = backend
        .get_range_diff("HEAD~1", "HEAD", false)
        .expect("should get range diff");
    assert!(
        diff.contains("commit A") || diff.contains("commit B"),
        "range diff should contain changes"
    );

    let diff_3dot = backend
        .get_range_diff("HEAD~1", "HEAD", true)
        .expect("should get three-dot diff");
    assert!(
        !diff_3dot.is_empty() || diff.contains("commit"),
        "three-dot diff should work"
    );
}

#[test]
fn test_range_diff_excludes_lock_files() {
    let (dir, repo) = init_repo("git-range-exclusion");
    commit_head(
        &repo,
        "A",
        &[("file.txt", "A\n"), ("package-lock.json", "{\"v\":1}\n")],
        0,
    );
    commit_head(
        &repo,
        "B",
        &[("file.txt", "B\n"), ("package-lock.json", "{\"v\":2}\n")],
        1,
    );

    let backend = open_backend(&dir);
    let diff = backend
        .get_range_diff("HEAD~1", "HEAD", false)
        .expect("should get range diff");

    assert!(
        diff.contains("file.txt"),
        "range diff should contain file.txt"
    );
    assert!(
        !diff.contains("package-lock.json"),
        "range diff should NOT contain package-lock.json"
    );
}

#[test]
fn test_diff_excludes_lock_files() {
    let (dir, repo) = init_repo("git-exclusion");
    commit_head(
        &repo,
        "init with lock files",
        &[
            ("test.txt", "hello\n"),
            ("package-lock.json", "{}\n"),
            ("Cargo.lock", "lock\n"),
        ],
        0,
    );

    let backend = open_backend(&dir);
    let info = backend.get_commit("HEAD").expect("should get commit");

    assert!(
        info.diff.contains("test.txt"),
        "diff should contain test.txt"
    );
    assert!(
        !info.diff.contains("package-lock.json"),
        "diff should NOT contain package-lock.json"
    );
    assert!(
        !info.diff.contains("Cargo.lock"),
        "diff should NOT contain Cargo.lock"
    );
}

#[test]
fn test_working_tree_diff_excludes_lock_files() {
    let (dir, repo) = init_repo("git-wt-exclusion");
    commit_head(
        &repo,
        "init",
        &[("test.txt", "hello\n"), ("package-lock.json", "{}\n")],
        0,
    );
    sync_workdir(&repo);
    write_workdir_only(
        &repo,
        &[("test.txt", "world\n"), ("package-lock.json", "{\"v\": 2}\n")],
    );

    let backend = open_backend(&dir);
    let diff = backend
        .get_working_tree_diff(false)
        .expect("should get diff");

    assert!(
        diff.contains("test.txt"),
        "working tree diff should contain test.txt"
    );
    assert!(
        !diff.contains("package-lock.json"),
        "working tree diff should NOT contain package-lock.json"
    );
}

#[test]
fn test_get_working_tree_diff_empty() {
    let (dir, _repo) = std_repo("wt-empty");
    let backend = open_backend(&dir);

    let diff = backend
        .get_working_tree_diff(false)
        .expect("should succeed on clean tree");
    assert!(
        diff.is_empty(),
        "clean working tree should return empty diff"
    );
}

#[test]
fn test_get_range_diff_identical_commits() {
    let (dir, _repo) = std_repo("range-identical");
    let backend = open_backend(&dir);

    let diff = backend
        .get_range_diff("HEAD", "HEAD", false)
        .expect("should succeed for identical commits");
    assert!(diff.is_empty(), "diff of identical commits should be empty");
}

#[test]
fn test_commit_info_field_format() {
    let (dir, _repo) = std_repo("field-format");
    let backend = open_backend(&dir);
    let commit = backend.get_commit("HEAD").expect("should get commit");

    assert_eq!(
        commit.commit_id.len(),
        40,
        "commit_id should be 40-char hex, got: {}",
        commit.commit_id
    );
    assert!(
        commit.commit_id.chars().all(|c| c.is_ascii_hexdigit()),
        "commit_id should be hex"
    );

    assert!(
        commit.change_id.is_none(),
        "git commits should not have change_id"
    );

    assert!(
        commit.author.contains('<') && commit.author.contains('>'),
        "author should be 'Name <email>' format, got: {}",
        commit.author
    );

    assert_eq!(
        commit.date.len(),
        19,
        "date should be 19 chars (YYYY-MM-DD HH:MM:SS), got: {}",
        commit.date
    );
    assert!(
        commit.date.chars().nth(4) == Some('-')
            && commit.date.chars().nth(7) == Some('-')
            && commit.date.chars().nth(10) == Some(' ')
            && commit.date.chars().nth(13) == Some(':')
            && commit.date.chars().nth(16) == Some(':'),
        "date should be YYYY-MM-DD HH:MM:SS format, got: {}",
        commit.date
    );
}

#[test]
fn test_resolve_ref_head_returns_sha() {
    let (dir, _repo) = std_repo("resolve-head");
    let backend = open_backend(&dir);

    let sha = backend.resolve_ref("HEAD").expect("should resolve HEAD");

    assert_eq!(sha.len(), 40, "should return 40-char SHA, got: {}", sha);
    assert!(
        sha.chars().all(|c| c.is_ascii_hexdigit()),
        "SHA should be hex"
    );
}

#[test]
fn test_resolve_ref_invalid_returns_error() {
    let (dir, _repo) = std_repo("resolve-invalid");
    let backend = open_backend(&dir);

    let result = backend.resolve_ref("nonexistent_ref_xyz");
    assert!(result.is_err(), "resolve_ref should fail for invalid ref");
}

#[test]
fn test_resolve_ref_matches_commit_id() {
    let (dir, _repo) = std_repo("resolve-matches");
    let backend = open_backend(&dir);

    let commit = backend.get_commit("HEAD").expect("should get commit");
    let sha = backend.resolve_ref("HEAD").expect("should resolve HEAD");

    assert_eq!(
        sha, commit.commit_id,
        "resolve_ref should return same SHA as get_commit"
    );
}

#[test]
fn test_get_working_tree_changed_files_modified() {
    let (dir, repo) = init_repo("git-wt-changed");
    commit_head(&repo, "init", &[("file.txt", "initial\n")], 0);
    sync_workdir(&repo);
    write_workdir_only(&repo, &[("file.txt", "modified\n")]);

    let backend = open_backend(&dir);
    let files = backend
        .get_working_tree_changed_files()
        .expect("should get changed files");

    assert!(
        files.contains(&"file.txt".to_string()),
        "should include modified file, got: {:?}",
        files
    );
}

#[test]
fn test_get_working_tree_changed_files_untracked() {
    let (dir, repo) = init_repo("git-wt-untracked");
    commit_head(&repo, "init", &[("file.txt", "initial\n")], 0);
    sync_workdir(&repo);
    write_workdir_only(&repo, &[("new.txt", "new file\n")]);

    let backend = open_backend(&dir);
    let files = backend
        .get_working_tree_changed_files()
        .expect("should get changed files");

    assert!(
        files.contains(&"new.txt".to_string()),
        "should include untracked file, got: {:?}",
        files
    );
}

#[test]
fn test_get_working_tree_changed_files_clean() {
    let (dir, _repo) = std_repo("wt-clean");
    let backend = open_backend(&dir);

    let files = backend
        .get_working_tree_changed_files()
        .expect("should succeed on clean tree");

    assert!(files.is_empty(), "clean tree should return empty vec");
}

#[test]
fn test_get_merge_base_returns_ancestor() {
    let (dir, repo) = init_repo("git-merge-base");
    let a = commit_head(&repo, "base", &[("file.txt", "base\n")], 0);
    let a_commit = repo.find_commit(a).expect("find base");
    let base_tree = a_commit.tree().expect("base tree");

    let tree_b = tree_with(&repo, Some(&base_tree), &[("file.txt", "branch\n")]);
    let sb = sig(1);
    repo.commit(
        Some("refs/heads/branch"),
        &sb,
        &sb,
        "branch commit",
        &tree_b,
        &[&a_commit],
    )
    .expect("branch commit");

    let tree_c = tree_with(&repo, Some(&base_tree), &[("other.txt", "main\n")]);
    let sc = sig(2);
    repo.commit(
        Some("refs/heads/main"),
        &sc,
        &sc,
        "main commit",
        &tree_c,
        &[&a_commit],
    )
    .expect("main commit");

    let backend = open_backend(&dir);
    let merge_base = backend
        .get_merge_base("main", "branch")
        .expect("should find merge base");

    assert_eq!(merge_base.len(), 40, "should return 40-char SHA");
}

#[test]
fn test_get_merge_base_invalid_ref() {
    let (dir, _repo) = std_repo("merge-base-invalid");
    let backend = open_backend(&dir);

    let result = backend.get_merge_base("HEAD", "nonexistent_branch_xyz");
    assert!(result.is_err(), "should fail for invalid ref");
}

#[test]
fn test_working_copy_parent_ref_returns_head() {
    let (dir, _repo) = std_repo("parent-ref-const");
    let backend = open_backend(&dir);
    assert_eq!(backend.working_copy_parent_ref(), "HEAD");
}

#[test]
fn test_get_parent_ref_or_empty_root_commit() {
    let (dir, _repo) = std_repo("parent-root");
    let backend = open_backend(&dir);

    let parent_ref = backend
        .get_parent_ref_or_empty("HEAD")
        .expect("should succeed");

    assert_eq!(
        parent_ref, "4b825dc642cb6eb9a060e54bf8d69288fbee4904",
        "root commit should return empty tree SHA"
    );
}

#[test]
fn test_get_parent_ref_or_empty_normal_commit() {
    let (dir, repo) = init_repo("git-parent-ref");
    commit_head(&repo, "first", &[("file.txt", "first\n")], 0);
    commit_head(&repo, "second", &[("file.txt", "second\n")], 1);

    let backend = open_backend(&dir);
    let parent_ref = backend
        .get_parent_ref_or_empty("HEAD")
        .expect("should succeed");

    assert_eq!(parent_ref, "HEAD^", "commit with parent should return SHA^");
}

#[test]
fn test_ref_starting_with_dash_rejected() {
    let (dir, _repo) = std_repo("dash-rejected");
    let backend = open_backend(&dir);

    let result = backend.get_commit("--upload-pack=evil");
    assert!(
        matches!(result, Err(VcsError::InvalidRef(_))),
        "refs starting with - should be rejected"
    );

    let result2 = backend.get_commit("-n");
    assert!(
        matches!(result2, Err(VcsError::InvalidRef(_))),
        "refs starting with - should be rejected"
    );
}

#[test]
fn test_get_commits_in_range_empty_range() {
    let (dir, _repo) = std_repo("range-empty");
    let backend = open_backend(&dir);

    let commits = backend
        .get_commits_in_range("HEAD", "HEAD")
        .expect("should succeed");
    assert!(commits.is_empty(), "HEAD..HEAD should return empty vec");
}

#[test]
fn test_get_commits_in_range_with_commits() {
    let (dir, repo) = init_repo("git-range-commits");
    commit_head(&repo, "commit A", &[("file.txt", "A\n")], 0);
    commit_head(&repo, "commit B", &[("file.txt", "B\n")], 1);
    commit_head(&repo, "commit C", &[("file.txt", "C\n")], 2);

    let backend = open_backend(&dir);

    let commits = backend
        .get_commits_in_range("HEAD~2", "HEAD")
        .expect("should get commits");

    assert_eq!(commits.len(), 2, "should have 2 commits in range");
    assert_eq!(commits[0].summary, "commit B", "first should be B (oldest)");
    assert_eq!(
        commits[1].summary, "commit C",
        "second should be C (newest)"
    );
}

#[test]
fn test_get_commits_in_range_fields_populated() {
    let (dir, repo) = init_repo("git-range-fields");
    commit_head(&repo, "first commit", &[("file.txt", "first\n")], 0);
    commit_head(&repo, "second commit", &[("file.txt", "second\n")], 1);

    let backend = open_backend(&dir);
    let commits = backend
        .get_commits_in_range("HEAD~1", "HEAD")
        .expect("should get commits");

    assert_eq!(commits.len(), 1);
    let commit = &commits[0];

    assert_eq!(commit.commit_id.len(), 40, "commit_id should be 40 chars");
    assert!(
        commit.commit_id.chars().all(|c| c.is_ascii_hexdigit()),
        "commit_id should be hex"
    );

    assert!(
        commit.short_id.len() >= 7,
        "short_id should be at least 7 chars"
    );

    assert!(commit.change_id.is_none(), "git has no change_id");

    assert_eq!(commit.summary, "second commit");
}

#[test]
fn test_get_commits_in_range_excludes_empty_commits() {
    let (dir, repo) = init_repo("git-range-empty");
    commit_head(&repo, "first with changes", &[("file.txt", "first\n")], 0);
    commit_head(&repo, "second with changes", &[("file.txt", "second\n")], 1);
    // Same tree as its parent: an allow-empty commit.
    commit_head(&repo, "empty commit", &[], 2);
    commit_head(&repo, "third with changes", &[("file.txt", "third\n")], 3);

    let backend = open_backend(&dir);

    let commits = backend
        .get_commits_in_range("HEAD~3", "HEAD")
        .expect("should get commits");

    assert_eq!(
        commits.len(),
        2,
        "should have 2 commits (empty commit excluded)"
    );

    for commit in &commits {
        assert_ne!(
            commit.summary, "empty commit",
            "empty commit should be excluded"
        );
    }
}

#[test]
fn test_range_diff_three_dot_identical() {
    let (dir, _repo) = std_repo("three-dot-identical");
    let backend = open_backend(&dir);

    let diff = backend
        .get_range_diff("HEAD", "HEAD", true)
        .expect("should succeed for identical endpoints");
    assert!(diff.is_empty(), "three-dot diff of a commit with itself should be empty");
}

#[test]
fn test_parent_ref_resolves_to_parent() {
    let (dir, repo) = init_repo("parent-resolves");
    let first = commit_head(&repo, "first", &[("file.txt", "first\n")], 0);
    commit_head(&repo, "second", &[("file.txt", "second\n")], 1);

    let backend = open_backend(&dir);
    let parent_ref = backend
        .get_parent_ref_or_empty("HEAD")
        .expect("should succeed");
    let resolved = backend
        .resolve_ref(&parent_ref)
        .expect("parent ref should resolve");
    assert_eq!(resolved, first.to_string());
}

#[test]
fn test_stage_and_commit_roundtrip() {
    let (dir, repo) = init_repo("stage-commit");
    commit_head(&repo, "init", &[("file.txt", "initial\n")], 0);
    sync_workdir(&repo);
    write_workdir_only(&repo, &[("file2.txt", "content\n")]);

    let backend = open_backend(&dir);
    let old_head = backend.resolve_ref("HEAD").expect("resolve old head");

    backend
        .stage_files(&vec!["file2.txt".to_string()])
        .expect("should stage");
    let new_id = backend
        .commit("test commit message\n")
        .expect("should commit");

    assert_eq!(new_id.len(), 40);
    assert!(new_id.chars().all(|c| c.is_ascii_hexdigit()));
    assert_ne!(new_id, old_head, "commit should advance the head");

    let info = backend.get_commit(&new_id).expect("should read new commit");
    assert_eq!(info.message, "test commit message");
    let new_head = backend.resolve_ref("HEAD").expect("resolve new head");
    assert_eq!(new_head, new_id);
}

#[test]
fn test_dash_refs_rejected_across_operations() {
    let (dir, _repo) = std_repo("dash-everywhere");
    let backend = open_backend(&dir);
    let bad = " -n";

    assert!(matches!(
        backend.get_commit(bad),
        Err(VcsError::InvalidRef(_))
    ));
    assert!(matches!(
        backend.resolve_ref(bad),
        Err(VcsError::InvalidRef(_))
    ));
    assert!(matches!(
        backend.get_changed_files(bad),
        Err(VcsError::InvalidRef(_))
    ));
    assert!(matches!(
        backend.get_changed_files("-a..HEAD"),
        Err(VcsError::InvalidRef(_))
    ));
    assert!(matches!(
        backend.get_range_diff(bad, "HEAD", false),
        Err(VcsError::InvalidRef(_))
    ));
    assert!(matches!(
        backend.get_range_diff("HEAD", bad, true),
        Err(VcsError::InvalidRef(_))
    ));
    assert!(matches!(
        backend.get_merge_base(bad, "HEAD"),
        Err(VcsError::InvalidRef(_))
    ));
    assert!(matches!(
        backend.get_parent_ref_or_empty(bad),
        Err(VcsError::InvalidRef(_))
    ));
    assert!(matches!(
        backend.get_commits_in_range(bad, "HEAD"),
        Err(VcsError::InvalidRef(_))
    ));
    assert!(matches!(
        backend.get_range_changed_files("HEAD", bad),
        Err(VcsError::InvalidRef(_))
    ));
    assert!(matches!(
        backend.get_file_content_at_ref(bad, "README.md"),
        Err(VcsError::InvalidRef(_))
    ));
}

#[test]
fn test_get_range_changed_files_lists_paths() {
    let (dir, repo) = init_repo("range-changed");
    commit_head(&repo, "A", &[("file.txt", "A\n")], 0);
    commit_head(&repo, "B", &[("file.txt", "B\n"), ("other.txt", "x\n")], 1);

    let backend = open_backend(&dir);
    let files = backend
        .get_range_changed_files("HEAD~1", "HEAD")
        .expect("should get range files");
    assert!(files.contains(&"file.txt".to_string()));
    assert!(files.contains(&"other.txt".to_string()));
}

#[test]
fn test_get_changed_files_two_dot_range() {
    let (dir, repo) = init_repo("changed-two-dot");
    commit_head(&repo, "A", &[("file.txt", "A\n")], 0);
    commit_head(&repo, "B", &[("file.txt", "B\n"), ("new.txt", "n\n")], 1);

    let backend = open_backend(&dir);
    let files = backend
        .get_changed_files("HEAD~1..HEAD")
        .expect("should get range files");
    assert!(files.contains(&"file.txt".to_string()));
    assert!(files.contains(&"new.txt".to_string()));
}

#[test]
fn test_get_changed_files_three_dot_range() {
    let (dir, repo) = init_repo("changed-three-dot");
    commit_head(&repo, "A", &[("file.txt", "A\n")], 0);
    commit_head(&repo, "B", &[("file.txt", "B\n")], 1);

    let backend = open_backend(&dir);
    let files = backend
        .get_changed_files("HEAD~1...HEAD")
        .expect("should get range files");
    assert!(files.contains(&"file.txt".to_string()));
}

#[test]
fn test_commit_log_line_format() {
    let (dir, _repo) = std_repo("log-format");
    let backend = open_backend(&dir);

    let log = backend.get_commit_log_for_fzf().expect("should get log");
    assert!(log.starts_with("\x1b[33m"), "line starts with the color code");
    assert!(log.contains("\x1b[0m "), "short id is reset before the summary");
    assert!(log.contains(" ago\x1b[0m\n") || log.contains("future\x1b[0m\n"));
    assert!(log.contains("init"), "summary appears in the line");
}

#[test]
fn test_backend_name() {
    let (dir, _repo) = std_repo("backend-name");
    let backend = open_backend(&dir);
    assert_eq!(backend.name(), "git");
}

#[test]
fn test_new_rejects_non_repository() {
    let result = GitBackend::new("/dev/null");
    assert!(matches!(result, Err(VcsError::NotARepository)));
}
