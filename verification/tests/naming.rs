use wald::naming::{normalize_branch_for_path, worktree_dir_name};

#[test]
fn test_simple_branch() {
    assert_eq!(normalize_branch_for_path("main"), "main");
    assert_eq!(normalize_branch_for_path("dev"), "dev");
}

#[test]
fn test_feature_branch_with_slash() {
    assert_eq!(normalize_branch_for_path("feature/foo"), "feature--foo");
    assert_eq!(
        normalize_branch_for_path("bugfix/issue-123"),
        "bugfix--issue-123"
    );
}

#[test]
fn test_nested_slashes() {
    assert_eq!(
        normalize_branch_for_path("feature/foo/bar"),
        "feature--foo--bar"
    );
}

#[test]
fn test_spaces() {
    assert_eq!(normalize_branch_for_path("my branch"), "my-branch");
}

#[test]
fn test_backslash() {
    assert_eq!(normalize_branch_for_path("feature\\foo"), "feature--foo");
}

#[test]
fn test_special_chars_stripped() {
    assert_eq!(normalize_branch_for_path("branch:name"), "branchname");
    assert_eq!(normalize_branch_for_path("branch@name"), "branchname");
}

#[test]
fn test_dash_collapse() {
    assert_eq!(normalize_branch_for_path("a//b"), "a--b");
    assert_eq!(normalize_branch_for_path("a///b"), "a--b");
}

#[test]
fn test_leading_trailing_stripped() {
    assert_eq!(normalize_branch_for_path("/feature"), "feature");
    assert_eq!(normalize_branch_for_path("feature/"), "feature");
}

#[test]
fn test_worktree_dir_name() {
    assert_eq!(worktree_dir_name("main"), "_main.wt");
    assert_eq!(worktree_dir_name("feature/foo"), "_feature--foo.wt");
}

#[test]
fn test_preserves_dots_underscores() {
    assert_eq!(normalize_branch_for_path("release_1.0"), "release_1.0");
    assert_eq!(normalize_branch_for_path("v2.0.0-rc1"), "v2.0.0-rc1");
}

#[test]
fn worktree_dir_name_examples() {
    assert_eq!(worktree_dir_name("feature/foo/bar"), "_feature--foo--bar.wt");
    assert_eq!(worktree_dir_name("my branch"), "_my-branch.wt");
    assert_eq!(worktree_dir_name("branch:name"), "_branchname.wt");
    assert_eq!(worktree_dir_name("/feature"), "_feature.wt");
}

#[test]
fn normalisation_is_idempotent_on_examples() {
    for b in ["main", "feature/foo", "a///b", " x y ", "--a--", "ünï/cödé", ""] {
        let once = normalize_branch_for_path(b);
        assert_eq!(normalize_branch_for_path(&once), once);
        assert_eq!(worktree_dir_name(&once), worktree_dir_name(b));
    }
}
