use wald::git::worktree::{parse_branch_list, parse_worktree_list, BranchMode, WorktreeInfo};

#[test]
fn test_parse_worktree_list() {
    let output = r#"worktree /path/to/bare.git
HEAD abc123
bare

worktree /path/to/main
HEAD def456
branch refs/heads/main

worktree /path/to/feature
HEAD 789abc
branch refs/heads/feature
"#;

    let worktrees = parse_worktree_list(output);
    assert_eq!(worktrees.len(), 3);

    assert_eq!(worktrees[0].path, "/path/to/bare.git");
    assert!(worktrees[0].bare);

    assert_eq!(worktrees[1].path, "/path/to/main");
    assert_eq!(worktrees[1].branch, Some("main".to_string()));
    assert!(!worktrees[1].bare);

    assert_eq!(worktrees[2].path, "/path/to/feature");
    assert_eq!(worktrees[2].branch, Some("feature".to_string()));
}

#[test]
fn worktree_list_reads_every_field() {
    let output = "worktree /w/a\nHEAD 0123\nbranch refs/heads/wald/abc123/feature/x\nlocked because\nprunable gone\n\nworktree /w/b\nHEAD 4567\ndetached\n";
    let worktrees = parse_worktree_list(output);
    assert_eq!(
        worktrees,
        vec![
            WorktreeInfo {
                path: "/w/a".to_string(),
                head: Some("0123".to_string()),
                branch: Some("wald/abc123/feature/x".to_string()),
                bare: false,
                detached: false,
                locked: true,
                prunable: true,
            },
            WorktreeInfo {
                path: "/w/b".to_string(),
                head: Some("4567".to_string()),
                branch: None,
                bare: false,
                detached: true,
                locked: false,
                prunable: false,
            },
        ]
    );
}

#[test]
fn worktree_list_edge_cases() {
    assert!(parse_worktree_list("").is_empty());
    assert!(parse_worktree_list("\n\n").is_empty());
    // a record without a path is no record
    assert!(parse_worktree_list("HEAD abc\nbare\n\n").is_empty());
    // a branch outside refs/heads keeps its full name
    let w = parse_worktree_list("worktree /x\nbranch refs/remotes/origin/main");
    assert_eq!(w.len(), 1);
    assert_eq!(w[0].branch.as_deref(), Some("refs/remotes/origin/main"));
    // several empty lines separate as one does
    let w = parse_worktree_list("worktree /a\n\n\n\nworktree /b\n");
    assert_eq!(w.len(), 2);
    // unknown lines are passed over
    let w = parse_worktree_list("worktree /a\nsomething new\n");
    assert_eq!(w.len(), 1);
    assert_eq!(w[0], WorktreeInfo { path: "/a".to_string(), ..WorktreeInfo::default() });
}

#[test]
fn branch_list_is_trimmed_and_unmarked() {
    assert_eq!(
        parse_branch_list("  wald/abc123/main\n* wald/abc123/dev\n\n   \n  wald/def456/feature/foo\n"),
        vec!["wald/abc123/main", "wald/abc123/dev", "wald/def456/feature/foo"]
    );
    assert_eq!(parse_branch_list("* * x\n*\n* \n"), vec!["x", "*", "*"]);
    assert!(parse_branch_list("").is_empty());
}

#[test]
fn branch_mode_default() {
    assert_eq!(BranchMode::default(), BranchMode::Default);
}
