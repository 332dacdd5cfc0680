use wald::string_set::StringSet;
use wald::types::manifest::{
    BaumManifest, DepthPolicy, FilterPolicy, LfsPolicy, Manifest, RepoEntry, ResolveResult,
};

#[test]
fn test_resolve_alias() {
    let mut manifest = Manifest::default();
    manifest.repos.insert(
        "github.com/user/dotfiles".to_string(),
        RepoEntry {
            aliases: vec!["dots".to_string(), "dotfiles".to_string()],
            ..Default::default()
        },
    );

    assert_eq!(
        manifest.resolve_alias("dots"),
        Some("github.com/user/dotfiles")
    );
    assert_eq!(
        manifest.resolve_alias("github.com/user/dotfiles"),
        Some("github.com/user/dotfiles")
    );
    assert_eq!(manifest.resolve_alias("unknown"), None);
}

#[test]
fn test_baum_ensure_id() {
    let mut baum = BaumManifest {
        id: None,
        repo_id: "github.com/user/repo".to_string(),
        worktrees: vec![],
    };

    let existing = StringSet::new();
    let id = baum.ensure_id(&existing).unwrap();
    assert_eq!(id.len(), 6);
    assert!(id.chars().all(|c| c.is_ascii_hexdigit()));

    // Calling again should return the same ID
    let id2 = baum.ensure_id(&existing).unwrap();
    assert_eq!(id, id2);
}

#[test]
fn test_resolve_alias_nonexistent() {
    let manifest = Manifest::default();
    assert_eq!(manifest.resolve_alias("nonexistent"), None);
}

#[test]
fn test_resolve_alias_collision_returns_first_match() {
    let mut manifest = Manifest::default();
    manifest.repos.insert(
        "github.com/user/repo1".to_string(),
        RepoEntry {
            aliases: vec!["shared".to_string()],
            ..Default::default()
        },
    );
    manifest.repos.insert(
        "github.com/user/repo2".to_string(),
        RepoEntry {
            aliases: vec!["shared".to_string()],
            ..Default::default()
        },
    );

    // A shared alias is never resolved silently.
    assert_eq!(manifest.resolve_alias("shared"), None);
}

#[test]
fn shared_alias_is_ambiguous_and_sorted() {
    let mut manifest = Manifest::default();
    for id in ["github.com/user/repo2", "github.com/user/repo1"] {
        manifest.repos.insert(
            id.to_string(),
            RepoEntry {
                aliases: vec!["shared".to_string()],
                ..Default::default()
            },
        );
    }
    match manifest.resolve_with_details("shared") {
        ResolveResult::Ambiguous(ids) => {
            assert_eq!(ids, vec!["github.com/user/repo1", "github.com/user/repo2"])
        }
        other => panic!("expected an ambiguous outcome, got {:?}", other),
    }
}

#[test]
fn single_alias_wins_over_loose_matches() {
    let mut manifest = Manifest::default();
    manifest.repos.insert(
        "github.com/a/tools".to_string(),
        RepoEntry::default(),
    );
    manifest.repos.insert(
        "gitlab.com/b/tools".to_string(),
        RepoEntry::default(),
    );
    manifest.repos.insert(
        "github.com/c/other".to_string(),
        RepoEntry {
            aliases: vec!["tools".to_string()],
            ..Default::default()
        },
    );
    assert_eq!(manifest.resolve_alias("tools"), Some("github.com/c/other"));
}

#[test]
fn test_has_repo_with_direct_match() {
    let mut manifest = Manifest::default();
    manifest
        .repos
        .insert("github.com/user/repo".to_string(), RepoEntry::default());

    assert!(manifest.has_repo("github.com/user/repo"));
    assert!(!manifest.has_repo("github.com/other/repo"));
}

#[test]
fn test_resolve_alias_prefers_direct_repo_id() {
    let mut manifest = Manifest::default();
    manifest.repos.insert(
        "github.com/user/dotfiles".to_string(),
        RepoEntry {
            aliases: vec!["dots".to_string()],
            ..Default::default()
        },
    );
    manifest.repos.insert(
        "github.com/other/repo".to_string(),
        RepoEntry {
            aliases: vec!["github.com/user/dotfiles".to_string()], // Weird but possible
            ..Default::default()
        },
    );

    // Direct repo ID takes precedence
    assert_eq!(
        manifest.resolve_alias("github.com/user/dotfiles"),
        Some("github.com/user/dotfiles")
    );
}

#[test]
fn test_fuzzy_resolve_by_repo_name() {
    let mut manifest = Manifest::default();
    manifest
        .repos
        .insert("github.com/user/dotfiles".to_string(), RepoEntry::default());
    manifest
        .repos
        .insert("github.com/user/other".to_string(), RepoEntry::default());

    assert_eq!(
        manifest.resolve_alias("dotfiles"),
        Some("github.com/user/dotfiles")
    );
    assert_eq!(
        manifest.resolve_alias("other"),
        Some("github.com/user/other")
    );
}

#[test]
fn test_fuzzy_resolve_by_owner_repo() {
    let mut manifest = Manifest::default();
    manifest
        .repos
        .insert("github.com/alice/repo".to_string(), RepoEntry::default());
    manifest
        .repos
        .insert("gitlab.com/bob/repo".to_string(), RepoEntry::default());

    assert_eq!(
        manifest.resolve_alias("alice/repo"),
        Some("github.com/alice/repo")
    );
    assert_eq!(
        manifest.resolve_alias("bob/repo"),
        Some("gitlab.com/bob/repo")
    );
}

#[test]
fn test_fuzzy_resolve_ambiguous_name_returns_none() {
    let mut manifest = Manifest::default();
    manifest
        .repos
        .insert("github.com/alice/repo".to_string(), RepoEntry::default());
    manifest
        .repos
        .insert("gitlab.com/bob/repo".to_string(), RepoEntry::default());

    // Both have same repo name "repo" - ambiguous
    assert_eq!(manifest.resolve_alias("repo"), None);
}

#[test]
fn test_fuzzy_resolve_with_details_ambiguous() {
    let mut manifest = Manifest::default();
    manifest
        .repos
        .insert("github.com/alice/repo".to_string(), RepoEntry::default());
    manifest
        .repos
        .insert("gitlab.com/bob/repo".to_string(), RepoEntry::default());

    match manifest.resolve_with_details("repo") {
        ResolveResult::Ambiguous(matches) => {
            assert_eq!(matches.len(), 2);
            assert!(matches.contains(&"github.com/alice/repo"));
            assert!(matches.contains(&"gitlab.com/bob/repo"));
        }
        _ => panic!("Expected ambiguous result"),
    }
}

#[test]
fn test_fuzzy_resolve_explicit_alias_takes_precedence() {
    let mut manifest = Manifest::default();
    manifest.repos.insert(
        "github.com/user/dotfiles".to_string(),
        RepoEntry {
            aliases: vec!["dots".to_string()],
            ..Default::default()
        },
    );
    manifest
        .repos
        .insert("github.com/other/dots".to_string(), RepoEntry::default());

    assert_eq!(
        manifest.resolve_alias("dots"),
        Some("github.com/user/dotfiles")
    );
}

#[test]
fn test_fuzzy_resolve_subgroup_repos() {
    let mut manifest = Manifest::default();
    manifest.repos.insert(
        "git.zib.de/cspiegel/group/repo".to_string(),
        RepoEntry::default(),
    );

    assert_eq!(
        manifest.resolve_alias("group/repo"),
        Some("git.zib.de/cspiegel/group/repo")
    );
    assert_eq!(
        manifest.resolve_alias("repo"),
        Some("git.zib.de/cspiegel/group/repo")
    );
}

#[test]
fn ambiguous_matches_are_sorted() {
    let mut manifest = Manifest::default();
    for id in [
        "gitlab.com/bob/repo",
        "github.com/alice/repo",
        "codeberg.org/zed/repo",
        "github.com/alice/other",
    ] {
        manifest.repos.insert(id.to_string(), RepoEntry::default());
    }
    match manifest.resolve_with_details("repo") {
        ResolveResult::Ambiguous(matches) => assert_eq!(
            matches,
            vec![
                "codeberg.org/zed/repo",
                "github.com/alice/repo",
                "gitlab.com/bob/repo"
            ]
        ),
        _ => panic!("expected an ambiguous result"),
    }
}

#[test]
fn resolution_outcomes() {
    let mut manifest = Manifest::default();
    manifest
        .repos
        .insert("github.com/alice/repo".to_string(), RepoEntry::default());
    assert!(matches!(
        manifest.resolve_with_details("repo"),
        ResolveResult::Found("github.com/alice/repo")
    ));
    assert!(matches!(
        manifest.resolve_with_details("bob/repo"),
        ResolveResult::NotFound
    ));
    assert!(matches!(
        manifest.resolve_with_details(""),
        ResolveResult::NotFound
    ));
    // three segments are neither a name nor owner and name
    assert!(matches!(
        manifest.resolve_with_details("x/alice/repo"),
        ResolveResult::NotFound
    ));
    // owner and name need a host before them
    manifest
        .repos
        .insert("alice/repo".to_string(), RepoEntry::default());
    assert!(matches!(
        manifest.resolve_with_details("alice/repo"),
        ResolveResult::Found("alice/repo")
    ));
}

#[test]
fn repo_map_insert_replaces_in_place() {
    let mut manifest = Manifest::default();
    assert!(manifest.repos.is_empty());
    assert!(manifest
        .repos
        .insert("a.org/x".to_string(), RepoEntry::default())
        .is_none());
    assert!(manifest
        .repos
        .insert("b.org/y".to_string(), RepoEntry::default())
        .is_none());
    let previous = manifest.repos.insert(
        "a.org/x".to_string(),
        RepoEntry {
            lfs: LfsPolicy::Full,
            depth: DepthPolicy::Depth(50),
            filter: FilterPolicy::BlobNone,
            upstream: Some("up.org/x".to_string()),
            aliases: vec![],
        },
    );
    assert_eq!(previous.unwrap().lfs, LfsPolicy::Minimal);
    assert_eq!(manifest.repos.len(), 2);
    assert_eq!(manifest.repos.key_at(0), "a.org/x");
    assert_eq!(manifest.repos.key_at(1), "b.org/y");
    let entry = manifest.repos.get("a.org/x").unwrap();
    assert_eq!(entry.lfs, LfsPolicy::Full);
    assert_eq!(entry.depth, DepthPolicy::Depth(50));
    assert_eq!(entry.upstream.as_deref(), Some("up.org/x"));
    assert!(manifest.repos.set_filter("a.org/x", FilterPolicy::NoFilter));
    assert_eq!(
        manifest.repos.get("a.org/x").unwrap().filter,
        FilterPolicy::NoFilter
    );
    assert!(!manifest.repos.set_filter("c.org/z", FilterPolicy::NoFilter));
    assert!(manifest.repos.remove("a.org/x").is_some());
    assert!(manifest.repos.remove("a.org/x").is_none());
    assert_eq!(manifest.repos.len(), 1);
    assert_eq!(manifest.repos.key_at(0), "b.org/y");
}

#[test]
fn filter_policy_git_arguments() {
    assert_eq!(FilterPolicy::NoFilter.as_git_arg(), None);
    assert_eq!(FilterPolicy::BlobNone.as_git_arg(), Some("blob:none"));
    assert_eq!(FilterPolicy::TreeZero.as_git_arg(), Some("tree:0"));
}

#[test]
fn policy_defaults() {
    assert_eq!(LfsPolicy::default(), LfsPolicy::Minimal);
    assert_eq!(DepthPolicy::default(), DepthPolicy::Full);
    assert_eq!(FilterPolicy::default(), FilterPolicy::NoFilter);
    let entry = RepoEntry::default();
    assert_eq!(entry.lfs, LfsPolicy::Minimal);
    assert_eq!(entry.depth, DepthPolicy::Full);
    assert_eq!(entry.filter, FilterPolicy::NoFilter);
    assert!(entry.upstream.is_none());
    assert!(entry.aliases.is_empty());
}

#[test]
fn baum_descriptor_records_worktrees_in_order() {
    let mut baum = BaumManifest::new("github.com/user/repo");
    assert!(baum.id.is_none());
    baum.add_worktree("main", "_main.wt");
    baum.add_worktree_with_local("dev", "_dev.wt", "wald/abc123/dev");
    assert_eq!(baum.worktrees.len(), 2);
    assert_eq!(baum.worktrees[0].branch, "main");
    assert_eq!(baum.worktrees[0].path, "_main.wt");
    assert_eq!(baum.worktrees[0].local_branch, None);
    assert_eq!(
        baum.worktrees[1].local_branch,
        Some("wald/abc123/dev".to_string())
    );
    assert!(baum.has_branch("dev"));
    assert!(!baum.has_branch("feature"));
    assert_eq!(baum.position_of("dev"), Some(1));
    let removed = baum.remove_worktree(0);
    assert_eq!(removed.branch, "main");
    assert_eq!(baum.position_of("dev"), Some(0));
}

#[test]
fn ensure_id_keeps_an_id_that_is_there() {
    let mut baum = BaumManifest::new("github.com/user/repo");
    baum.id = Some("abc123".to_string());
    let mut taken = StringSet::new();
    taken.insert("abc123".to_string());
    assert_eq!(baum.ensure_id(&taken).unwrap(), "abc123");
    assert_eq!(baum.id.as_deref(), Some("abc123"));
}
