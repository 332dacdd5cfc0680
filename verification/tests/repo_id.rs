use std::path::PathBuf;

use wald::types::repo_id::{RepoId, RepoIdError};

#[test]
fn test_parse_three_segments() {
    let id = RepoId::parse("github.com/user/repo").unwrap();
    assert_eq!(id.host, "github.com");
    assert_eq!(id.path, vec!["user", "repo"]);
    assert_eq!(id.name(), "repo");
    assert_eq!(id.owner_path(), "user");
}

#[test]
fn test_parse_four_segments_subgroup() {
    let id = RepoId::parse("git.zib.de/iol/research/project").unwrap();
    assert_eq!(id.host, "git.zib.de");
    assert_eq!(id.path, vec!["iol", "research", "project"]);
    assert_eq!(id.name(), "project");
    assert_eq!(id.owner_path(), "iol/research");
}

#[test]
fn test_parse_five_segments_deep_subgroup() {
    let id = RepoId::parse("git.zib.de/a/b/c/repo").unwrap();
    assert_eq!(id.host, "git.zib.de");
    assert_eq!(id.path, vec!["a", "b", "c", "repo"]);
    assert_eq!(id.name(), "repo");
    assert_eq!(id.owner_path(), "a/b/c");
}

#[test]
fn test_parse_two_segments_minimal() {
    let id = RepoId::parse("example.com/repo").unwrap();
    assert_eq!(id.host, "example.com");
    assert_eq!(id.path, vec!["repo"]);
    assert_eq!(id.name(), "repo");
    assert_eq!(id.owner_path(), "");
}

#[test]
fn test_parse_invalid_one_segment() {
    assert!(RepoId::parse("github.com").is_err());
}

#[test]
fn test_parse_invalid_empty_segment() {
    assert!(RepoId::parse("github.com//repo").is_err());
    assert!(RepoId::parse("github.com/user/").is_err());
}

#[test]
fn test_to_bare_path_three_segments() {
    let id = RepoId::parse("github.com/user/repo").unwrap();
    assert_eq!(
        PathBuf::from(id.to_bare_path()),
        PathBuf::from("github.com/user/repo.git")
    );
}

#[test]
fn test_to_bare_path_subgroup() {
    let id = RepoId::parse("git.zib.de/iol/research/project").unwrap();
    assert_eq!(
        PathBuf::from(id.to_bare_path()),
        PathBuf::from("git.zib.de/iol/research/project.git")
    );
}

#[test]
fn test_to_clone_url_github() {
    let id = RepoId::parse("github.com/user/repo").unwrap();
    assert_eq!(id.to_clone_url(), "git@github.com:user/repo.git");
}

#[test]
fn test_to_clone_url_gitlab_subgroup() {
    let id = RepoId::parse("git.zib.de/iol/research/project").unwrap();
    assert_eq!(id.to_clone_url(), "git@git.zib.de:iol/research/project.git");
}

#[test]
fn test_display_three_segments() {
    let id = RepoId::parse("github.com/user/repo").unwrap();
    assert_eq!(id.as_str(), "github.com/user/repo");
}

#[test]
fn test_display_subgroup() {
    let id = RepoId::parse("git.zib.de/iol/research/project").unwrap();
    assert_eq!(id.as_str(), "git.zib.de/iol/research/project");
}

#[test]
fn test_parse_with_port_in_host() {
    let id = RepoId::parse("git.example.com:8443/user/repo").unwrap();
    assert_eq!(id.host, "git.example.com:8443");
    assert_eq!(id.path, vec!["user", "repo"]);
}

#[test]
fn test_parse_whitespace_trimmed() {
    let id = RepoId::parse("  github.com / user / repo  ").unwrap();
    assert_eq!(id.host, "github.com");
    assert_eq!(id.path, vec!["user", "repo"]);
    assert_eq!(id.name(), "repo");
}

#[test]
fn test_parse_trailing_slash() {
    let result = RepoId::parse("github.com/user/repo/");
    assert!(result.is_err());
}

#[test]
fn test_parse_dots_in_path() {
    let id = RepoId::parse("github.com/user/repo.fork").unwrap();
    assert_eq!(id.host, "github.com");
    assert_eq!(id.path, vec!["user", "repo.fork"]);
    assert_eq!(id.name(), "repo.fork");
}

#[test]
fn test_owner_path_single_segment() {
    let id = RepoId::parse("example.com/repo").unwrap();
    assert_eq!(id.name(), "repo");
    assert_eq!(id.owner_path(), "");
}

#[test]
fn test_parse_leading_slash() {
    let result = RepoId::parse("/github.com/user/repo");
    assert!(result.is_err());
}

#[test]
fn test_to_clone_url_overleaf() {
    let id = RepoId::parse("git.overleaf.com/abc123").unwrap();
    assert_eq!(id.to_clone_url(), "https://git.overleaf.com/abc123");
}

#[test]
fn each_error_names_its_input() {
    assert_eq!(
        RepoId::parse("github.com"),
        Err(RepoIdError::TooFewSegments("github.com".to_string()))
    );
    assert_eq!(
        RepoId::parse(""),
        Err(RepoIdError::TooFewSegments(String::new()))
    );
    assert_eq!(
        RepoId::parse("github.com//repo"),
        Err(RepoIdError::EmptyComponent("github.com//repo".to_string()))
    );
    assert_eq!(
        RepoId::parse(" /user/repo"),
        Err(RepoIdError::EmptyComponent(" /user/repo".to_string()))
    );
    assert_eq!(
        RepoId::parse("host/\u{2003}"),
        Err(RepoIdError::EmptyComponent("host/\u{2003}".to_string()))
    );
}

#[test]
fn error_messages() {
    assert_eq!(
        RepoIdError::TooFewSegments("x".to_string()).message(),
        "repo ID requires at least host and one path segment: 'x'"
    );
    assert_eq!(
        RepoIdError::EmptyComponent("a//b".to_string()).message(),
        "empty component in repo ID: 'a//b'"
    );
    assert_eq!(
        RepoIdError::InvalidFormat("?".to_string()).message(),
        "invalid repo ID format: expected host/path/to/repo, got '?'"
    );
}

#[test]
fn parse_undoes_as_str() {
    for s in [
        "github.com/user/repo",
        "git.zib.de/iol/research/project",
        "example.com/repo",
        "git.example.com:8443/a/b/c/d",
    ] {
        let id = RepoId::parse(s).unwrap();
        assert_eq!(id.as_str(), s);
        assert_eq!(RepoId::parse(&id.as_str()).unwrap(), id);
    }
}

#[test]
fn clone_url_of_an_unknown_host_is_ssh_with_the_full_path() {
    let id = RepoId::parse("codeberg.org/team/sub/tool").unwrap();
    assert_eq!(id.to_clone_url(), "git@codeberg.org:team/sub/tool.git");
    let leaf = RepoId::parse("git.overleaf.com/group/abc123").unwrap();
    assert_eq!(leaf.to_clone_url(), "https://git.overleaf.com/abc123");
}

#[test]
fn bare_path_of_a_minimal_id() {
    let id = RepoId::parse("example.com/repo").unwrap();
    assert_eq!(id.to_bare_path(), "example.com/repo.git");
}

#[test]
fn from_str_parses() {
    let id: RepoId = "github.com/user/repo".parse().unwrap();
    assert_eq!(id, RepoId::parse("github.com/user/repo").unwrap());
    assert!("github.com".parse::<RepoId>().is_err());
}
