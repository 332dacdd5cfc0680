use wald::commands::clone::extract_repo_name;

#[test]
fn test_extract_repo_name_ssh() {
    assert_eq!(extract_repo_name("git@github.com:user/repo.git"), "repo");
}

#[test]
fn test_extract_repo_name_https() {
    assert_eq!(extract_repo_name("https://github.com/user/repo.git"), "repo");
}

#[test]
fn test_extract_repo_name_no_git_suffix() {
    assert_eq!(extract_repo_name("https://github.com/user/repo"), "repo");
}

#[test]
fn test_extract_repo_name_subgroup() {
    assert_eq!(
        extract_repo_name("git@git.zib.de:tools/subgroup/repo.git"),
        "repo"
    );
}

#[test]
fn extract_repo_name_edge_cases() {
    assert_eq!(extract_repo_name("repo"), "repo");
    assert_eq!(extract_repo_name("repo.git.git"), "repo");
    assert_eq!(extract_repo_name("host:repo"), "repo");
    assert_eq!(extract_repo_name("https://host/path/"), "");
    assert_eq!(extract_repo_name(""), "");
    assert_eq!(extract_repo_name(".git"), "");
    assert_eq!(extract_repo_name("a/b.gitx"), "b.gitx");
}
