use std::path::{Path, PathBuf};

use wald::paths::{
    components_of, join_path, normalize_path, parent_of, path_starts_with, same_path, strip_base,
    Component,
};

fn name(s: &str) -> Component {
    Component::Normal(s.to_string())
}

#[test]
fn components_follow_the_rules_of_paths() {
    assert_eq!(components_of(""), vec![]);
    assert_eq!(components_of("/"), vec![Component::Root]);
    assert_eq!(components_of("."), vec![Component::Cur]);
    assert_eq!(components_of("a/b"), vec![name("a"), name("b")]);
    assert_eq!(
        components_of("/a//b/./c/"),
        vec![Component::Root, name("a"), name("b"), name("c")]
    );
    assert_eq!(
        components_of("./a/../b"),
        vec![Component::Cur, name("a"), Component::Parent, name("b")]
    );
    assert_eq!(components_of("../x"), vec![Component::Parent, name("x")]);
    assert_eq!(components_of("a/."), vec![name("a")]);
    assert_eq!(components_of("..."), vec![name("...")]);
}

#[test]
fn components_agree_with_std() {
    for p in ["", "/", ".", "..", "a", "a/b", "/a/b/", "./a", "a/./b", "a//b", "/..", "./.", "a/..", "//x"] {
        let std: Vec<String> = Path::new(p)
            .components()
            .map(|c| c.as_os_str().to_string_lossy().to_string())
            .collect();
        let mine: Vec<String> = components_of(p)
            .into_iter()
            .map(|c| match c {
                Component::Root => "/".to_string(),
                Component::Cur => ".".to_string(),
                Component::Parent => "..".to_string(),
                Component::Normal(n) => n,
            })
            .collect();
        assert_eq!(mine, std, "{:?}", p);
    }
}

#[test]
fn normalize_resolves_dots_on_the_text() {
    assert_eq!(normalize_path("/ws/tools/../research/repo"), "/ws/research/repo");
    assert_eq!(normalize_path("/ws/./a/./b"), "/ws/a/b");
    assert_eq!(normalize_path("/ws/tools/../../outside"), "/outside");
    assert_eq!(normalize_path("/../.."), "/");
    assert_eq!(normalize_path("a/../../b"), "b");
    assert_eq!(normalize_path("a//b/"), "a/b");
    assert_eq!(normalize_path(""), "");
    assert_eq!(normalize_path("."), "");
    assert_eq!(normalize_path("/"), "/");
}

#[test]
fn join_as_paths_join() {
    for (a, b) in [
        ("/ws", "tools/repo"),
        ("/ws/", "tools"),
        ("", "x"),
        ("/ws", "/etc/passwd"),
        ("a", ""),
        ("/", "x"),
        ("a/b", "../c"),
    ] {
        assert_eq!(
            PathBuf::from(join_path(a, b)),
            Path::new(a).join(b),
            "{:?} {:?}",
            a,
            b
        );
    }
    assert_eq!(join_path("/ws", ".wald"), "/ws/.wald");
    assert_eq!(join_path("/ws/", ".wald"), "/ws/.wald");
    assert_eq!(join_path("/ws", "/abs"), "/abs");
}

#[test]
fn starts_with_goes_by_components() {
    for (p, base) in [
        ("/ws/a", "/ws"),
        ("/ws", "/ws"),
        ("/wsx/a", "/ws"),
        ("/ws/a", "/ws/"),
        ("/w", "/ws"),
        ("a/b", "a"),
        ("a/b", ""),
        ("/a", "a"),
        ("/ws/../etc", "/ws"),
    ] {
        assert_eq!(
            path_starts_with(p, base),
            Path::new(p).starts_with(base),
            "{:?} {:?}",
            p,
            base
        );
    }
}

#[test]
fn parent_is_the_path_without_its_last_component() {
    for p in ["/a/b", "/a", "/", "", "a", "a/b/", "./a", "a/..", "/a//b"] {
        let std = Path::new(p).parent().map(|x| x.to_path_buf());
        let mine = parent_of(p).map(PathBuf::from);
        assert_eq!(mine, std, "{:?}", p);
    }
    assert_eq!(parent_of("/ws/tools/x"), Some("/ws/tools".to_string()));
    assert_eq!(parent_of("/"), None);
}

#[test]
fn same_path_and_strip_base() {
    assert!(same_path("/ws/a", "/ws//a/"));
    assert!(!same_path("/ws/a", "/ws"));
    assert_eq!(strip_base("/ws/tools/x", "/ws"), Some("tools/x".to_string()));
    assert_eq!(strip_base("/ws", "/ws"), Some(String::new()));
    assert_eq!(strip_base("/other/x", "/ws"), None);
}
