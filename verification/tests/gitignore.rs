use wald::workspace::gitignore::{
    add_pattern_content, ensure_section_content, remove_wald_section,
};

const SECTION: &str = "# wald:start (managed by wald, do not edit)\n.wald/repos/\n.wald/state.yaml\n**/.baum/manifest.local.yaml\n**/_*.wt/\n# wald:end\n";

#[test]
fn test_remove_wald_section() {
    let content =
        "before\n# wald:start (managed by wald, do not edit)\npattern\n# wald:end\nafter\n";
    let result = remove_wald_section(content);
    assert_eq!(result, "before\nafter\n");
}

#[test]
fn test_remove_wald_section_no_section() {
    let content = "*.log\n*.tmp\n";
    let result = remove_wald_section(content);
    assert_eq!(result, content);
}

#[test]
fn remove_takes_whole_lines() {
    assert_eq!(
        remove_wald_section("a\n  # wald:start (managed by wald, do not edit) x\np\n# wald:end trailing"),
        "a\n"
    );
    assert_eq!(
        remove_wald_section("# wald:start (managed by wald, do not edit)\n# wald:end"),
        ""
    );
    // markers in the wrong order are left alone
    let odd = "# wald:end\n# wald:start (managed by wald, do not edit)\n";
    assert_eq!(remove_wald_section(odd), odd);
    let half = "x\n# wald:start (managed by wald, do not edit)\n";
    assert_eq!(remove_wald_section(half), half);
}

#[test]
fn ensure_section_writes_the_canonical_section() {
    assert_eq!(ensure_section_content(""), Some(SECTION.to_string()));
    assert_eq!(
        ensure_section_content("*.log\n"),
        Some(format!("*.log\n\n{}", SECTION))
    );
    assert_eq!(
        ensure_section_content("*.log"),
        Some(format!("*.log\n\n{}", SECTION))
    );
    assert_eq!(ensure_section_content(SECTION), None);
    assert_eq!(ensure_section_content(&format!("a\n{}b\n", SECTION)), None);
}

#[test]
fn ensure_section_heals_a_section_that_lacks_patterns() {
    let broken = "*.log\n# wald:start (managed by wald, do not edit)\n.wald/repos/\n# wald:end\nkeep\n";
    let healed = ensure_section_content(broken).unwrap();
    assert_eq!(healed, format!("*.log\nkeep\n\n{}", SECTION));
    assert_eq!(
        healed.matches("# wald:start (managed by wald, do not edit)").count(),
        1
    );
    assert_eq!(ensure_section_content(&healed), None);
}

#[test]
fn ensuring_twice_is_ensuring_once() {
    for start in ["", "x", "x\n", "# wald:end\n", "# wald:start (managed by wald, do not edit)\n", SECTION] {
        let once = ensure_section_content(start).unwrap_or(start.to_string());
        assert_eq!(ensure_section_content(&once), None, "{:?}", start);
        for part in SECTION.lines() {
            assert!(once.contains(part));
        }
    }
}

#[test]
fn worktree_pattern_is_added_once() {
    assert_eq!(
        add_pattern_content("", "_main.wt"),
        Some("/_main.wt\n".to_string())
    );
    assert_eq!(
        add_pattern_content("/_main.wt\n", "_dev.wt"),
        Some("/_main.wt\n/_dev.wt\n".to_string())
    );
    assert_eq!(
        add_pattern_content("/_main.wt", "_dev.wt"),
        Some("/_main.wt\n/_dev.wt\n".to_string())
    );
    assert_eq!(add_pattern_content("/_main.wt\n", "_main.wt"), None);
    assert_eq!(add_pattern_content("x\n  /_main.wt \r\ny", "_main.wt"), None);
    // a pattern that is only part of a line is not there yet
    assert_eq!(
        add_pattern_content("/_main.wt.bak\n", "_main.wt"),
        Some("/_main.wt.bak\n/_main.wt\n".to_string())
    );
    let added = add_pattern_content("a\n", "_feature--foo.wt").unwrap();
    assert_eq!(add_pattern_content(&added, "_feature--foo.wt"), None);
}

#[test]
fn patterns_outside_the_section_do_not_count() {
    let patterns = ".wald/repos/\n.wald/state.yaml\n**/.baum/manifest.local.yaml\n**/_*.wt/\n";
    let empty = "# wald:start (managed by wald, do not edit)\n# wald:end\n";
    let healed = ensure_section_content(&format!("{}{}", patterns, empty)).unwrap();
    assert_eq!(healed, format!("{}\n{}", patterns, SECTION));
    assert_eq!(ensure_section_content(&healed), None);
}

#[test]
fn after_ensuring_there_is_one_whole_section() {
    let one = "a\n# wald:start (managed by wald, do not edit)\n**/_*.wt/\n# wald:end\nb\n";
    for start in ["", "x\ny", one, SECTION] {
        let once = ensure_section_content(start).unwrap_or(start.to_string());
        let twice = ensure_section_content(&once).unwrap_or(once.clone());
        assert_eq!(once, twice);
        assert_eq!(twice.matches("# wald:start").count(), 1, "{:?}", start);
        assert_eq!(twice.matches("# wald:end").count(), 1, "{:?}", start);
        assert_eq!(twice.matches(SECTION).count(), 1, "{:?}", start);
    }
}
