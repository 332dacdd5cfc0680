use wald::git::history::{detect_moves, detect_moves_args, parse_move_output};
use wald::git::shell::GitOutput;

#[test]
fn test_parse_move_output() {
    let output = "R100\ttools/repo/.baum/manifest.yaml\tadmin/repo/.baum/manifest.yaml\n";
    let moves = parse_move_output(output);

    assert_eq!(moves.len(), 1);
    assert_eq!(moves[0].old_path, "tools/repo");
    assert_eq!(moves[0].new_path, "admin/repo");
    assert_eq!(moves[0].similarity, 100);
}

#[test]
fn test_parse_move_output_ignores_non_baum() {
    let output = "R100\ttools/file.txt\tadmin/file.txt\n";
    let moves = parse_move_output(output);

    assert_eq!(moves.len(), 0);
}

#[test]
fn test_parse_move_output_multiple() {
    let output = r#"R100	tools/repo1/.baum/manifest.yaml	admin/repo1/.baum/manifest.yaml
R095	tools/repo2/.baum/manifest.yaml	research/repo2/.baum/manifest.yaml
"#;
    let moves = parse_move_output(output);

    assert_eq!(moves.len(), 2);
    assert_eq!(moves[0].old_path, "tools/repo1");
    assert_eq!(moves[1].new_path, "research/repo2");
    assert_eq!(moves[1].similarity, 95);
}

#[test]
fn test_parse_move_ignores_non_rename() {
    let output = r#"A	tools/new/.baum/manifest.yaml
D	old/deleted/.baum/manifest.yaml
M	modified/repo/.baum/manifest.yaml
R100	tools/repo/.baum/manifest.yaml	admin/repo/.baum/manifest.yaml
"#;
    let moves = parse_move_output(output);

    assert_eq!(moves.len(), 1);
    assert_eq!(moves[0].old_path, "tools/repo");
    assert_eq!(moves[0].new_path, "admin/repo");
}

#[test]
fn test_parse_move_nested_containers() {
    let output = "R100\tresearch/25-project/deep/nested/.baum/manifest.yaml\tresearch/26-project/even/deeper/nested/.baum/manifest.yaml\n";
    let moves = parse_move_output(output);

    assert_eq!(moves.len(), 1);
    assert_eq!(moves[0].old_path, "research/25-project/deep/nested");
    assert_eq!(moves[0].new_path, "research/26-project/even/deeper/nested");
}

#[test]
fn test_parse_move_similarity_scores() {
    let output = r#"R100	path1/.baum/manifest.yaml	dest1/.baum/manifest.yaml
R095	path2/.baum/manifest.yaml	dest2/.baum/manifest.yaml
R080	path3/.baum/manifest.yaml	dest3/.baum/manifest.yaml
R050	path4/.baum/manifest.yaml	dest4/.baum/manifest.yaml
"#;
    let moves = parse_move_output(output);

    assert_eq!(moves.len(), 4);
    assert_eq!(moves[0].similarity, 100);
    assert_eq!(moves[1].similarity, 95);
    assert_eq!(moves[2].similarity, 80);
    assert_eq!(moves[3].similarity, 50);
}

#[test]
fn test_parse_move_empty_output() {
    let moves = parse_move_output("");
    assert!(moves.is_empty());
}

#[test]
fn test_parse_move_whitespace_only() {
    let moves = parse_move_output("   \n\t\n   ");
    assert!(moves.is_empty());
}

#[test]
fn test_parse_move_malformed_line() {
    let output = r#"R100	only_one_field
R100	tools/repo/.baum/manifest.yaml	admin/repo/.baum/manifest.yaml
R100	too	many	fields	here
"#;
    let moves = parse_move_output(output);

    assert_eq!(moves.len(), 1);
    assert_eq!(moves[0].old_path, "tools/repo");
}

#[test]
fn test_parse_move_invalid_similarity_defaults_to_100() {
    let output = "Rxyz\ttools/repo/.baum/manifest.yaml\tadmin/repo/.baum/manifest.yaml\n";
    let moves = parse_move_output(output);

    assert_eq!(moves.len(), 1);
    assert_eq!(moves[0].similarity, 100);
}

#[test]
fn descriptor_at_the_top_level_has_the_empty_container() {
    let moves = parse_move_output(".baum/manifest.yaml\tx\nR100\t.baum/manifest.yaml\tsub/.baum/manifest.yaml");
    assert_eq!(moves.len(), 1);
    assert_eq!(moves[0].old_path, "");
    assert_eq!(moves[0].new_path, "sub");
}

#[test]
fn new_path_that_is_no_descriptor_stays_whole() {
    let moves = parse_move_output("R090\ta/.baum/manifest.yaml\tb/elsewhere.yaml\n");
    assert_eq!(moves.len(), 1);
    assert_eq!(moves[0].old_path, "a");
    assert_eq!(moves[0].new_path, "b/elsewhere.yaml");
    assert_eq!(moves[0].similarity, 90);
}

#[test]
fn suffix_without_slash_is_stripped_too() {
    let moves = parse_move_output("R100\tx.baum/manifest.yaml\ty.baum/manifest.yaml");
    assert_eq!(moves.len(), 1);
    assert_eq!(moves[0].old_path, "x");
    assert_eq!(moves[0].new_path, "y");
}

#[test]
fn similarity_out_of_range_or_absent_is_a_hundred() {
    for status in ["R", "R256", "R-1", "R1e2", "R 50"] {
        let line = format!("{}\ta/.baum/manifest.yaml\tb/.baum/manifest.yaml", status);
        let moves = parse_move_output(&line);
        assert_eq!(moves.len(), 1, "{}", status);
        assert_eq!(moves[0].similarity, 100, "{}", status);
    }
    let moves = parse_move_output("R+7\ta/.baum/manifest.yaml\tb/.baum/manifest.yaml");
    assert_eq!(moves[0].similarity, 7);
    let moves = parse_move_output("R255\ta/.baum/manifest.yaml\tb/.baum/manifest.yaml");
    assert_eq!(moves[0].similarity, 255);
    let moves = parse_move_output("R000\ta/.baum/manifest.yaml\tb/.baum/manifest.yaml");
    assert_eq!(moves[0].similarity, 0);
}

#[test]
fn carriage_returns_before_line_feeds_are_dropped() {
    let moves = parse_move_output(
        "R100\ta/.baum/manifest.yaml\tb/.baum/manifest.yaml\r\nR100\tc/.baum/manifest.yaml\td/.baum/manifest.yaml\r\n",
    );
    assert_eq!(moves.len(), 2);
    assert_eq!(moves[0].new_path, "b");
    assert_eq!(moves[1].new_path, "d");
}

#[test]
fn failed_run_reports_no_moves() {
    let run = GitOutput {
        success: false,
        stdout: "R100\ta/.baum/manifest.yaml\tb/.baum/manifest.yaml\n".to_string(),
        stderr: String::new(),
    };
    assert!(detect_moves(&run).is_empty());
    let run = GitOutput { success: true, ..run };
    assert_eq!(detect_moves(&run).len(), 1);
}

#[test]
fn rename_detection_arguments() {
    assert_eq!(
        detect_moves_args("/ws", "abc", "def"),
        vec![
            "-C",
            "/ws",
            "diff",
            "-M",
            "--name-status",
            "--first-parent",
            "--diff-filter=R",
            "abc..def"
        ]
    );
}
