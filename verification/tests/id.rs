use wald::id::{format_wald_branch, generate_baum_id, parse_wald_branch, pick_baum_id, IdError};
use wald::string_set::StringSet;

fn pair(id: &str, branch: &str) -> Option<(String, String)> {
    Some((id.to_string(), branch.to_string()))
}

#[test]
fn test_generate_baum_id_format() {
    let id = generate_baum_id(&StringSet::new()).unwrap();
    assert_eq!(id.len(), 6);
    assert!(id.chars().all(|c| c.is_ascii_hexdigit()));
}

#[test]
fn test_generate_baum_id_uniqueness() {
    let mut existing = StringSet::new();
    for _ in 0..100 {
        let id = generate_baum_id(&existing).unwrap();
        assert!(!existing.contains(&id));
        existing.insert(id);
    }
}

#[test]
fn test_generate_baum_id_avoids_existing() {
    let mut existing = StringSet::new();
    existing.insert("abc123".to_string());
    let id = generate_baum_id(&existing).unwrap();
    assert_ne!(id, "abc123");
}

#[test]
fn test_format_wald_branch() {
    assert_eq!(format_wald_branch("abc123", "main"), "wald/abc123/main");
    assert_eq!(
        format_wald_branch("def456", "feature/foo"),
        "wald/def456/feature/foo"
    );
}

#[test]
fn test_parse_wald_branch() {
    assert_eq!(parse_wald_branch("wald/abc123/main"), pair("abc123", "main"));
    assert_eq!(
        parse_wald_branch("wald/def456/feature/foo"),
        pair("def456", "feature/foo")
    );
}

#[test]
fn test_parse_wald_branch_invalid() {
    // Not a wald branch
    assert_eq!(parse_wald_branch("main"), None);
    assert_eq!(parse_wald_branch("refs/heads/main"), None);

    // Invalid ID format
    assert_eq!(parse_wald_branch("wald/abc/main"), None); // too short
    assert_eq!(parse_wald_branch("wald/abcdefgh/main"), None); // too long
    assert_eq!(parse_wald_branch("wald/abcxyz/main"), None); // not hex

    // Missing parts
    assert_eq!(parse_wald_branch("wald/abc123"), None);
    assert_eq!(parse_wald_branch("wald/"), None);
}

#[test]
fn parse_rejects_an_empty_branch() {
    assert_eq!(parse_wald_branch("wald/abc123/"), None);
    assert_eq!(parse_wald_branch("wald/abc123/x"), pair("abc123", "x"));
}

#[test]
fn parse_accepts_either_case_of_hex() {
    assert_eq!(parse_wald_branch("wald/ABCdef/main"), pair("ABCdef", "main"));
}

#[test]
fn parse_undoes_format() {
    for id in ["000000", "abc123", "ffffff", "AbCdEf"] {
        for branch in ["main", "feature/foo", "a", "wald/abc123/x", "/"] {
            let name = format_wald_branch(id, branch);
            assert_eq!(parse_wald_branch(&name), pair(id, branch));
        }
    }
}

#[test]
fn pick_encodes_bytes_in_lowercase_hex() {
    let none = StringSet::new();
    assert_eq!(
        pick_baum_id(&none, &vec![0xab, 0x01, 0xf0]),
        Some("ab01f0".to_string())
    );
    assert_eq!(
        pick_baum_id(&none, &vec![0, 0, 0]),
        Some("000000".to_string())
    );
}

#[test]
fn pick_refuses_a_taken_id() {
    let mut taken = StringSet::new();
    taken.insert("ab01f0".to_string());
    assert_eq!(pick_baum_id(&taken, &vec![0xab, 0x01, 0xf0]), None);
    assert_eq!(
        pick_baum_id(&taken, &vec![0xab, 0x01, 0xf1]),
        Some("ab01f1".to_string())
    );
}

#[test]
fn an_empty_set_never_exhausts_the_draws() {
    for _ in 0..32 {
        assert_ne!(generate_baum_id(&StringSet::new()), Err(IdError::Exhausted));
    }
}
