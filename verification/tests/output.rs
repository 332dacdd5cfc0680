use wald::failure::ErrorKind;
use wald::output::{Output, OutputFormat};

#[test]
fn status_lines_set_the_verb_in_a_column_of_twelve() {
    let out = Output::new(OutputFormat::Human, false);
    assert_eq!(
        out.status("Planting", "x at y"),
        Some("    Planting x at y".to_string())
    );
    assert_eq!(
        out.status("Planting", "x at y"),
        Some(format!("{:>12} {}", "Planting", "x at y"))
    );
    assert_eq!(
        out.status("Converting to full clone", "r"),
        Some(format!("{:>12} {}", "Converting to full clone", "r"))
    );
    assert_eq!(out.status("", ""), Some(format!("{:>12} {}", "", "")));
    assert_eq!(out.status("Twelve chars", "t"), Some("Twelve chars t".to_string()));
    assert_eq!(out.success("ok"), Some(format!("{:>12} {}", "Done", "ok")));
    assert_eq!(out.warn("careful"), Some(format!("{:>12} {}", "Warning", "careful")));
    assert_eq!(out.info("plain"), Some("plain".to_string()));
}

#[test]
fn json_output_says_nothing_on_the_way() {
    let out = Output::new(OutputFormat::Json, true);
    assert_eq!(out.status("Planting", "x"), None);
    assert_eq!(out.success("ok"), None);
    assert_eq!(out.warn("w"), None);
    assert_eq!(out.info("i"), None);
    assert_eq!(out.verbose("v"), None);
}

#[test]
fn verbose_lines_need_verbosity() {
    assert_eq!(Output::new(OutputFormat::Human, false).verbose("v"), None);
    assert_eq!(
        Output::new(OutputFormat::Human, true).verbose("v"),
        Some("v".to_string())
    );
}

#[test]
fn require_human_refuses_json() {
    assert!(Output::default().require_human("plant").is_ok());
    let err = Output::new(OutputFormat::Json, false)
        .require_human("plant")
        .unwrap_err();
    assert_eq!(err.kind, ErrorKind::UserInput);
    assert_eq!(err.message, "JSON output is not supported for 'plant' command");
    assert_eq!(OutputFormat::default(), OutputFormat::Human);
}
