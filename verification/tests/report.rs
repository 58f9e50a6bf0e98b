use config_loader::{render_failure, render_report, render_success, config_path, ConfigError};

#[test]
fn success_report_with_contents() {
    let out = render_report(&Ok(String::from("hello=world\n")));
    assert_eq!(
        out,
        "Config Contents:\nhello=world\n\nConfig file read successfully.\n"
    );
}

#[test]
fn failure_report_when_file_missing() {
    let out = render_report(&Err(ConfigError::OpenFailure));
    assert_eq!(out, "An error occurred while reading the config file.\n");
}

#[test]
fn success_report_with_empty_contents() {
    let out = render_report(&Ok(String::new()));
    assert_eq!(out, "Config Contents:\n\nConfig file read successfully.\n");
}

#[test]
fn failure_kinds_report_the_same_text() {
    let open = render_report(&Err(ConfigError::OpenFailure));
    let read = render_report(&Err(ConfigError::ReadFailure));
    assert_eq!(open, read);
    assert_eq!(open, render_failure());
}

#[test]
fn failure_report_shows_no_header() {
    let out = render_failure();
    assert!(!out.contains("Config Contents:"));
}

#[test]
fn success_report_preserves_contents_verbatim() {
    let contents = "a=1\nb = two\n# comment\n";
    let out = render_success(contents);
    let header = "Config Contents:\n";
    let trailer = "\nConfig file read successfully.\n";
    assert!(out.starts_with(header));
    assert!(out.ends_with(trailer));
    assert_eq!(&out[header.len()..out.len() - trailer.len()], contents);
}

#[test]
fn rendering_is_repeatable() {
    let first = render_success("key=value\n");
    let second = render_success("key=value\n");
    assert_eq!(first, second);
}

#[test]
fn target_path_is_fixed() {
    assert_eq!(config_path(), "config.txt");
}
