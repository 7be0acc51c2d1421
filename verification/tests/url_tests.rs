use forgejo_import::urls::parse_repository_url;

#[test]
fn ssh_url_is_recognized() {
    let r = parse_repository_url("git@github.com:alice/project");
    assert_eq!(r, Some(("alice".to_string(), "project".to_string())));
}

#[test]
fn https_url_is_recognized() {
    let r = parse_repository_url("https://github.com/alice/project");
    assert_eq!(r, Some(("alice".to_string(), "project".to_string())));
}

#[test]
fn name_is_the_second_segment() {
    let r = parse_repository_url("https://github.com/alice/project/extra");
    assert_eq!(r, Some(("alice".to_string(), "project".to_string())));
}

#[test]
fn unrelated_url_is_rejected() {
    assert_eq!(parse_repository_url("https://example.org/alice/project"), None);
    assert_eq!(parse_repository_url("ftp://github.com/alice/project"), None);
    assert_eq!(parse_repository_url("alice/project"), None);
    assert_eq!(parse_repository_url(""), None);
}

#[test]
fn missing_name_segment_is_rejected() {
    assert_eq!(parse_repository_url("https://github.com/aliceonly"), None);
    assert_eq!(parse_repository_url("git@github.com:aliceonly"), None);
}

#[test]
fn empty_segments_are_kept_verbatim() {
    let r = parse_repository_url("https://github.com/alice/");
    assert_eq!(r, Some(("alice".to_string(), String::new())));
}
