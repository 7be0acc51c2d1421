use forgejo_import::forgejo::{classify_forgejo_probe, ForgejoApiError};
use forgejo_import::github::{classify_github_response, GithubApiError};
use forgejo_import::status::{probe_outcome, require_success, status_is_success};

#[test]
fn success_statuses_are_the_2xx_range() {
    assert!(!status_is_success(199));
    assert!(status_is_success(200));
    assert!(status_is_success(204));
    assert!(status_is_success(299));
    assert!(!status_is_success(300));
    assert!(!status_is_success(404));
    assert!(!status_is_success(500));
}

#[test]
fn require_success_accepts_2xx() {
    assert_eq!(require_success(201, String::from("created")), Ok(()));
}

#[test]
fn require_success_reports_status_and_body() {
    let r = require_success(500, String::from("boom"));
    assert_eq!(r, Err((500, String::from("boom"))));
}

#[test]
fn probe_not_found_is_false_without_error() {
    assert_eq!(probe_outcome(404, String::from("no such org")), Ok(false));
}

#[test]
fn probe_2xx_is_true() {
    assert_eq!(probe_outcome(200, String::from("{}")), Ok(true));
    assert_eq!(probe_outcome(204, String::new()), Ok(true));
}

#[test]
fn probe_other_4xx_and_5xx_are_errors() {
    assert_eq!(
        probe_outcome(403, String::from("forbidden")),
        Err((403, String::from("forbidden")))
    );
    assert_eq!(
        probe_outcome(500, String::from("server error")),
        Err((500, String::from("server error")))
    );
    assert_eq!(probe_outcome(301, String::from("moved")), Err((301, String::from("moved"))));
}

#[test]
fn forgejo_probe_maps_failures_to_the_typed_error() {
    assert!(matches!(classify_forgejo_probe(404, String::from("gone")), Ok(false)));
    assert!(matches!(classify_forgejo_probe(200, String::from("{}")), Ok(true)));
    match classify_forgejo_probe(500, String::from("boom")) {
        Err(ForgejoApiError::NoSuccessStatusCodeError(code, body)) => {
            assert_eq!(code, 500);
            assert_eq!(body, "boom");
        }
        Ok(found) => panic!("expected the typed failure, got {}", found),
    }
}

#[test]
fn github_classifier_maps_failures_to_the_typed_error() {
    assert!(classify_github_response(200, String::new()).is_ok());
    match classify_github_response(403, String::from("forbidden")) {
        Err(GithubApiError::NoSuccessStatusCodeError(code, body)) => {
            assert_eq!(code, 403);
            assert_eq!(body, "forbidden");
        }
        Ok(()) => panic!("a 403 must be a failure"),
    }
}
