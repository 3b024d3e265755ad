use oai_pmh::error::Error;
use oai_pmh::transport::scheme_ok;
use oai_pmh::transport::truncate_body;
use oai_pmh::transport::validate_xml_body;

#[test]
fn html_body_is_rejected_before_decoding() {
    let body = "<html>Service Unavailable</html>".to_string();
    let err = validate_xml_body(body, Some("text/html".to_string())).unwrap_err();
    match err {
        Error::UnexpectedResponse { content_type, body } => {
            assert_eq!(content_type.as_deref(), Some("text/html"));
            assert_eq!(body, "<html>Service Unavailable</html>");
        }
        _ => panic!("expected an unexpected-response error"),
    }
}

#[test]
fn long_alien_body_is_truncated_in_the_preview() {
    let body: String = "x".repeat(500);
    let err = validate_xml_body(body, None).unwrap_err();
    match err {
        Error::UnexpectedResponse { content_type, body } => {
            assert!(content_type.is_none());
            assert_eq!(body.chars().count(), 203);
            assert!(body.ends_with("..."));
            assert!(body.starts_with("xxx"));
        }
        _ => panic!("expected an unexpected-response error"),
    }
}

#[test]
fn xml_body_passes_through_unchanged() {
    let body = "\n  <?xml version=\"1.0\"?><OAI-PMH></OAI-PMH>".to_string();
    let ok = validate_xml_body(body.clone(), Some("text/xml".to_string())).unwrap();
    assert_eq!(ok, body);
}

#[test]
fn truncate_body_adds_ellipsis_only_when_cutting() {
    assert_eq!(truncate_body("short", 200), "short");
    assert_eq!(truncate_body("abcdef", 3), "abc...");
    assert_eq!(truncate_body("", 0), "");
}

#[test]
fn only_http_and_https_schemes_are_accepted() {
    assert!(scheme_ok("http"));
    assert!(scheme_ok("https"));
    assert!(!scheme_ok("ftp"));
    assert!(!scheme_ok("shttp"));
    assert!(!scheme_ok(""));
}
