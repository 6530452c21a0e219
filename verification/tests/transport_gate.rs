//! The transport gate: status classes and content types.

use bungie_client::transport::{validate_content_type, validate_status, RawResponse};
use bungie_client::Error;

fn response(status: u16, content_type: Option<&str>, body: &str) -> RawResponse {
    RawResponse {
        status,
        content_type: content_type.map(|s| s.to_string()),
        body: body.to_string(),
    }
}

#[test]
fn status_404_yields_client_error() {
    let res = response(404, Some("text/html"), "not found");
    match validate_status(res) {
        Err(Error::ClientError(kept)) => {
            assert_eq!(kept.status, 404);
            assert_eq!(kept.body, "not found");
        }
        _ => panic!("a 404 must yield ClientError"),
    }
}

#[test]
fn status_503_yields_server_error() {
    let res = response(503, None, "unavailable");
    match validate_status(res) {
        Err(Error::ServerError(kept)) => assert_eq!(kept.status, 503),
        _ => panic!("a 503 must yield ServerError"),
    }
}

#[test]
fn status_201_proceeds_to_content_type_check() {
    let res = response(201, Some("text/html"), "<html></html>");
    let passed = validate_status(res).expect("a 201 must pass the status check");
    match validate_content_type(passed) {
        Err(Error::InvalidContentType(observed)) => assert_eq!(observed, "text/html"),
        _ => panic!("text/html must yield InvalidContentType"),
    }
}

#[test]
fn informational_and_redirect_statuses_proceed() {
    assert!(validate_status(response(100, None, "")).is_ok());
    assert!(validate_status(response(200, None, "")).is_ok());
    assert!(validate_status(response(302, None, "")).is_ok());
}

#[test]
fn out_of_range_status_proceeds() {
    assert!(validate_status(response(399, None, "")).is_ok());
    assert!(validate_status(response(600, None, "")).is_ok());
    assert!(validate_status(response(999, None, "")).is_ok());
}

#[test]
fn missing_content_type_proceeds() {
    let res = response(200, None, "{}");
    assert!(validate_content_type(res).is_ok());
}

#[test]
fn json_content_type_with_charset_proceeds() {
    let res = response(200, Some("application/json; charset=utf-8"), "{}");
    assert!(validate_content_type(res).is_ok());
}

#[test]
fn html_content_type_never_reaches_the_parser() {
    // The body here is not JSON at all; the error must still be about the
    // content type, which shows the parse was never attempted.
    let res = response(200, Some("text/html"), "<html>oops</html>");
    match bungie_client::client::get_bungie_response(res) {
        Err(Error::InvalidContentType(observed)) => assert_eq!(observed, "text/html"),
        _ => panic!("the content type must be judged before the body is parsed"),
    }
}
