//! The envelope decoder and the full response pipeline.

use bungie_client::client::get_bungie_response;
use bungie_client::transport::RawResponse;
use bungie_client::{Error, JsonValue, PlatformErrorCodes};

fn json_response(body: &str) -> RawResponse {
    RawResponse {
        status: 200,
        content_type: Some("application/json".to_string()),
        body: body.to_string(),
    }
}

const OK_BODY: &str = r#"{"Response": 42, "ErrorCode": 1, "ThrottleSeconds": 0, "ErrorStatus": "Success", "Message": "ok", "MessageData": {}}"#;

#[test]
fn success_envelope_unwraps_the_payload() {
    let payload = get_bungie_response(json_response(OK_BODY)).expect("a success envelope");
    assert_eq!(payload, JsonValue::Int(42));
}

#[test]
fn unrecognized_error_code_is_preserved() {
    let body = r#"{"Response": 42, "ErrorCode": 5, "ThrottleSeconds": 0, "ErrorStatus": "Oops", "Message": "no", "MessageData": {}}"#;
    match get_bungie_response(json_response(body)) {
        Err(Error::Bungie(PlatformErrorCodes::Unknown(5))) => {}
        _ => panic!("code 5 must surface as the unknown code 5"),
    }
}

#[test]
fn malformed_body_is_a_decode_error() {
    match get_bungie_response(json_response("{not json")) {
        Err(Error::SerdeJson(_)) => {}
        _ => panic!("a malformed body must be a decode error"),
    }
}

#[test]
fn envelope_with_extra_field_is_rejected() {
    let body = r#"{"Response": 1, "ErrorCode": 1, "ThrottleSeconds": 0, "ErrorStatus": "Success", "Message": "ok", "MessageData": {}, "Unexpected": true}"#;
    match get_bungie_response(json_response(body)) {
        Err(Error::SerdeJson(_)) => {}
        _ => panic!("an envelope field beyond the declared set must fail decoding"),
    }
}

#[test]
fn envelope_with_missing_field_is_rejected() {
    let body = r#"{"Response": 1, "ErrorCode": 1}"#;
    match get_bungie_response(json_response(body)) {
        Err(Error::SerdeJson(_)) => {}
        _ => panic!("a missing envelope field must fail decoding"),
    }
}

#[test]
fn envelope_with_wrong_field_type_is_rejected() {
    let body = r#"{"Response": 1, "ErrorCode": "one", "ThrottleSeconds": 0, "ErrorStatus": "Success", "Message": "ok", "MessageData": {}}"#;
    match get_bungie_response(json_response(body)) {
        Err(Error::SerdeJson(_)) => {}
        _ => panic!("a non-numeric error code must fail decoding"),
    }
}

#[test]
fn envelope_keeps_message_fields_until_unwrapped() {
    let body = r#"{"Response": {"x": 1}, "ErrorCode": 1, "ThrottleSeconds": 7, "ErrorStatus": "Success", "Message": "fine", "MessageData": {"a": "b"}, "DetailedErrorTrace": "trace"}"#;
    let doc = bungie_client::wire::parse_json(body).expect("the body parses");
    let env = bungie_client::envelope::decode_envelope(&doc).expect("the envelope decodes");
    assert_eq!(env.error_code, PlatformErrorCodes::Success);
    assert_eq!(env.throttle_seconds, 7);
    assert_eq!(env.error_status, "Success");
    assert_eq!(env.message, "fine");
    assert_eq!(env.message_data, vec![("a".to_string(), "b".to_string())]);
    assert_eq!(env.detailed_error_trace.as_deref(), Some("trace"));
}

#[test]
fn platform_error_codes_are_an_open_enumeration() {
    assert_eq!(PlatformErrorCodes::from_code(1), PlatformErrorCodes::Success);
    assert_eq!(PlatformErrorCodes::from_code(5), PlatformErrorCodes::Unknown(5));
    assert_eq!(PlatformErrorCodes::from_code(99999), PlatformErrorCodes::Unknown(99999));
    assert_eq!(PlatformErrorCodes::Success.code(), 1);
    assert_eq!(PlatformErrorCodes::Unknown(5).code(), 5);
    assert_eq!(PlatformErrorCodes::Unknown(99999).code(), 99999);
}

#[test]
fn builder_keeps_the_api_key() {
    let builder = bungie_client::BungieClientBuilder::new("example-key".to_string());
    assert_eq!(builder.api_key, "example-key");
}
