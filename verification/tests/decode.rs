use rieproxy::response::{decode_response, invocation_url, respond, DecodeError};

#[test]
fn scenario_full_upstream_response() {
    let body = br#"{"statusCode":201,"headers":{"X-Id":"42"},"body":"ok"}"#;
    let r = decode_response(body).expect("a well-typed response must decode");
    assert_eq!(r.status, 201);
    assert_eq!(r.headers.get(&"X-Id".to_string()), Some(&"42".to_string()));
    assert_eq!(r.headers.len(), 1);
    assert_eq!(r.body, "ok");
}

#[test]
fn scenario_empty_object_defaults() {
    let r = decode_response(b"{}").expect("an empty object must decode");
    assert_eq!(r.status, 500);
    assert_eq!(r.headers.len(), 0);
    assert_eq!(r.body, "");
}

#[test]
fn missing_status_code_defaults_to_500() {
    let r = decode_response(br#"{"headers":{"a":"b"},"body":"x"}"#).unwrap();
    assert_eq!(r.status, 500);
    assert_eq!(r.body, "x");
}

#[test]
fn null_status_code_defaults_to_500() {
    let r = decode_response(br#"{"statusCode":null}"#).unwrap();
    assert_eq!(r.status, 500);
}

#[test]
fn missing_headers_mean_no_extra_headers() {
    let r = decode_response(br#"{"statusCode":200,"body":"x"}"#).unwrap();
    assert_eq!(r.headers.len(), 0);
}

#[test]
fn missing_body_means_empty_body() {
    let r = decode_response(br#"{"statusCode":200,"headers":{"k":"v"}}"#).unwrap();
    assert_eq!(r.body, "");
    assert_eq!(r.headers.get(&"k".to_string()), Some(&"v".to_string()));
}

#[test]
fn body_is_not_base64_decoded() {
    let r = decode_response(br#"{"statusCode":200,"body":"aGVsbG8=","isBase64Encoded":true}"#)
        .unwrap();
    assert_eq!(r.body, "aGVsbG8=");
}

#[test]
fn invalid_json_is_a_syntax_error() {
    assert!(matches!(decode_response(b"not json"), Err(DecodeError::Syntax)));
    assert!(matches!(decode_response(b""), Err(DecodeError::Syntax)));
    assert!(matches!(decode_response(br#"{"statusCode":}"#), Err(DecodeError::Syntax)));
}

#[test]
fn non_object_document_is_a_shape_error() {
    assert!(matches!(decode_response(b"[1,2]"), Err(DecodeError::Shape)));
    assert!(matches!(decode_response(b"5"), Err(DecodeError::Shape)));
    assert!(matches!(decode_response(br#""x""#), Err(DecodeError::Shape)));
}

#[test]
fn wrong_field_types_are_shape_errors() {
    assert!(matches!(decode_response(br#"{"statusCode":"200"}"#), Err(DecodeError::Shape)));
    assert!(matches!(decode_response(br#"{"statusCode":70000}"#), Err(DecodeError::Shape)));
    assert!(matches!(decode_response(br#"{"statusCode":-1}"#), Err(DecodeError::Shape)));
    assert!(matches!(decode_response(br#"{"statusCode":1.5}"#), Err(DecodeError::Shape)));
    assert!(matches!(decode_response(br#"{"headers":[]}"#), Err(DecodeError::Shape)));
    assert!(matches!(decode_response(br#"{"headers":{"a":1}}"#), Err(DecodeError::Shape)));
    assert!(matches!(decode_response(br#"{"body":5}"#), Err(DecodeError::Shape)));
    assert!(matches!(decode_response(br#"{"isBase64Encoded":"yes"}"#), Err(DecodeError::Shape)));
}

#[test]
fn unknown_fields_are_ignored() {
    let r = decode_response(br#"{"statusCode":204,"extra":{"deep":[1,2]}}"#).unwrap();
    assert_eq!(r.status, 204);
}

#[test]
fn transport_failure_yields_bad_gateway() {
    let r = respond(None);
    assert_eq!(r.status, 502);
    assert_eq!(r.headers.len(), 0);
    assert_eq!(r.body, "");
}

#[test]
fn undecodable_upstream_body_yields_bad_gateway() {
    let r = respond(Some(b"not json"));
    assert_eq!(r.status, 502);
    let r = respond(Some(b"[]"));
    assert_eq!(r.status, 502);
}

#[test]
fn decodable_upstream_body_is_passed_through() {
    let r = respond(Some(br#"{"statusCode":418,"body":"teapot"}"#));
    assert_eq!(r.status, 418);
    assert_eq!(r.body, "teapot");
}

#[test]
fn invoke_url_appends_the_fixed_endpoint() {
    assert_eq!(
        invocation_url("http://localhost:9000"),
        "http://localhost:9000/2015-03-31/functions/function/invocations"
    );
}
