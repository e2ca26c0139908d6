//! Cross-checks the hand-built documents against an independent JSON parser.

use echo_service::{capture_chunks, decode_request, dispatch, echo_full, RawHeader, Route};

fn raw(name: &str, value: &[u8]) -> RawHeader {
    RawHeader { name: name.to_string(), value: value.to_vec() }
}

const LIMIT: usize = 1 << 20;

#[test]
fn metadata_document_parses_and_carries_the_fields() {
    let out = dispatch(
        &Route::Echo,
        "GET".to_string(),
        "http://localhost/echo".to_string(),
        vec![raw("foo", b"bar"), raw("answer", b"42")],
        &vec![],
        LIMIT,
    )
    .unwrap();
    let v: serde_json::Value = serde_json::from_str(&out).unwrap();
    assert_eq!(v.get("method").unwrap().as_str(), Some("GET"));
    assert_eq!(v.get("uri").unwrap().as_str(), Some("http://localhost/echo"));
    let headers = v.get("headers").unwrap().as_array().unwrap();
    assert_eq!(headers.len(), 2);
    assert_eq!(headers[0].as_array().unwrap()[0].as_str(), Some("foo"));
    assert_eq!(headers[0].as_array().unwrap()[1].as_str(), Some("bar"));
    assert_eq!(headers[1].as_array().unwrap()[0].as_str(), Some("answer"));
    assert_eq!(headers[1].as_array().unwrap()[1].as_str(), Some("42"));
    assert!(v.get("body").is_none());
}

#[test]
fn escaped_body_survives_a_parse_round_trip() {
    let payload = "a\"b\\c\nd\re\tf\u{1}g\u{fffd}é";
    let view = decode_request("POST".to_string(), "u".to_string(), vec![]).unwrap();
    let body = capture_chunks(&vec![payload.as_bytes().to_vec()], LIMIT).unwrap();
    let out = echo_full(view, body);
    let v: serde_json::Value = serde_json::from_str(&out).unwrap();
    assert_eq!(v.get("body").unwrap().as_str(), Some(payload));
    assert_eq!(v.get("method").unwrap().as_str(), Some("POST"));
}

#[test]
fn body_document_has_exactly_one_key() {
    let out = dispatch(
        &Route::EchoBody,
        "POST".to_string(),
        "u".to_string(),
        vec![],
        &vec![b"hello".to_vec()],
        LIMIT,
    )
    .unwrap();
    let v: serde_json::Value = serde_json::from_str(&out).unwrap();
    let obj = v.as_object().unwrap();
    assert_eq!(obj.len(), 1);
    assert_eq!(obj.get("body").unwrap().as_str(), Some("hello"));
}
