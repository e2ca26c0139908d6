use echo_service::{
    capture_chunks, decode_request, dispatch, echo_full, echo_request, echo_request_body,
    encode_response, find_route, respond, route_wants_body, route_wants_metadata, select_response,
    status_code, BodyCapture, BodyCapturer, EchoError, EchoResponse, RawHeader, Route,
};

fn raw(name: &str, value: &[u8]) -> RawHeader {
    RawHeader { name: name.to_string(), value: value.to_vec() }
}

const LIMIT: usize = 1 << 20;

#[test]
fn it_returns_request_info() {
    let route = find_route("GET", "/echo").unwrap();
    assert_eq!(route, Route::Echo);
    let headers = vec![raw("foo", b"bar"), raw("answer", b"42")];
    let out = dispatch(
        &route,
        "GET".to_string(),
        "http://localhost/echo".to_string(),
        headers,
        &vec![],
        LIMIT,
    )
    .unwrap();
    assert_eq!(
        out,
        r#"{"method":"GET","uri":"http://localhost/echo","headers":[["foo","bar"],["answer","42"]]}"#
    );
}

#[test]
fn it_returns_request_body() {
    let route = find_route("POST", "/echo_body").unwrap();
    assert_eq!(route, Route::EchoBody);
    let body = br#"{"body":"hello world"}"#.to_vec();
    let out = dispatch(
        &route,
        "POST".to_string(),
        "http://localhost/echo_body".to_string(),
        vec![raw("content-type", b"application/json")],
        &vec![body],
        LIMIT,
    )
    .unwrap();
    assert_eq!(out, r#"{"body":"{\"body\":\"hello world\"}"}"#);
}

#[test]
fn main_it_returns_request_body() {
    let route = find_route("POST", "/echo_full").unwrap();
    assert_eq!(route, Route::EchoFull);
    let headers = vec![raw("content-type", b"application/json"), raw("foo", b"bar")];
    let body = br#"{"body":"hello world"}"#.to_vec();
    let out = dispatch(
        &route,
        "POST".to_string(),
        "http://localhost/echo_full".to_string(),
        headers,
        &vec![body],
        LIMIT,
    )
    .unwrap();
    assert_eq!(
        out,
        r#"{"method":"POST","uri":"http://localhost/echo_full","headers":[["content-type","application/json"],["foo","bar"]],"body":"{\"body\":\"hello world\"}"}"#
    );
}

#[test]
fn headers_keep_order_and_duplicates() {
    let headers = vec![raw("a", b"1"), raw("b", b"2"), raw("a", b"3"), raw("a", b"1")];
    let view = decode_request("GET".to_string(), "http://localhost/echo".to_string(), headers)
        .unwrap();
    assert_eq!(view.headers.len(), 4);
    let out = echo_request(view);
    assert_eq!(
        out,
        r#"{"method":"GET","uri":"http://localhost/echo","headers":[["a","1"],["b","2"],["a","3"],["a","1"]]}"#
    );
}

#[test]
fn zero_headers_give_empty_array() {
    let view = decode_request("GET".to_string(), "http://localhost/echo".to_string(), vec![])
        .unwrap();
    let out = echo_request(view);
    assert_eq!(out, r#"{"method":"GET","uri":"http://localhost/echo","headers":[]}"#);
}

#[test]
fn valid_utf8_body_round_trips() {
    let text = "héllo wörld ✓";
    let body = capture_chunks(&vec![text.as_bytes().to_vec()], LIMIT).unwrap();
    assert_eq!(body.text, text);
    let out = echo_request_body(body);
    assert_eq!(out, format!("{}\"body\":\"{}\"{}", '{', text, '}'));
}

#[test]
fn invalid_utf8_body_is_replaced_not_rejected() {
    let body = capture_chunks(&vec![vec![0xff, b'a']], LIMIT).unwrap();
    assert_eq!(body.text, "\u{fffd}a");
    let out = echo_request_body(body);
    assert_eq!(out, "{\"body\":\"\u{fffd}a\"}");
}

#[test]
fn multi_chunk_body_is_fully_captured() {
    let chunks = vec![b"hello ".to_vec(), b"wor".to_vec(), b"ld".to_vec()];
    let body = capture_chunks(&chunks, LIMIT).unwrap();
    assert_eq!(body.text, "hello world");
}

#[test]
fn many_large_chunks_are_not_truncated() {
    let one = vec![b'x'; 64 * 1024];
    let chunks = vec![one.clone(), one.clone(), one.clone()];
    let body = capture_chunks(&chunks, LIMIT).unwrap();
    assert_eq!(body.text.len(), 3 * 64 * 1024);
    assert!(body.text.bytes().all(|b| b == b'x'));
}

#[test]
fn incremental_capture_accumulates_every_chunk() {
    let mut cap = BodyCapturer::new(16);
    assert!(cap.push_chunk(b"abc").is_ok());
    assert!(cap.push_chunk(b"").is_ok());
    assert!(cap.push_chunk(b"defg").is_ok());
    let body = cap.finish();
    assert_eq!(body.text, "abcdefg");
}

#[test]
fn oversized_chunk_is_refused_and_leaves_capture_unchanged() {
    let mut cap = BodyCapturer::new(4);
    assert!(cap.push_chunk(b"ab").is_ok());
    assert_eq!(cap.push_chunk(b"cde"), Err(EchoError::BodyTooLarge));
    assert!(cap.push_chunk(b"cd").is_ok());
    assert_eq!(cap.finish().text, "abcd");
}

#[test]
fn empty_body_yields_empty_string() {
    let out = dispatch(
        &Route::EchoBody,
        "POST".to_string(),
        "http://localhost/echo_body".to_string(),
        vec![],
        &vec![],
        LIMIT,
    )
    .unwrap();
    assert_eq!(out, r#"{"body":""}"#);
}

#[test]
fn full_document_is_union_of_metadata_and_body_documents() {
    let mk_headers = || vec![raw("foo", b"bar"), raw("foo", b"baz")];
    let method = "POST";
    let uri = "http://localhost/echo_full";
    let body_bytes = b"payload".to_vec();

    let meta_view = decode_request(method.to_string(), uri.to_string(), mk_headers()).unwrap();
    let metadata_doc = echo_request(meta_view);
    let body_doc = echo_request_body(capture_chunks(&vec![body_bytes.clone()], LIMIT).unwrap());

    let full_view = decode_request(method.to_string(), uri.to_string(), mk_headers()).unwrap();
    let full_doc = echo_full(full_view, capture_chunks(&vec![body_bytes], LIMIT).unwrap());

    let expected = format!(
        "{},{}",
        &metadata_doc[..metadata_doc.len() - 1],
        &body_doc[1..],
    );
    assert_eq!(full_doc, expected);
}

#[test]
fn invalid_header_value_is_a_decode_error() {
    let headers = vec![raw("bad", &[0xff, 0x00])];
    let err = decode_request("GET".to_string(), "http://localhost/echo".to_string(), headers)
        .unwrap_err();
    assert_eq!(err, EchoError::DecodeError);
    assert_eq!(status_code(&err), 400);
}

#[test]
fn control_byte_in_header_value_is_a_decode_error() {
    let headers = vec![raw("bad", b"a\x01b")];
    let err = dispatch(
        &Route::Echo,
        "GET".to_string(),
        "http://localhost/echo".to_string(),
        headers,
        &vec![],
        LIMIT,
    )
    .unwrap_err();
    assert_eq!(err, EchoError::DecodeError);
}

#[test]
fn tab_and_space_in_header_value_are_text() {
    let headers = vec![raw("ok", b"a\tb c")];
    let view = decode_request("GET".to_string(), "http://localhost/echo".to_string(), headers)
        .unwrap();
    assert_eq!(view.headers[0].value, "a\tb c");
}

#[test]
fn body_over_limit_is_too_large() {
    let err = dispatch(
        &Route::EchoBody,
        "POST".to_string(),
        "http://localhost/echo_body".to_string(),
        vec![],
        &vec![b"hello".to_vec()],
        4,
    )
    .unwrap_err();
    assert_eq!(err, EchoError::BodyTooLarge);
    assert_eq!(status_code(&err), 413);
}

#[test]
fn read_failure_maps_to_client_error_status() {
    assert_eq!(status_code(&EchoError::BodyReadError), 400);
}

#[test]
fn body_with_quotes_backslashes_and_controls_is_escaped() {
    let body = capture_chunks(&vec![b"a\"b\\c\nd\re\tf\x01g".to_vec()], LIMIT).unwrap();
    let out = echo_request_body(body);
    assert_eq!(out, r#"{"body":"a\"b\\c\nd\re\tf\u0001g"}"#);
}

#[test]
fn header_text_is_escaped_too() {
    let headers = vec![raw("q", b"say \"hi\"")];
    let view = decode_request("GET".to_string(), "http://localhost/echo".to_string(), headers)
        .unwrap();
    let out = echo_request(view);
    assert_eq!(
        out,
        r#"{"method":"GET","uri":"http://localhost/echo","headers":[["q","say \"hi\""]]}"#
    );
}

#[test]
fn route_table_matches_the_three_endpoints() {
    assert_eq!(find_route("GET", "/echo"), Some(Route::Echo));
    assert_eq!(find_route("POST", "/echo_body"), Some(Route::EchoBody));
    assert_eq!(find_route("POST", "/echo_full"), Some(Route::EchoFull));
    assert_eq!(find_route("POST", "/echo"), None);
    assert_eq!(find_route("GET", "/echo_body"), None);
    assert_eq!(find_route("GET", "/echo_full"), None);
    assert_eq!(find_route("PUT", "/echo"), None);
    assert_eq!(find_route("GET", "/other"), None);
}

#[test]
fn routes_declare_what_they_need() {
    assert!(route_wants_metadata(&Route::Echo));
    assert!(!route_wants_body(&Route::Echo));
    assert!(!route_wants_metadata(&Route::EchoBody));
    assert!(route_wants_body(&Route::EchoBody));
    assert!(route_wants_metadata(&Route::EchoFull));
    assert!(route_wants_body(&Route::EchoFull));
}

#[test]
fn select_response_picks_the_variant_for_the_route() {
    let view = decode_request(
        "GET".to_string(),
        "http://localhost/echo".to_string(),
        vec![raw("foo", b"bar")],
    )
    .unwrap();
    let body = BodyCapture { text: "ignored".to_string() };
    let resp = select_response(&Route::Echo, view, body);
    assert!(matches!(resp, EchoResponse::Metadata { .. }));
    let out = encode_response(&resp);
    assert_eq!(
        out,
        r#"{"method":"GET","uri":"http://localhost/echo","headers":[["foo","bar"]]}"#
    );
}

#[test]
fn respond_encodes_the_selected_document() {
    let view = decode_request("POST".to_string(), "u".to_string(), vec![]).unwrap();
    let body = BodyCapture { text: "b".to_string() };
    assert_eq!(respond(&Route::EchoBody, view, body), r#"{"body":"b"}"#);
}
