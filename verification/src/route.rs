//! The route table. Three endpoints exist, each echoing a fixed subset of
//! the request: `/echo` its metadata, `/echo_body` its body, `/echo_full`
//! both. Dispatching is stateless: the decoder, the capturer and the encoder
//! run in sequence on one request's data and nothing survives the request.

use vstd::prelude::*;
use crate::body::{capture_chunks, chunks_bytes, lossy_decode, BodyCapture};
use crate::error::EchoError;
use crate::request::{decode_request, decoded_headers, raw_headers_ok, RawHeader, RequestView};
use crate::response::{
    encode_body_only, encode_full, encode_metadata, encode_response, encode_response_spec,
    EchoResponse,
};
use crate::text::str_eq;
use vstd::utf8::{decode_utf8, valid_utf8};

verus! {

/// One of the three endpoints.
#[derive(Clone, Copy, Debug, PartialEq, Eq, Structural)]
pub enum Route {
    Echo,
    EchoBody,
    EchoFull,
}

/// The route, if any, that answers the given method and path.
pub open spec fn route_for(method: Seq<char>, path: Seq<char>) -> Option<Route> {
    if method == "GET"@ && path == "/echo"@ {
        Some(Route::Echo)
    } else if method == "POST"@ && path == "/echo_body"@ {
        Some(Route::EchoBody)
    } else if method == "POST"@ && path == "/echo_full"@ {
        Some(Route::EchoFull)
    } else {
        None
    }
}

/// Looks a request's method and path up in the route table.
pub fn find_route(method: &str, path: &str) -> (r: Option<Route>)
    ensures
        r == route_for(method@, path@),
{
    let get = str_eq(method, "GET");
    let post = str_eq(method, "POST");
    if get && str_eq(path, "/echo") {
        Some(Route::Echo)
    } else if post && str_eq(path, "/echo_body") {
        Some(Route::EchoBody)
    } else if post && str_eq(path, "/echo_full") {
        Some(Route::EchoFull)
    } else {
        None
    }
}

/// Whether the route echoes the request's method, target and headers.
pub open spec fn spec_route_wants_metadata(r: Route) -> bool {
    match r {
        Route::Echo => true,
        Route::EchoBody => false,
        Route::EchoFull => true,
    }
}

/// Whether the route echoes the request's body.
pub open spec fn spec_route_wants_body(r: Route) -> bool {
    match r {
        Route::Echo => false,
        Route::EchoBody => true,
        Route::EchoFull => true,
    }
}

/// Whether the route needs the request's metadata decoded.
pub fn route_wants_metadata(r: &Route) -> (b: bool)
    ensures
        b == spec_route_wants_metadata(*r),
{
    match r {
        Route::Echo => true,
        Route::EchoBody => false,
        Route::EchoFull => true,
    }
}

/// Whether the route needs the request's body captured.
pub fn route_wants_body(r: &Route) -> (b: bool)
    ensures
        b == spec_route_wants_body(*r),
{
    match r {
        Route::Echo => false,
        Route::EchoBody => true,
        Route::EchoFull => true,
    }
}

/// The JSON document a route answers with, given the decoded metadata and
/// the captured body text.
pub open spec fn response_document(
    route: Route,
    m: Seq<char>,
    u: Seq<char>,
    hs: Seq<(Seq<char>, Seq<char>)>,
    b: Seq<char>,
) -> Seq<char> {
    match route {
        Route::Echo => encode_metadata(m, u, hs),
        Route::EchoBody => encode_body_only(b),
        Route::EchoFull => encode_full(m, u, hs, b),
    }
}

/// Picks the response variant the route calls for, carrying over exactly the
/// fields that route echoes.
pub fn select_response(route: &Route, view: RequestView, body: BodyCapture) -> (r: EchoResponse)
    ensures
        encode_response_spec(r) == response_document(
            *route,
            view.method@,
            view.uri@,
            view.headers_model(),
            body.text@,
        ),
{
    match route {
        Route::Echo => EchoResponse::Metadata {
            method: view.method,
            uri: view.uri,
            headers: view.headers,
        },
        Route::EchoBody => EchoResponse::BodyOnly { body: body.text },
        Route::EchoFull => EchoResponse::Full {
            method: view.method,
            uri: view.uri,
            headers: view.headers,
            body: body.text,
        },
    }
}

/// Encodes the route's response for a decoded request and a captured body.
pub fn respond(route: &Route, view: RequestView, body: BodyCapture) -> (r: String)
    ensures
        r@ == response_document(*route, view.method@, view.uri@, view.headers_model(), body.text@),
{
    let resp = select_response(route, view, body);
    encode_response(&resp)
}

/// The compute part of the `/echo` handler: reflects the request's method,
/// target and headers as the metadata document.
pub fn echo_request(view: RequestView) -> (r: String)
    ensures
        r@ == encode_metadata(view.method@, view.uri@, view.headers_model()),
{
    encode_response(
        &EchoResponse::Metadata { method: view.method, uri: view.uri, headers: view.headers },
    )
}

/// The compute part of the `/echo_body` handler: reflects the captured body
/// as the body document.
pub fn echo_request_body(body: BodyCapture) -> (r: String)
    ensures
        r@ == encode_body_only(body.text@),
{
    encode_response(&EchoResponse::BodyOnly { body: body.text })
}

/// The compute part of the `/echo_full` handler: reflects metadata and body
/// together as the full document.
pub fn echo_full(view: RequestView, body: BodyCapture) -> (r: String)
    ensures
        r@ == encode_full(view.method@, view.uri@, view.headers_model(), body.text@),
{
    encode_response(
        &EchoResponse::Full {
            method: view.method,
            uri: view.uri,
            headers: view.headers,
            body: body.text,
        },
    )
}

/// Runs one request through the table: decodes the metadata where the route
/// needs it, captures the body where the route needs it, and encodes the
/// response. Succeeds exactly when every step the route relies on succeeds;
/// each failure surfaces as the error of the step that found it, never as a
/// crash.
pub fn dispatch(
    route: &Route,
    method: String,
    uri: String,
    raw: Vec<RawHeader>,
    chunks: &Vec<Vec<u8>>,
    limit: usize,
) -> (r: Result<String, EchoError>)
    ensures
        r is Ok <==> ((spec_route_wants_metadata(*route) ==> raw_headers_ok(raw@)) && (
        spec_route_wants_body(*route) ==> chunks_bytes(chunks@).len() <= limit)),
        r is Ok ==> r->Ok_0@ == response_document(
            *route,
            method@,
            uri@,
            decoded_headers(raw@),
            lossy_decode(chunks_bytes(chunks@)),
        ),
        r is Ok && spec_route_wants_body(*route) && valid_utf8(chunks_bytes(chunks@))
            ==> r->Ok_0@ == response_document(
            *route,
            method@,
            uri@,
            decoded_headers(raw@),
            decode_utf8(chunks_bytes(chunks@)),
        ),
        r is Err ==> (r->Err_0 == EchoError::DecodeError && spec_route_wants_metadata(*route)
            && !raw_headers_ok(raw@)) || (r->Err_0 == EchoError::BodyTooLarge
            && spec_route_wants_body(*route) && chunks_bytes(chunks@).len() > limit),
{
    let wants_meta = route_wants_metadata(route);
    let wants_body = route_wants_body(route);
    let view = if wants_meta {
        match decode_request(method, uri, raw) {
            Ok(v) => v,
            Err(e) => {
                return Err(e);
            },
        }
    } else {
        RequestView { method, uri, headers: Vec::new() }
    };
    let body = if wants_body {
        match capture_chunks(chunks, limit) {
            Ok(b) => b,
            Err(e) => {
                return Err(e);
            },
        }
    } else {
        BodyCapture { text: String::new() }
    };
    Ok(respond(route, view, body))
}

} // verus!
