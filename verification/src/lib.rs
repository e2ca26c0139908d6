//! An HTTP echo core: decodes a request's metadata and streamed body into an
//! order-preserving view, and encodes that view as a fixed-shape JSON document
//! per route. The surrounding HTTP transport hands this library plain values
//! (method and target strings, raw header bytes, body chunks) and sends the
//! JSON text back to the client.

pub mod body;
pub mod error;
pub mod json;
pub mod request;
pub mod response;
pub mod route;
mod text;

pub use body::{capture_chunks, BodyCapture, BodyCapturer};
pub use error::{status_code, EchoError};
pub use request::{decode_request, HeaderEntry, RawHeader, RequestView};
pub use response::{encode_response, EchoResponse};
pub use route::{
    dispatch, echo_full, echo_request, echo_request_body, find_route, respond, route_wants_body,
    route_wants_metadata, select_response, Route,
};
