//! The request view and its decoder. The transport hands over the method
//! token, the target, and the raw header bytes in arrival order; the decoder
//! turns them into text, keeping every entry — duplicates included — in its
//! place, and rejects a header value that is not valid text instead of
//! crashing.

use vstd::prelude::*;
use crate::error::EchoError;
use crate::text::push_char;

verus! {

/// One header as received: its name (header names are always text) and the
/// raw bytes of its value.
#[derive(Debug)]
pub struct RawHeader {
    pub name: String,
    pub value: Vec<u8>,
}

/// One decoded header entry. Entries are not unique: a repeated name keeps
/// one entry per occurrence.
#[derive(Debug)]
pub struct HeaderEntry {
    pub name: String,
    pub value: String,
}

/// Everything the metadata routes echo: the method, the target, and the
/// headers in arrival order.
#[derive(Debug)]
pub struct RequestView {
    pub method: String,
    pub uri: String,
    pub headers: Vec<HeaderEntry>,
}

/// A header value byte that counts as text: the visible characters of the
/// 7-bit range, space, and the horizontal tab.
pub open spec fn value_byte_ok(b: u8) -> bool {
    b == 9 || (32 <= b && b <= 126)
}

/// Whether a whole header value is valid text.
pub open spec fn header_value_ok(bytes: Seq<u8>) -> bool {
    forall|i: int| 0 <= i < bytes.len() ==> value_byte_ok(#[trigger] bytes[i])
}

/// Whether every header value of the request is valid text.
pub open spec fn raw_headers_ok(raw: Seq<RawHeader>) -> bool {
    forall|i: int| 0 <= i < raw.len() ==> header_value_ok(#[trigger] raw[i].value@)
}

/// The text of one header value: each byte read as the character it encodes.
pub open spec fn decode_value(bytes: Seq<u8>) -> Seq<char> {
    bytes.map_values(|b: u8| b as char)
}

/// The decoded header list, entry for entry and in order.
pub open spec fn decoded_headers(raw: Seq<RawHeader>) -> Seq<(Seq<char>, Seq<char>)> {
    raw.map_values(|h: RawHeader| (h.name@, decode_value(h.value@)))
}

/// The name/value character sequences of a decoded header list.
pub open spec fn headers_model(headers: Seq<HeaderEntry>) -> Seq<(Seq<char>, Seq<char>)> {
    headers.map_values(|h: HeaderEntry| (h.name@, h.value@))
}

impl RequestView {
    /// The headers of this view as character sequences, in stored order.
    pub open spec fn headers_model(&self) -> Seq<(Seq<char>, Seq<char>)> {
        headers_model(self.headers@)
    }
}

/// Decoding never drops, merges or reorders an entry: the result has one
/// entry per received header, at the same position.
pub proof fn lemma_decoding_preserves_headers(raw: Seq<RawHeader>)
    ensures
        decoded_headers(raw).len() == raw.len(),
        forall|i: int|
            0 <= i < raw.len() ==> #[trigger] decoded_headers(raw)[i] == (
                raw[i].name@,
                decode_value(raw[i].value@),
            ),
{
}

/// Turns the raw bytes of one header value into text, provided each byte is
/// valid.
fn decode_value_exec(bytes: &Vec<u8>) -> (r: Result<String, EchoError>)
    ensures
        r is Ok <==> header_value_ok(bytes@),
        r is Ok ==> r->Ok_0@ == decode_value(bytes@),
        r is Err ==> r->Err_0 == EchoError::DecodeError,
{
    let mut out = String::new();
    let n = bytes.len();
    let mut i: usize = 0;
    proof {
        assert(bytes@.take(0) =~= Seq::<u8>::empty());
        assert(decode_value(bytes@.take(0)) =~= Seq::<char>::empty());
    }
    while i < n
        invariant
            n == bytes@.len(),
            i <= n,
            out@ == decode_value(bytes@.take(i as int)),
            forall|j: int| 0 <= j < i ==> value_byte_ok(#[trigger] bytes@[j]),
        decreases n - i,
    {
        let b = bytes[i];
        if !(b == 9 || (32 <= b && b <= 126)) {
            return Err(EchoError::DecodeError);
        }
        push_char(&mut out, b as char);
        proof {
            assert(bytes@.take(i + 1) =~= bytes@.take(i as int).push(bytes@[i as int]));
            assert(decode_value(bytes@.take(i + 1)) =~= decode_value(bytes@.take(i as int)).push(
                bytes@[i as int] as char,
            ));
        }
        i += 1;
    }
    proof {
        assert(bytes@.take(n as int) =~= bytes@);
    }
    Ok(out)
}

/// Builds the request view from the transport's plain values: the method
/// token and target as received, and the headers in arrival order. Fails
/// with `DecodeError` — and only then — when some header value is not valid
/// text.
pub fn decode_request(method: String, uri: String, raw: Vec<RawHeader>) -> (r: Result<
    RequestView,
    EchoError,
>)
    ensures
        r is Ok <==> raw_headers_ok(raw@),
        r is Ok ==> r->Ok_0.method@ == method@,
        r is Ok ==> r->Ok_0.uri@ == uri@,
        r is Ok ==> r->Ok_0.headers_model() == decoded_headers(raw@),
        r is Ok ==> r->Ok_0.headers@.len() == raw@.len(),
        r is Err ==> r->Err_0 == EchoError::DecodeError,
{
    let mut headers: Vec<HeaderEntry> = Vec::new();
    let n = raw.len();
    let mut i: usize = 0;
    proof {
        assert(headers_model(headers@) =~= decoded_headers(raw@.take(0)));
    }
    while i < n
        invariant
            n == raw@.len(),
            i <= n,
            headers@.len() == i,
            headers_model(headers@) == decoded_headers(raw@.take(i as int)),
            forall|j: int| 0 <= j < i ==> header_value_ok(#[trigger] raw@[j].value@),
        decreases n - i,
    {
        let value = match decode_value_exec(&raw[i].value) {
            Ok(v) => v,
            Err(e) => {
                return Err(e);
            },
        };
        let name = clone_string(&raw[i].name);
        headers.push(HeaderEntry { name, value });
        proof {
            assert(raw@.take(i + 1) =~= raw@.take(i as int).push(raw@[i as int]));
            assert(decoded_headers(raw@.take(i + 1)) =~= decoded_headers(
                raw@.take(i as int),
            ).push((raw@[i as int].name@, decode_value(raw@[i as int].value@))));
            assert(headers_model(headers@) =~= decoded_headers(raw@.take(i + 1)));
        }
        i += 1;
    }
    proof {
        assert(raw@.take(n as int) =~= raw@);
    }
    Ok(RequestView { method, uri, headers })
}

/// A copy of a string with the same characters.
fn clone_string(s: &String) -> (r: String)
    ensures
        r@ == s@,
{
    s.clone()
}

} // verus!
