//! The response encoder. Each route selects one `EchoResponse` variant, and
//! the encoder lays it out as a JSON object with exactly the keys of that
//! variant — none omitted, renamed or reordered — and the captured values as
//! strings, headers as an array of `[name, value]` pairs in receipt order.
//! Encoding always succeeds: every captured value is already text.

use vstd::prelude::*;
use vstd::string::StringExecFns;
use crate::json::{
    append_header_json, append_quoted, escape_seq, headers_items, headers_json,
    lemma_headers_items_push, quoted,
};
use crate::request::{headers_model, HeaderEntry};
use crate::text::push_char;

verus! {

/// What a route echoes back: the request's metadata, its body, or both.
#[derive(Debug)]
pub enum EchoResponse {
    Metadata { method: String, uri: String, headers: Vec<HeaderEntry> },
    BodyOnly { body: String },
    Full { method: String, uri: String, headers: Vec<HeaderEntry>, body: String },
}

/// The JSON key of the method field, with its separating colon.
pub open spec fn key_method() -> Seq<char> {
    "\"method\":"@
}

/// The JSON key of the uri field, with its separating colon.
pub open spec fn key_uri() -> Seq<char> {
    "\"uri\":"@
}

/// The JSON key of the headers field, with its separating colon.
pub open spec fn key_headers() -> Seq<char> {
    "\"headers\":"@
}

/// The JSON key of the body field, with its separating colon.
pub open spec fn key_body() -> Seq<char> {
    "\"body\":"@
}

/// The three metadata fields, in their fixed order.
pub open spec fn meta_fields(m: Seq<char>, u: Seq<char>, hs: Seq<(Seq<char>, Seq<char>)>) -> Seq<
    char,
> {
    key_method() + quoted(m) + seq![','] + key_uri() + quoted(u) + seq![','] + key_headers()
        + headers_json(hs)
}

/// The body field.
pub open spec fn body_field(b: Seq<char>) -> Seq<char> {
    key_body() + quoted(b)
}

/// The metadata-only response document.
pub open spec fn encode_metadata(m: Seq<char>, u: Seq<char>, hs: Seq<(Seq<char>, Seq<char>)>) -> Seq<
    char,
> {
    seq!['{'] + meta_fields(m, u, hs) + seq!['}']
}

/// The body-only response document.
pub open spec fn encode_body_only(b: Seq<char>) -> Seq<char> {
    seq!['{'] + body_field(b) + seq!['}']
}

/// The full response document: the metadata fields followed by the body
/// field.
pub open spec fn encode_full(
    m: Seq<char>,
    u: Seq<char>,
    hs: Seq<(Seq<char>, Seq<char>)>,
    b: Seq<char>,
) -> Seq<char> {
    seq!['{'] + meta_fields(m, u, hs) + seq![','] + body_field(b) + seq!['}']
}

/// The document each response variant encodes to.
pub open spec fn encode_response_spec(r: EchoResponse) -> Seq<char> {
    match r {
        EchoResponse::Metadata { method, uri, headers } => encode_metadata(
            method@,
            uri@,
            headers_model(headers@),
        ),
        EchoResponse::BodyOnly { body } => encode_body_only(body@),
        EchoResponse::Full { method, uri, headers, body } => encode_full(
            method@,
            uri@,
            headers_model(headers@),
            body@,
        ),
    }
}

/// The full document is the union of the metadata document and the body
/// document: everything before the closing brace of the first, a comma, and
/// everything after the opening brace of the second.
pub proof fn lemma_full_is_union(
    m: Seq<char>,
    u: Seq<char>,
    hs: Seq<(Seq<char>, Seq<char>)>,
    b: Seq<char>,
)
    ensures
        encode_full(m, u, hs, b) == encode_metadata(m, u, hs).drop_last() + seq![',']
            + encode_body_only(b).drop_first(),
{
    assert(encode_metadata(m, u, hs).drop_last() =~= seq!['{'] + meta_fields(m, u, hs));
    assert(encode_body_only(b).drop_first() =~= body_field(b) + seq!['}']);
    assert(encode_full(m, u, hs, b) =~= (seq!['{'] + meta_fields(m, u, hs)) + seq![','] + (
    body_field(b) + seq!['}']));
}

/// An empty body is still present in the document, as the empty string —
/// never absent and never null.
pub proof fn lemma_empty_body_encoding()
    ensures
        encode_body_only(Seq::<char>::empty()) == seq![
            '{', '"', 'b', 'o', 'd', 'y', '"', ':', '"', '"', '}',
        ],
{
    reveal_strlit("\"body\":");
    assert(escape_seq(Seq::<char>::empty()) == Seq::<char>::empty());
    assert(encode_body_only(Seq::<char>::empty()) =~= seq![
        '{', '"', 'b', 'o', 'd', 'y', '"', ':', '"', '"', '}',
    ]);
}

/// Appends the headers array, entries in stored order.
fn append_headers(out: &mut String, headers: &Vec<HeaderEntry>)
    ensures
        final(out)@ == old(out)@ + headers_json(headers_model(headers@)),
{
    let ghost hm = headers_model(headers@);
    push_char(out, '[');
    let n = headers.len();
    let mut i: usize = 0;
    proof {
        assert(hm.take(0) =~= Seq::<(Seq<char>, Seq<char>)>::empty());
        assert(out@ =~= old(out)@ + seq!['['] + headers_items(hm.take(0)));
    }
    while i < n
        invariant
            n == headers@.len(),
            hm == headers_model(headers@),
            i <= n,
            out@ == old(out)@ + seq!['['] + headers_items(hm.take(i as int)),
        decreases n - i,
    {
        if i > 0 {
            push_char(out, ',');
        }
        append_header_json(out, headers[i].name.as_str(), headers[i].value.as_str());
        proof {
            assert(hm.take(i + 1) =~= hm.take(i as int).push(hm[i as int]));
            assert(hm[i as int] == (headers@[i as int].name@, headers@[i as int].value@));
            lemma_headers_items_push(hm.take(i as int), hm[i as int].0, hm[i as int].1);
            assert(out@ =~= old(out)@ + seq!['['] + headers_items(hm.take(i + 1)));
        }
        i += 1;
    }
    push_char(out, ']');
    proof {
        assert(hm.take(n as int) =~= hm);
        assert(out@ =~= old(out)@ + headers_json(hm));
    }
}

/// Appends the three metadata fields.
fn append_meta_fields(out: &mut String, method: &str, uri: &str, headers: &Vec<HeaderEntry>)
    ensures
        final(out)@ == old(out)@ + meta_fields(method@, uri@, headers_model(headers@)),
{
    out.append("\"method\":");
    append_quoted(out, method);
    push_char(out, ',');
    out.append("\"uri\":");
    append_quoted(out, uri);
    push_char(out, ',');
    out.append("\"headers\":");
    append_headers(out, headers);
    proof {
        assert(out@ =~= old(out)@ + meta_fields(method@, uri@, headers_model(headers@)));
    }
}

/// Appends the body field.
fn append_body_field(out: &mut String, body: &str)
    ensures
        final(out)@ == old(out)@ + body_field(body@),
{
    out.append("\"body\":");
    append_quoted(out, body);
    proof {
        assert(out@ =~= old(out)@ + body_field(body@));
    }
}

/// Encodes a response as its JSON document. This never fails: the document
/// of every variant is defined for all captured values.
pub fn encode_response(r: &EchoResponse) -> (out: String)
    ensures
        out@ == encode_response_spec(*r),
{
    let mut out = String::new();
    push_char(&mut out, '{');
    match r {
        EchoResponse::Metadata { method, uri, headers } => {
            append_meta_fields(&mut out, method.as_str(), uri.as_str(), headers);
        },
        EchoResponse::BodyOnly { body } => {
            append_body_field(&mut out, body.as_str());
        },
        EchoResponse::Full { method, uri, headers, body } => {
            append_meta_fields(&mut out, method.as_str(), uri.as_str(), headers);
            push_char(&mut out, ',');
            append_body_field(&mut out, body.as_str());
        },
    }
    push_char(&mut out, '}');
    proof {
        assert(out@ =~= encode_response_spec(*r));
    }
    out
}

} // verus!
