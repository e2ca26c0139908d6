//! The body capturer. A request body may arrive in any number of discrete
//! chunks; the capturer accumulates every chunk into one buffer until the
//! stream ends, enforcing a configurable size limit, and finally turns the
//! bytes into text by lossy decoding, which never fails.

use vstd::prelude::*;
use vstd::seq_lib::lemma_flatten_concat;
use vstd::utf8::{
    decode_utf8, encode_utf8, encode_utf8_decode_utf8, encode_utf8_valid_utf8, valid_utf8,
};
use crate::error::EchoError;

verus! {

/// The text a body's bytes decode to. Where the bytes are valid text the
/// decoding is exact; invalid byte sequences are replaced, never rejected.
pub uninterp spec fn lossy_decode(bytes: Seq<u8>) -> Seq<char>;

/// Relies on `String::from_utf8_lossy`: the result depends on the bytes
/// alone, and a valid byte sequence decodes to exactly its characters —
/// invalid sequences are substituted instead of failing.
#[verifier::external_body]
fn utf8_lossy(bytes: &Vec<u8>) -> (r: String)
    ensures
        r@ == lossy_decode(bytes@),
        valid_utf8(bytes@) ==> r@ == decode_utf8(bytes@),
{
    String::from_utf8_lossy(bytes.as_slice()).into_owned()
}

/// A fully captured body, as text.
#[derive(Debug)]
pub struct BodyCapture {
    pub text: String,
}

/// Accumulates the chunks of one request body, up to a configured limit.
pub struct BodyCapturer {
    buf: Vec<u8>,
    limit: usize,
}

/// The concatenation of a sequence of body chunks: the byte sequence the
/// client sent.
pub open spec fn chunks_bytes(chunks: Seq<Vec<u8>>) -> Seq<u8> {
    chunks.map_values(|c: Vec<u8>| c@).flatten()
}

impl BodyCapturer {
    /// The bytes accumulated so far.
    pub closed spec fn bytes(&self) -> Seq<u8> {
        self.buf@
    }

    /// The configured capture limit.
    pub closed spec fn limit(&self) -> usize {
        self.limit
    }

    /// An empty capturer that will accept up to `limit` bytes.
    pub fn new(limit: usize) -> (r: Self)
        ensures
            r.bytes() == Seq::<u8>::empty(),
            r.limit() == limit,
    {
        Self { buf: Vec::new(), limit }
    }

    /// Appends one delivered chunk to the buffer. Every byte of every chunk
    /// is kept, in arrival order; a chunk that would push the total past the
    /// limit is refused with `BodyTooLarge` and leaves the capturer
    /// unchanged.
    pub fn push_chunk(&mut self, chunk: &[u8]) -> (r: Result<(), EchoError>)
        ensures
            final(self).limit() == old(self).limit(),
            r is Ok <==> old(self).bytes().len() + chunk@.len() <= old(self).limit(),
            r is Ok ==> final(self).bytes() == old(self).bytes() + chunk@,
            r is Err ==> r->Err_0 == EchoError::BodyTooLarge && final(self).bytes() == old(
                self,
            ).bytes(),
    {
        if self.buf.len() > self.limit || chunk.len() > self.limit - self.buf.len() {
            return Err(EchoError::BodyTooLarge);
        }
        self.buf.extend_from_slice(chunk);
        proof {
            assert(self.buf@ =~= old(self).bytes() + chunk@);
        }
        Ok(())
    }

    /// Ends the capture and decodes the accumulated bytes as text, lossily:
    /// this never fails, whatever bytes the client sent.
    pub fn finish(self) -> (r: BodyCapture)
        ensures
            r.text@ == lossy_decode(self.bytes()),
            valid_utf8(self.bytes()) ==> r.text@ == decode_utf8(self.bytes()),
    {
        BodyCapture { text: utf8_lossy(&self.buf) }
    }
}

/// Captures a body delivered as a sequence of chunks: every chunk is
/// accumulated, so a body split across many reads is never truncated. The
/// capture succeeds exactly when the whole body fits under `limit`, and the
/// text is the lossy decoding of all the chunks' bytes in order.
pub fn capture_chunks(chunks: &Vec<Vec<u8>>, limit: usize) -> (r: Result<BodyCapture, EchoError>)
    ensures
        r is Ok <==> chunks_bytes(chunks@).len() <= limit,
        r is Ok ==> r->Ok_0.text@ == lossy_decode(chunks_bytes(chunks@)),
        r is Ok ==> (valid_utf8(chunks_bytes(chunks@)) ==> r->Ok_0.text@ == decode_utf8(
            chunks_bytes(chunks@),
        )),
        r is Err ==> r->Err_0 == EchoError::BodyTooLarge,
{
    let mut cap = BodyCapturer::new(limit);
    let n = chunks.len();
    let mut i: usize = 0;
    proof {
        assert(chunks@.take(0).map_values(|c: Vec<u8>| c@) =~= Seq::<Seq<u8>>::empty());
        assert(chunks_bytes(chunks@.take(0)) =~= Seq::<u8>::empty());
    }
    while i < n
        invariant
            n == chunks@.len(),
            i <= n,
            cap.limit() == limit,
            cap.bytes() == chunks_bytes(chunks@.take(i as int)),
            cap.bytes().len() <= limit,
        decreases n - i,
    {
        let ghost prefix = chunks@.take(i as int).map_values(|c: Vec<u8>| c@);
        match cap.push_chunk(chunks[i].as_slice()) {
            Ok(()) => {},
            Err(e) => {
                proof {
                    lemma_chunk_prefix_bound(chunks@, i as int);
                }
                return Err(e);
            },
        }
        proof {
            assert(chunks@.take(i + 1).map_values(|c: Vec<u8>| c@) =~= prefix.push(
                chunks@[i as int]@,
            ));
            prefix.lemma_flatten_push(chunks@[i as int]@);
        }
        i += 1;
    }
    proof {
        assert(chunks@.take(n as int) =~= chunks@);
    }
    Ok(cap.finish())
}

/// A body that is itself the encoding of some text round-trips exactly:
/// its bytes are valid, so by the capturer's contract the captured text is
/// the decoding of those bytes: the same text again.
pub proof fn lemma_valid_body_round_trip(s: Seq<char>)
    ensures
        valid_utf8(encode_utf8(s)),
        decode_utf8(encode_utf8(s)) == s,
{
    encode_utf8_valid_utf8(s);
    encode_utf8_decode_utf8(s);
}

/// The whole body is at least as long as any prefix of its chunks plus the
/// next chunk.
proof fn lemma_chunk_prefix_bound(chunks: Seq<Vec<u8>>, i: int)
    requires
        0 <= i < chunks.len(),
    ensures
        chunks_bytes(chunks).len() >= chunks_bytes(chunks.take(i)).len() + chunks[i]@.len(),
{
    let mapped = chunks.map_values(|c: Vec<u8>| c@);
    let front = chunks.take(i + 1).map_values(|c: Vec<u8>| c@);
    let back = chunks.skip(i + 1).map_values(|c: Vec<u8>| c@);
    assert(mapped =~= front + back);
    lemma_flatten_concat(front, back);
    let prefix = chunks.take(i).map_values(|c: Vec<u8>| c@);
    assert(front =~= prefix.push(chunks[i]@));
    prefix.lemma_flatten_push(chunks[i]@);
}

} // verus!
