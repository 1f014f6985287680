//! Frame codec: the shared framing convention of both loops.
//!
//! A datagram lands in a fixed-capacity buffer that was zero-filled
//! beforehand, so the unwritten tail of the buffer keeps the fill pattern.
//! The logical payload is recovered by stripping every trailing fill byte
//! and decoding the rest as UTF-8 (invalid sequences replaced).  There is
//! no length field on the wire: the trimming convention alone separates
//! payload from unused capacity, which makes the decode lossy whenever the
//! payload itself ends with fill bytes (see `lemma_strip_fill_lossy`).
//!
//! The trim works on bytes, before the UTF-8 decode.  Trimming trailing
//! fill characters off the decoded text instead would give the same body:
//! the fill byte is a complete one-byte UTF-8 sequence that can be part of
//! no other sequence, and neither a decoded character nor the replacement
//! character comes out as the fill character from any other input.

use vstd::prelude::*;

verus! {

/// Capacity of every datagram buffer, in bytes.
pub const BUFFER_CAPACITY: usize = 2048;

/// The fill pattern: receive buffers are pre-initialized with this byte,
/// and a trailing run of it is stripped during decode.
pub const FILL_BYTE: u8 = 0;

/// The given byte sequence with every trailing fill byte removed.
pub open spec fn strip_fill(s: Seq<u8>) -> Seq<u8>
    decreases s.len(),
{
    if s.len() == 0 {
        s
    } else if s.last() == FILL_BYTE {
        strip_fill(s.drop_last())
    } else {
        s
    }
}

/// Stripping trailing fill keeps a prefix of the sequence unchanged.
pub proof fn lemma_strip_fill_prefix(s: Seq<u8>)
    ensures
        strip_fill(s).len() <= s.len(),
        strip_fill(s) == s.subrange(0, strip_fill(s).len() as int),
    decreases s.len(),
{
    if s.len() == 0 {
    } else if s.last() == FILL_BYTE {
        lemma_strip_fill_prefix(s.drop_last());
        assert(s.drop_last() =~= s.subrange(0, s.len() - 1));
        assert(strip_fill(s) =~= s.subrange(0, strip_fill(s).len() as int));
    } else {
        assert(strip_fill(s) =~= s.subrange(0, strip_fill(s).len() as int));
    }
}

/// A sequence that does not end with the fill byte is left untouched:
/// a buffer saturated up to its very last byte loses nothing in decode.
pub proof fn lemma_strip_fill_identity(s: Seq<u8>)
    requires
        s.len() == 0 || s.last() != FILL_BYTE,
    ensures
        strip_fill(s) == s,
{
}

/// Round trip: a payload with no fill byte, landed at the front of a
/// zero-filled buffer, is recovered exactly by the trimming step.
pub proof fn lemma_strip_fill_round_trip(payload: Seq<u8>, pad: Seq<u8>)
    requires
        payload.len() + pad.len() <= BUFFER_CAPACITY,
        forall|i: int| 0 <= i < payload.len() ==> payload[i] != FILL_BYTE,
        forall|i: int| 0 <= i < pad.len() ==> pad[i] == FILL_BYTE,
    ensures
        strip_fill(payload + pad) == payload,
    decreases pad.len(),
{
    if pad.len() == 0 {
        assert(payload + pad =~= payload);
        if payload.len() > 0 {
            assert(payload.last() != FILL_BYTE);
        }
        lemma_strip_fill_identity(payload);
    } else {
        assert((payload + pad).last() == FILL_BYTE);
        assert((payload + pad).drop_last() =~= payload + pad.drop_last());
        lemma_strip_fill_round_trip(payload, pad.drop_last());
    }
}

/// The trimming convention is lossy, hence not injective: fill bytes at
/// the end of the payload itself are stripped along with the padding, so
/// such a payload decodes to the same body as the payload without them.
/// This is an accepted framing ambiguity, not a defect.
pub proof fn lemma_strip_fill_lossy(payload: Seq<u8>)
    ensures
        strip_fill(payload.push(FILL_BYTE)) == strip_fill(payload),
        payload.len() > 0 && payload.last() == FILL_BYTE ==> strip_fill(payload) != payload,
{
    assert(payload.push(FILL_BYTE).drop_last() =~= payload);
    if payload.len() > 0 && payload.last() == FILL_BYTE {
        lemma_strip_fill_prefix(payload.drop_last());
        assert(strip_fill(payload).len() < payload.len());
    }
}

/// Length of the payload once every trailing fill byte is stripped.
pub fn payload_len(buf: &[u8]) -> (n: usize)
    ensures
        n == strip_fill(buf@).len(),
{
    let mut n: usize = buf.len();
    proof {
        assert(buf@.subrange(0, n as int) =~= buf@);
    }
    while n > 0 && buf[n - 1] == FILL_BYTE
        invariant
            n <= buf@.len(),
            strip_fill(buf@) == strip_fill(buf@.subrange(0, n as int)),
        decreases n,
    {
        proof {
            assert(buf@.subrange(0, n as int).drop_last() =~= buf@.subrange(0, n - 1));
        }
        n = n - 1;
    }
    proof {
        assert(strip_fill(buf@.subrange(0, n as int)) =~= buf@.subrange(0, n as int));
    }
    n
}

/// The buffer's bytes with every trailing fill byte removed.
pub fn strip_trailing_fill(buf: &[u8]) -> (out: Vec<u8>)
    ensures
        out@ == strip_fill(buf@),
{
    let n = payload_len(buf);
    proof {
        lemma_strip_fill_prefix(buf@);
    }
    let mut out: Vec<u8> = Vec::new();
    let mut i: usize = 0;
    while i < n
        invariant
            n == strip_fill(buf@).len(),
            strip_fill(buf@) == buf@.subrange(0, n as int),
            n <= buf@.len(),
            i <= n,
            out@.len() == i,
            forall|j: int| 0 <= j < i ==> out@[j] == buf@[j],
        decreases n - i,
    {
        out.push(buf[i]);
        i += 1;
    }
    proof {
        assert(out@ =~= strip_fill(buf@));
    }
    out
}

/// What `String::from_utf8_lossy` returns for an arbitrary byte sequence:
/// the bytes decoded as UTF-8, with invalid sequences replaced.  Left
/// uninterpreted in general; on valid UTF-8 the wrapper below pins it to
/// `vstd::utf8::decode_utf8`.
pub uninterp spec fn lossy_decoded(bytes: Seq<u8>) -> Seq<char>;

/// Relies on `alloc::string::String::from_utf8_lossy`: decodes the bytes
/// as UTF-8, substituting U+FFFD for invalid sequences; when the bytes are
/// valid UTF-8, the result is exactly the string they encode.
#[verifier::external_body]
fn utf8_lossy(bytes: &[u8]) -> (s: String)
    ensures
        s@ == lossy_decoded(bytes@),
        vstd::utf8::valid_utf8(bytes@) ==> s@ == vstd::utf8::decode_utf8(bytes@),
{
    String::from_utf8_lossy(bytes).into_owned()
}

/// Decode a receive buffer into the logical message body: strip every
/// trailing fill byte, then decode the remaining payload as UTF-8 with
/// lossy replacement.
pub fn decode_datagram(buf: &[u8]) -> (s: String)
    ensures
        s@ == lossy_decoded(strip_fill(buf@)),
        vstd::utf8::valid_utf8(strip_fill(buf@)) ==> s@ == vstd::utf8::decode_utf8(
            strip_fill(buf@),
        ),
{
    let trimmed = strip_trailing_fill(buf);
    utf8_lossy(trimmed.as_slice())
}

} // verus!
