//! Little-endian wire layout for snapshot payloads and stream frames.
//!
//! A payload is the concatenation of 4-byte little-endian field words in
//! entity order; a frame prefixes a payload with an 8-byte timestamp and a
//! 4-byte entity count. Encoding is lossless and stateless, and decoding
//! is its exact byte-reverse; a trailing partial word is a framing error.

use vstd::prelude::*;
use vstd::bytes::*;
use vstd::slice::slice_subrange;

use crate::errors::SimError;

verus! {

/// The bytes of `ws` laid out word after word, each word little-endian.
pub open spec fn payload_of_words(ws: Seq<u32>) -> Seq<u8>
    decreases ws.len(),
{
    if ws.len() == 0 {
        Seq::empty()
    } else {
        payload_of_words(ws.drop_last()) + spec_u32_to_le_bytes(ws.last())
    }
}

/// The words read back out of a payload, 4 bytes at a time.
pub open spec fn words_of_payload(bs: Seq<u8>) -> Seq<u32>
    decreases bs.len(),
{
    if bs.len() < 4 {
        Seq::empty()
    } else {
        words_of_payload(bs.take(bs.len() - 4)).push(
            spec_u32_from_le_bytes(bs.skip(bs.len() - 4)),
        )
    }
}

/// An encoded payload is exactly 4 bytes per word.
pub proof fn lemma_payload_len(ws: Seq<u32>)
    ensures
        payload_of_words(ws).len() == 4 * ws.len(),
    decreases ws.len(),
{
    if ws.len() > 0 {
        lemma_payload_len(ws.drop_last());
        lemma_auto_spec_u32_to_from_le_bytes();
    }
}

/// Round-trip law: decoding an encoded payload gives back exactly the
/// words that were encoded — the encoding is lossless, bit for bit.
pub proof fn lemma_words_roundtrip(ws: Seq<u32>)
    ensures
        words_of_payload(payload_of_words(ws)) == ws,
    decreases ws.len(),
{
    if ws.len() == 0 {
        assert(words_of_payload(payload_of_words(ws)) =~= ws);
    } else {
        let tail = spec_u32_to_le_bytes(ws.last());
        let whole = payload_of_words(ws);
        lemma_payload_len(ws);
        lemma_payload_len(ws.drop_last());
        lemma_auto_spec_u32_to_from_le_bytes();
        assert(whole.take(whole.len() - 4) =~= payload_of_words(ws.drop_last()));
        assert(whole.skip(whole.len() - 4) =~= tail);
        lemma_words_roundtrip(ws.drop_last());
        assert(words_of_payload(whole) =~= ws);
    }
}

/// The reverse direction: re-encoding the words decoded from any
/// well-framed payload reproduces that payload byte for byte, so the
/// decoder is the exact byte-reverse of the encoder.
pub proof fn lemma_payload_roundtrip(bs: Seq<u8>)
    requires
        bs.len() % 4 == 0,
    ensures
        payload_of_words(words_of_payload(bs)) == bs,
    decreases bs.len(),
{
    if bs.len() == 0 {
        assert(payload_of_words(words_of_payload(bs)) =~= bs);
    } else {
        let head = bs.take(bs.len() - 4);
        let tail = bs.skip(bs.len() - 4);
        lemma_auto_spec_u32_to_from_le_bytes();
        lemma_payload_roundtrip(head);
        assert(words_of_payload(bs).drop_last() =~= words_of_payload(head));
        assert(spec_u32_to_le_bytes(spec_u32_from_le_bytes(tail)) == tail);
        assert(payload_of_words(words_of_payload(bs)) =~= bs);
    }
}

/// Encode field words as a contiguous little-endian payload.
pub fn encode_words(ws: &Vec<u32>) -> (data: Vec<u8>)
    ensures
        data@ == payload_of_words(ws@),
        data@.len() == 4 * ws@.len(),
{
    let mut data: Vec<u8> = Vec::new();
    let mut i: usize = 0;
    while i < ws.len()
        invariant
            i <= ws@.len(),
            data@ == payload_of_words(ws@.take(i as int)),
            data@.len() == 4 * i,
        decreases ws@.len() - i,
    {
        let mut word_bytes = u32_to_le_bytes(ws[i]);
        proof {
            let upto = ws@.take(i + 1 as int);
            assert(upto.drop_last() =~= ws@.take(i as int));
            assert(upto.last() == ws@[i as int]);
        }
        data.append(&mut word_bytes);
        i = i + 1;
    }
    proof {
        assert(ws@.take(ws@.len() as int) =~= ws@);
    }
    data
}

/// Decode a payload back into its field words.
///
/// Accepts any payload whose length is a multiple of 4 bytes; a trailing
/// partial word is rejected whole as a framing error, never partially
/// decoded.
pub fn decode_words(data: &Vec<u8>) -> (r: Result<Vec<u32>, SimError>)
    ensures
        (r is Ok) == (data@.len() % 4 == 0),
        r matches Ok(ws) ==> ws@ == words_of_payload(data@) && ws@.len() == data@.len() / 4,
        r matches Err(e) ==> e == SimError::FramingError,
{
    let len: usize = data.len();
    if len % 4 != 0 {
        return Err(SimError::FramingError);
    }
    let n: usize = len / 4;
    assert(4 * n == len as int);
    let mut out: Vec<u32> = Vec::new();
    let mut i: usize = 0;
    while i < n
        invariant
            i <= n,
            len == data@.len(),
            4 * n == len as int,
            out@ == words_of_payload(data@.take(4 * i as int)),
            out@.len() == i,
        decreases n - i,
    {
        assert(4 * i + 4 <= len as int);
        let chunk = slice_subrange(data.as_slice(), 4 * i, 4 * i + 4);
        let w = u32_from_le_bytes(chunk);
        proof {
            let upto = data@.take(4 * (i + 1) as int);
            assert(upto.take(upto.len() - 4) =~= data@.take(4 * i as int));
            assert(upto.skip(upto.len() - 4) =~= data@.subrange(
                4 * i as int,
                4 * i + 4 as int,
            ));
        }
        out.push(w);
        i = i + 1;
    }
    proof {
        assert(data@.take(data@.len() as int) =~= data@);
    }
    Ok(out)
}

/// A stream frame: `[timestamp: u64 le][entity count: u32 le][payload]`.
pub open spec fn spec_frame(timestamp: u64, count: u32, payload: Seq<u8>) -> Seq<u8> {
    spec_u64_to_le_bytes(timestamp) + spec_u32_to_le_bytes(count) + payload
}

/// Build the binary frame sent to one subscriber.
pub fn build_frame(timestamp: u64, count: u32, payload: &Vec<u8>) -> (frame: Vec<u8>)
    ensures
        frame@ == spec_frame(timestamp, count, payload@),
        frame@.len() == 12 + payload@.len(),
{
    proof {
        lemma_auto_spec_u64_to_from_le_bytes();
        lemma_auto_spec_u32_to_from_le_bytes();
    }
    let mut frame = u64_to_le_bytes(timestamp);
    let mut count_bytes = u32_to_le_bytes(count);
    frame.append(&mut count_bytes);
    proof {
        assert(frame@ =~= spec_u64_to_le_bytes(timestamp) + spec_u32_to_le_bytes(count)
            + payload@.take(0));
    }
    let mut i: usize = 0;
    while i < payload.len()
        invariant
            i <= payload@.len(),
            frame@ == spec_u64_to_le_bytes(timestamp) + spec_u32_to_le_bytes(count)
                + payload@.take(i as int),
        decreases payload@.len() - i,
    {
        frame.push(payload[i]);
        proof {
            assert(frame@ =~= spec_u64_to_le_bytes(timestamp) + spec_u32_to_le_bytes(count)
                + payload@.take(i + 1 as int));
        }
        i = i + 1;
    }
    proof {
        assert(payload@.take(payload@.len() as int) =~= payload@);
        lemma_auto_spec_u64_to_from_le_bytes();
        lemma_auto_spec_u32_to_from_le_bytes();
    }
    frame
}

} // verus!
