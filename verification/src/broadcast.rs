//! Snapshot encoding and delta compression for state broadcasting.
//!
//! A [`Snapshot`] is an immutable copy of the simulation state: a
//! timestamp, the entity count, and the interleaved field words. A
//! [`BroadcastState`] is its compact binary form, ready to fan out to
//! subscribers; a [`DeltaState`] carries per-field differences between two
//! same-count broadcasts, or degrades to the full newer encoding when the
//! entity counts differ.

use vstd::prelude::*;

use crate::errors::SimError;
use crate::wire::{decode_words, encode_words, payload_of_words, words_of_payload};
use crate::FIELDS_PER_ENTITY;

verus! {

/// An immutable, timestamped copy of the full simulation state.
///
/// `words` holds the interleaved field values (`x, y, vx, vy` per entity)
/// as raw 32-bit words; once produced a snapshot never mutates, so any
/// number of subscribers may consume it concurrently.
#[derive(Clone)]
pub struct Snapshot {
    /// When the snapshot was taken (strictly comparable integer clock).
    pub timestamp: u64,
    /// Number of entities; fixed for the lifetime of the model.
    pub count: usize,
    /// Interleaved field words, `FIELDS_PER_ENTITY` per entity.
    pub words: Vec<u32>,
}

impl Snapshot {
    /// A snapshot carries exactly `FIELDS_PER_ENTITY` words per entity.
    pub open spec fn wf(&self) -> bool {
        self.words@.len() == self.count * FIELDS_PER_ENTITY
    }

    /// Assemble a snapshot, rejecting a word buffer whose length does not
    /// match the entity count.
    pub fn new(timestamp: u64, count: usize, words: Vec<u32>) -> (r: Result<Snapshot, SimError>)
        ensures
            (r is Ok) == (words@.len() == count * FIELDS_PER_ENTITY),
            r matches Ok(s) ==> s.timestamp == timestamp && s.count == count && s.words@ == words@
                && s.wf(),
            r matches Err(e) ==> e == SimError::FramingError,
    {
        if words.len() % FIELDS_PER_ENTITY == 0 && words.len() / FIELDS_PER_ENTITY == count {
            Ok(Snapshot { timestamp, count, words })
        } else {
            Err(SimError::FramingError)
        }
    }
}

/// One snapshot in wire form: the payload bytes plus the metadata a
/// subscriber frame needs.
#[derive(Clone)]
pub struct BroadcastState {
    /// Cost of producing this encoding, in milliseconds, as measured by
    /// the caller. This measures encode latency, not simulation time.
    pub timestamp: u64,
    /// Number of entities encoded in `data`.
    pub num_boids: usize,
    /// Little-endian payload: 4 bytes per field, `FIELDS_PER_ENTITY`
    /// fields per entity, in entity order.
    pub data: Vec<u8>,
}

impl BroadcastState {
    /// Encode a snapshot's field words as a compact binary payload.
    ///
    /// `encode_cost_ms` is the wall-clock cost of the encoding, measured
    /// by the caller around this call; it becomes the broadcast's
    /// `timestamp` field.
    pub fn encode_payload(snapshot: &Snapshot, encode_cost_ms: u64) -> (state: BroadcastState)
        ensures
            state.timestamp == encode_cost_ms,
            state.num_boids == snapshot.count,
            state.data@ == payload_of_words(snapshot.words@),
            state.data@.len() == 4 * snapshot.words@.len(),
    {
        let data = encode_words(&snapshot.words);
        BroadcastState { timestamp: encode_cost_ms, num_boids: snapshot.count, data }
    }

    /// Decode a payload back into field words: the exact byte-reverse of
    /// [`BroadcastState::encode_payload`]. A payload with a trailing
    /// partial word is a framing error.
    pub fn decode(data: &Vec<u8>) -> (r: Result<Vec<u32>, SimError>)
        ensures
            (r is Ok) == (data@.len() % 4 == 0),
            r matches Ok(ws) ==> ws@ == words_of_payload(data@) && ws@.len() == data@.len() / 4,
            r matches Err(e) ==> e == SimError::FramingError,
    {
        decode_words(data)
    }

    /// Size of the encoded payload in bytes.
    pub fn size_bytes(&self) -> (n: usize)
        ensures
            n == self.data@.len(),
    {
        self.data.len()
    }
}

/// Per-field differences between two same-count broadcasts, or — after a
/// topology change — the full newer encoding.
#[derive(Clone)]
pub struct DeltaState {
    /// Timestamp of the broadcast the differences are relative to; the
    /// newer broadcast's own timestamp when no base applies.
    pub base_timestamp: u64,
    /// Time elapsed between the two broadcasts; `0` marks a delta that
    /// degraded to a full-state encoding.
    pub delta_timestamp: u64,
    /// Number of entities covered.
    pub num_boids: usize,
    /// Packed difference words, laid out exactly like a full payload.
    pub deltas: Vec<u8>,
}

impl DeltaState {
    /// Build the delta between `current` and `previous`.
    ///
    /// The per-field differences (`current − previous`, one word per
    /// field value) are computed by the numeric layer and handed in as
    /// `field_diffs`; this function owns everything structural. If the
    /// entity counts differ, no compression is attempted across the
    /// topology change: the delta carries `current`'s full payload
    /// verbatim, and `field_diffs` is ignored. That degradation is not an
    /// error to the caller. A `field_diffs` that does not cover
    /// `current`'s payload word for word is rejected.
    pub fn encode_delta(
        current: &BroadcastState,
        previous: &BroadcastState,
        field_diffs: &Vec<u32>,
    ) -> (r: Result<DeltaState, SimError>)
        ensures
            (r is Ok) == (current.num_boids != previous.num_boids || 4 * field_diffs@.len()
                == current.data@.len()),
            r matches Ok(d) ==> {
                &&& d.num_boids == current.num_boids
                &&& if current.num_boids != previous.num_boids {
                    &&& d.base_timestamp == current.timestamp
                    &&& d.delta_timestamp == 0
                    &&& d.deltas@ == current.data@
                } else {
                    &&& d.base_timestamp == previous.timestamp
                    &&& d.delta_timestamp == if current.timestamp >= previous.timestamp {
                        (current.timestamp - previous.timestamp) as u64
                    } else {
                        0u64
                    }
                    &&& d.deltas@ == payload_of_words(field_diffs@)
                }
            },
            r matches Err(e) ==> e == SimError::FramingError,
    {
        if current.num_boids != previous.num_boids {
            // A count change means a new model topology: fall back to the
            // full newer state rather than compress across it.
            let full = copy_bytes(&current.data);
            return Ok(DeltaState {
                base_timestamp: current.timestamp,
                delta_timestamp: 0,
                num_boids: current.num_boids,
                deltas: full,
            });
        }
        if !(current.data.len() % 4 == 0 && current.data.len() / 4 == field_diffs.len()) {
            return Err(SimError::FramingError);
        }
        let deltas = encode_words(field_diffs);
        Ok(DeltaState {
            base_timestamp: previous.timestamp,
            delta_timestamp: current.timestamp.saturating_sub(previous.timestamp),
            num_boids: current.num_boids,
            deltas,
        })
    }
}

/// An owned copy of a byte buffer.
fn copy_bytes(src: &Vec<u8>) -> (r: Vec<u8>)
    ensures
        r@ == src@,
{
    let mut r: Vec<u8> = Vec::new();
    let mut i: usize = 0;
    while i < src.len()
        invariant
            i <= src@.len(),
            r@ == src@.take(i as int),
        decreases src@.len() - i,
    {
        r.push(src[i]);
        proof {
            assert(r@ =~= src@.take(i + 1 as int));
        }
        i = i + 1;
    }
    proof {
        assert(src@.take(src@.len() as int) =~= src@);
    }
    r
}

} // verus!
