// Tests for snapshot encoding, decoding, and delta compression.

use simstream::broadcast::{BroadcastState, DeltaState, Snapshot};
use simstream::errors::SimError;
use simstream::wire::{build_frame, decode_words, encode_words};

fn words_of_floats(values: &[f32]) -> Vec<u32> {
    values.iter().map(|v| v.to_bits()).collect()
}

fn floats_of_words(words: &[u32]) -> Vec<f32> {
    words.iter().map(|w| f32::from_bits(*w)).collect()
}

fn snapshot_of_floats(timestamp: u64, count: usize, values: &[f32]) -> Snapshot {
    Snapshot::new(timestamp, count, words_of_floats(values)).unwrap()
}

#[test]
fn test_broadcast_state_encode_decode() {
    // 10 entities, 4 fields each.
    let values: Vec<f32> = (0..40).map(|i| i as f32 * 0.25 - 3.0).collect();
    let snapshot = snapshot_of_floats(7, 10, &values);

    let encoded = BroadcastState::encode_payload(&snapshot, 0);
    assert_eq!(encoded.num_boids, 10);
    assert_eq!(encoded.data.len(), 10 * 16);

    let decoded = BroadcastState::decode(&encoded.data).unwrap();
    assert_eq!(decoded.len(), 10 * 4);
}

#[test]
fn test_broadcast_state_size() {
    let values: Vec<f32> = vec![1.5f32; 100 * 4];
    let snapshot = snapshot_of_floats(0, 100, &values);
    let encoded = BroadcastState::encode_payload(&snapshot, 0);
    assert_eq!(encoded.size_bytes(), 100 * 16);
}

#[test]
fn test_broadcast_state_timestamp() {
    let values: Vec<f32> = vec![0.5f32; 10 * 4];
    let snapshot = snapshot_of_floats(3, 10, &values);
    let start = std::time::Instant::now();
    let encoded = BroadcastState::encode_payload(&snapshot, 0);
    let cost_ms = start.elapsed().as_millis() as u64;
    assert!(cost_ms < 1000, "Encoding should be fast");
    assert_eq!(encoded.timestamp, 0);
    let restamped = BroadcastState::encode_payload(&snapshot, cost_ms);
    assert_eq!(restamped.timestamp, cost_ms);
}

#[test]
fn test_broadcast_state_roundtrip() {
    // Encoding and decoding preserves the data.
    let original_data: Vec<f32> = (0..40).map(|i| i as f32 * 0.1).collect();

    let mut encoded = Vec::new();
    for val in &original_data {
        encoded.extend_from_slice(&val.to_le_bytes());
    }

    let decoded_words = BroadcastState::decode(&encoded).unwrap();
    let decoded = floats_of_words(&decoded_words);

    assert_eq!(decoded.len(), original_data.len());
    for (orig, dec) in original_data.iter().zip(decoded.iter()) {
        assert!((orig - dec).abs() < 0.0001, "Values should match");
    }
}

#[test]
fn test_roundtrip_bit_exact() {
    // The codec is lossless fixed-width: bit-exact, negative values,
    // zeros and extremes included.
    let values: Vec<f32> = vec![0.0, -0.0, 1.0, -1.5, f32::MAX, f32::MIN_POSITIVE, 3.25e-20];
    let words = words_of_floats(&values);
    let payload = encode_words(&words);
    assert_eq!(payload.len(), 4 * words.len());
    let back = decode_words(&payload).unwrap();
    assert_eq!(back, words);
    for (orig, dec) in values.iter().zip(floats_of_words(&back).iter()) {
        assert_eq!(orig.to_bits(), dec.to_bits());
    }
}

#[test]
fn test_encode_is_little_endian() {
    // 1.0f32 is 0x3F800000: little-endian bytes 00 00 80 3F.
    let words = vec![1.0f32.to_bits()];
    let payload = encode_words(&words);
    assert_eq!(payload, vec![0x00, 0x00, 0x80, 0x3F]);
}

#[test]
fn test_decode_rejects_partial_word() {
    let data = vec![0u8, 1, 2, 3, 4];
    match BroadcastState::decode(&data) {
        Err(SimError::FramingError) => {}
        other => panic!("expected a framing error, got {:?}", other.map(|v| v.len())),
    }
}

#[test]
fn test_snapshot_rejects_wrong_length() {
    match Snapshot::new(0, 3, vec![0u32; 11]) {
        Err(SimError::FramingError) => {}
        _ => panic!("expected a framing error"),
    }
}

#[test]
fn test_delta_state_encode() {
    let older: Vec<f32> = (0..40).map(|i| i as f32 * 0.5).collect();
    let newer: Vec<f32> = (0..40).map(|i| i as f32 * 0.5 + 0.125).collect();
    let state1 = BroadcastState::encode_payload(&snapshot_of_floats(0, 10, &older), 100);
    let state2 = BroadcastState::encode_payload(&snapshot_of_floats(0, 10, &newer), 150);

    let diffs: Vec<u32> = newer
        .iter()
        .zip(older.iter())
        .map(|(c, p)| (c - p).to_bits())
        .collect();
    let delta = DeltaState::encode_delta(&state2, &state1, &diffs).unwrap();
    assert_eq!(delta.num_boids, 10);
    assert_eq!(delta.deltas.len(), state2.data.len());
    assert_eq!(delta.base_timestamp, 100);
    assert_eq!(delta.delta_timestamp, 50);
}

#[test]
fn test_delta_state_different_particle_count() {
    // Delta encoding when the particle count changes.
    let state1 = BroadcastState {
        timestamp: 100,
        num_boids: 10,
        data: vec![0u8; 10 * 16],
    };

    let state2 = BroadcastState {
        timestamp: 200,
        num_boids: 20, // Different count
        data: vec![0u8; 20 * 16],
    };

    let delta = DeltaState::encode_delta(&state2, &state1, &Vec::new()).unwrap();
    // Should fall back to full state when counts differ
    assert_eq!(delta.num_boids, 20);
    assert_eq!(delta.deltas.len(), state2.data.len());
}

#[test]
fn test_delta_reconstructs_newer_state() {
    // Same-count pair: decoded deltas added onto the base fields
    // reconstruct the newer state within floating-point tolerance.
    let older: Vec<f32> = (0..12).map(|i| (i as f32).sin()).collect();
    let newer: Vec<f32> = (0..12).map(|i| (i as f32).sin() + 0.01 * i as f32).collect();
    let base = BroadcastState::encode_payload(&snapshot_of_floats(0, 3, &older), 10);
    let head = BroadcastState::encode_payload(&snapshot_of_floats(0, 3, &newer), 30);

    let diffs: Vec<u32> = newer
        .iter()
        .zip(older.iter())
        .map(|(c, p)| (c - p).to_bits())
        .collect();
    let delta = DeltaState::encode_delta(&head, &base, &diffs).unwrap();
    assert_eq!(delta.delta_timestamp, 20);

    let delta_fields = floats_of_words(&BroadcastState::decode(&delta.deltas).unwrap());
    let base_fields = floats_of_words(&BroadcastState::decode(&base.data).unwrap());
    assert_eq!(delta_fields.len(), newer.len());
    for i in 0..newer.len() {
        let reconstructed = base_fields[i] + delta_fields[i];
        assert!((reconstructed - newer[i]).abs() < 1e-4);
    }
}

#[test]
fn test_delta_full_fallback_matches_encoding() {
    // Differing counts: the delta payload equals the newer state's own
    // encoding, byte for byte.
    let older: Vec<f32> = vec![1.0; 8];
    let newer: Vec<f32> = (0..16).map(|i| i as f32 * 0.75).collect();
    let base = BroadcastState::encode_payload(&snapshot_of_floats(0, 2, &older), 5);
    let head = BroadcastState::encode_payload(&snapshot_of_floats(0, 4, &newer), 9);

    let delta = DeltaState::encode_delta(&head, &base, &Vec::new()).unwrap();
    assert_eq!(delta.deltas, head.data);
    assert_eq!(delta.base_timestamp, head.timestamp);
    assert_eq!(delta.delta_timestamp, 0);
}

#[test]
fn test_delta_timestamp_saturates() {
    // A base broadcast stamped later than the newer one yields a zero
    // interval, never an underflow.
    let fields: Vec<f32> = vec![1.0; 4];
    let newer = BroadcastState::encode_payload(&snapshot_of_floats(0, 1, &fields), 5);
    let older = BroadcastState::encode_payload(&snapshot_of_floats(0, 1, &fields), 10);
    let delta = DeltaState::encode_delta(&newer, &older, &vec![0u32; 4]).unwrap();
    assert_eq!(delta.delta_timestamp, 0);
    assert_eq!(delta.base_timestamp, 10);
}

#[test]
fn test_delta_rejects_missized_diffs() {
    let fields: Vec<f32> = vec![2.0; 8];
    let a = BroadcastState::encode_payload(&snapshot_of_floats(0, 2, &fields), 0);
    let b = BroadcastState::encode_payload(&snapshot_of_floats(0, 2, &fields), 0);
    match DeltaState::encode_delta(&a, &b, &vec![0u32; 3]) {
        Err(SimError::FramingError) => {}
        _ => panic!("expected a framing error"),
    }
}

#[test]
fn test_frame_layout() {
    let payload: Vec<u8> = vec![0xAA, 0xBB, 0xCC, 0xDD];
    let frame = build_frame(0x0102030405060708, 0x00000009, &payload);
    assert_eq!(frame.len(), 12 + 4);
    assert_eq!(&frame[0..8], &[0x08, 0x07, 0x06, 0x05, 0x04, 0x03, 0x02, 0x01]);
    assert_eq!(&frame[8..12], &[0x09, 0x00, 0x00, 0x00]);
    assert_eq!(&frame[12..], &payload[..]);
}
