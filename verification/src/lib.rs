//! Simulation engine and state-distribution pipeline.
//!
//! A continuously stepping particle simulation keeps its state in two
//! memory layouts (interleaved for host algorithms and the wire encoder,
//! columnar for batched accelerator kernels), advances at an adaptive
//! rate, and streams snapshots of its state to subscribers as compact
//! little-endian frames.
//!
//! Field values travel through this crate as raw 32-bit words (the bit
//! patterns of the single-precision values the numeric layer works on),
//! so every structural guarantee — layout coherence, encoding, framing,
//! rate control, lifecycle — is proved bit-exactly, while the numeric
//! kernels themselves remain external collaborators.

use vstd::prelude::*;

pub mod broadcast;
pub mod context;
pub mod engine;
pub mod errors;
pub mod model;
pub mod rate;
pub mod stream;
pub mod wire;

verus! {

/// Number of encoded fields per entity: x, y, vx, vy.
pub const FIELDS_PER_ENTITY: usize = 4;

} // verus!
