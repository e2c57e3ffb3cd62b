//! Error taxonomy of the simulation and streaming pipeline.

use vstd::prelude::*;

verus! {

/// Everything that can go wrong across the pipeline.
///
/// A delta requested across differing entity counts is deliberately *not*
/// here: it degrades to a full-state encoding instead of failing (see
/// [`crate::broadcast::DeltaState::encode_delta`]).
#[derive(Clone, Copy, Debug, PartialEq, Eq, Structural)]
pub enum SimError {
    /// A device execution context could not be (re)established on the
    /// calling thread, even after the bounded retry budget was spent.
    ContextUnavailable,
    /// An accelerator step failed to launch or synchronize. Single-step,
    /// non-fatal: the execution loop logs it and continues.
    KernelDispatchFailed,
    /// The broadcast channel (or a subscriber connection) was torn down;
    /// only the affected send loop terminates.
    ChannelClosed,
    /// Malformed input to a decoder or a constructor: a payload with a
    /// trailing partial word, a buffer whose length does not match the
    /// entity count, a count too large for the wire header, or an
    /// unusable rate configuration. Rejected whole; nothing is partially
    /// decoded.
    FramingError,
}

impl SimError {
    /// A short, stable description, usable by callers for logging.
    pub fn describe(&self) -> (r: &'static str)
        ensures
            r@ == self.spec_describe(),
    {
        proof {
            reveal_strlit("device context unavailable");
            reveal_strlit("kernel dispatch failed");
            reveal_strlit("channel closed");
            reveal_strlit("framing error");
        }
        match self {
            SimError::ContextUnavailable => "device context unavailable",
            SimError::KernelDispatchFailed => "kernel dispatch failed",
            SimError::ChannelClosed => "channel closed",
            SimError::FramingError => "framing error",
        }
    }

    /// The description each variant carries.
    pub open spec fn spec_describe(&self) -> Seq<char> {
        match self {
            SimError::ContextUnavailable => "device context unavailable"@,
            SimError::KernelDispatchFailed => "kernel dispatch failed"@,
            SimError::ChannelClosed => "channel closed"@,
            SimError::FramingError => "framing error"@,
        }
    }
}

} // verus!
