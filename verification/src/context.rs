//! Retry policy for establishing a device execution context.
//!
//! Device contexts are thread-affine: every thread that issues device
//! operations must (re)establish its own context, and a failure to do so
//! is transient more often than fatal. Callers therefore retry a bounded
//! number of times before surfacing `ContextUnavailable`; this type is
//! that budget. The attempt itself — an outside, device-touching call —
//! is made by the caller between decisions.

use vstd::prelude::*;

use crate::errors::SimError;

verus! {

/// A bounded budget of context-acquisition attempts.
#[derive(Clone, Copy, Debug, PartialEq, Eq, Structural)]
pub struct ContextRetry {
    /// Attempts that may still be made, the current one included.
    pub attempts_left: u32,
}

impl ContextRetry {
    /// A fresh budget of `max_attempts` tries.
    pub fn new(max_attempts: u32) -> (r: ContextRetry)
        ensures
            r.attempts_left == max_attempts,
    {
        ContextRetry { attempts_left: max_attempts }
    }

    /// Record one failed attempt. While the budget allows another try the
    /// caller should retry (after a short backoff); once it is spent the
    /// failure surfaces as `ContextUnavailable` — never a crash, so
    /// higher layers can fall back to the host path or report the read as
    /// temporarily failed.
    pub fn on_failure(&mut self) -> (r: Result<(), SimError>)
        ensures
            final(self).attempts_left == if old(self).attempts_left > 0 {
                (old(self).attempts_left - 1) as u32
            } else {
                0u32
            },
            (r is Ok) == (old(self).attempts_left > 1),
            r matches Err(e) ==> e == SimError::ContextUnavailable,
    {
        if self.attempts_left > 0 {
            self.attempts_left = self.attempts_left - 1;
        }
        if self.attempts_left > 0 {
            Ok(())
        } else {
            Err(SimError::ContextUnavailable)
        }
    }
}

} // verus!
