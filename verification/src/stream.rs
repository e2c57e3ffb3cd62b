//! Per-subscriber send-loop decisions for the broadcast layer.
//!
//! Snapshots fan out on a latest-value channel: a slow subscriber misses
//! intermediate snapshots rather than queueing them, so an empty poll is
//! ordinary, not an error. Each subscriber connection runs its own send
//! loop at its own cadence; on every tick it polls the channel without
//! blocking and asks [`SubscriberLoop::on_tick`] what to do: forward the
//! fresh snapshot, stay idle, send a protocol keepalive after an extended
//! idle run, or — when the channel is gone — terminate only this loop.
//! The transport itself (sending, pings, closes) is the runtime's.

use vstd::prelude::*;

use crate::broadcast::BroadcastState;
use crate::errors::SimError;
use crate::wire::{build_frame, spec_frame};

verus! {

/// What one non-blocking poll of the broadcast channel produced.
#[derive(Clone, Copy, Debug, PartialEq, Eq, Structural)]
pub enum RecvOutcome {
    /// A fresh snapshot is available.
    Fresh,
    /// Nothing new this tick.
    Empty,
    /// Snapshots arrived faster than this subscriber drained them, so
    /// some were skipped. Under latest-value semantics a missed snapshot
    /// is ordinary, not a failure.
    Lagged,
    /// The channel was torn down.
    Closed,
}

/// What the send loop should do on this tick.
#[derive(Clone, Copy, Debug, PartialEq, Eq, Structural)]
pub enum SendAction {
    /// Frame the fresh snapshot and send it.
    SendFrame,
    /// Send a protocol-level keepalive instead of closing.
    SendKeepalive,
    /// Do nothing until the next tick.
    Idle,
}

/// Keepalive bookkeeping for one subscriber connection.
#[derive(Clone, Copy, Debug, PartialEq, Eq, Structural)]
pub struct SubscriberLoop {
    /// Consecutive ticks that found the channel empty.
    pub consecutive_empty: u32,
    /// Empty run length beyond which a keepalive is considered.
    pub empty_tick_threshold: u32,
    /// Whole seconds since the last send beyond which the connection
    /// counts as idle.
    pub idle_secs_threshold: u64,
}

impl SubscriberLoop {
    /// Fresh bookkeeping for a new connection.
    pub fn new(empty_tick_threshold: u32, idle_secs_threshold: u64) -> (r: SubscriberLoop)
        ensures
            r == (SubscriberLoop { consecutive_empty: 0, empty_tick_threshold, idle_secs_threshold }),
    {
        SubscriberLoop { consecutive_empty: 0, empty_tick_threshold, idle_secs_threshold }
    }

    /// Decide this tick's action from the poll outcome and the whole
    /// seconds elapsed since the last successful send.
    ///
    /// A fresh snapshot is always forwarded and resets the empty run. An
    /// empty poll extends the run; once the run exceeds the tick
    /// threshold *and* nothing was sent for longer than the idle
    /// threshold, a keepalive goes out instead of closing, and the run
    /// restarts. A lagged poll only means intermediate snapshots were
    /// missed: the loop idles on and, the channel being demonstrably
    /// live, the empty run restarts. A closed channel terminates only
    /// this loop.
    pub fn on_tick(&mut self, outcome: RecvOutcome, secs_since_send: u64) -> (r: Result<
        SendAction,
        SimError,
    >)
        ensures
            final(self).empty_tick_threshold == old(self).empty_tick_threshold,
            final(self).idle_secs_threshold == old(self).idle_secs_threshold,
            outcome == RecvOutcome::Closed ==> r == Err::<SendAction, SimError>(
                SimError::ChannelClosed,
            ) && *final(self) == *old(self),
            outcome == RecvOutcome::Fresh ==> r == Ok::<SendAction, SimError>(
                SendAction::SendFrame,
            ) && final(self).consecutive_empty == 0,
            outcome == RecvOutcome::Lagged ==> r == Ok::<SendAction, SimError>(SendAction::Idle)
                && final(self).consecutive_empty == 0,
            outcome == RecvOutcome::Empty ==> {
                let run = if old(self).consecutive_empty < u32::MAX {
                    (old(self).consecutive_empty + 1) as u32
                } else {
                    u32::MAX
                };
                let idle = run > old(self).empty_tick_threshold
                    && secs_since_send > old(self).idle_secs_threshold;
                if idle {
                    r == Ok::<SendAction, SimError>(SendAction::SendKeepalive)
                        && final(self).consecutive_empty == 0
                } else {
                    r == Ok::<SendAction, SimError>(SendAction::Idle)
                        && final(self).consecutive_empty == run
                }
            },
    {
        match outcome {
            RecvOutcome::Closed => Err(SimError::ChannelClosed),
            RecvOutcome::Fresh => {
                self.consecutive_empty = 0;
                Ok(SendAction::SendFrame)
            },
            RecvOutcome::Lagged => {
                self.consecutive_empty = 0;
                Ok(SendAction::Idle)
            },
            RecvOutcome::Empty => {
                let run = self.consecutive_empty.saturating_add(1);
                if run > self.empty_tick_threshold && secs_since_send > self.idle_secs_threshold {
                    self.consecutive_empty = 0;
                    Ok(SendAction::SendKeepalive)
                } else {
                    self.consecutive_empty = run;
                    Ok(SendAction::Idle)
                }
            },
        }
    }
}

/// Frame one broadcast for the wire:
/// `[timestamp: u64 le][entity count: u32 le][payload]`. An entity count
/// that does not fit the 4-byte header field is a framing error.
pub fn frame_for(state: &BroadcastState) -> (r: Result<Vec<u8>, SimError>)
    ensures
        (r is Ok) == (state.num_boids <= u32::MAX),
        r matches Ok(frame) ==> frame@ == spec_frame(
            state.timestamp,
            state.num_boids as u32,
            state.data@,
        ) && frame@.len() == 12 + state.data@.len(),
        r matches Err(e) ==> e == SimError::FramingError,
{
    if state.num_boids > u32::MAX as usize {
        return Err(SimError::FramingError);
    }
    Ok(build_frame(state.timestamp, state.num_boids as u32, &state.data))
}

} // verus!
