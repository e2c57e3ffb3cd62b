//! The simulation engine core: lifecycle, step accounting, and the read
//! path, as one single-threaded state machine.
//!
//! The engine owns one [`SimulationModel`] and a [`RateController`]. A
//! surrounding runtime keeps the core behind a mutual-exclusion lock and
//! runs the dedicated execution loop: at each iteration it checks
//! [`EngineCore::is_running`], lets the step algorithm advance the model,
//! then calls [`EngineCore::after_step`] with the measured duration and
//! sleeps out the returned budget. `stop` only flips the running flag —
//! the loop observes it at its next top, so stopping is cooperative and a
//! caller tolerates a one-step delay. The state machine is
//! `Stopped → Running → Stopped`; a second `start` is a no-op, never a
//! second loop.

use vstd::prelude::*;

use crate::broadcast::Snapshot;
use crate::errors::SimError;
use crate::model::SimulationModel;
use crate::rate::{spec_period_us, spec_record, RateController};

verus! {

/// How many recent step durations the engine keeps for diagnostics.
pub const STEP_HISTORY_LEN: usize = 100;

/// A bounded history: the newest entry enters at the back and, at
/// capacity, the oldest falls off the front.
pub open spec fn spec_push_bounded(h: Seq<u64>, e: u64) -> Seq<u64> {
    if h.len() < STEP_HISTORY_LEN {
        h.push(e)
    } else {
        h.drop_first().push(e)
    }
}

/// The engine: one model, one rate controller, one lifecycle flag.
pub struct EngineCore {
    /// The owned simulation model; nothing else holds references into its
    /// buffers.
    pub model: SimulationModel,
    /// Whether the execution loop should keep running.
    pub running: bool,
    /// Steps committed so far.
    pub frame_count: u64,
    /// Caller-supplied clock value of the most recent step, milliseconds.
    pub last_update_ms: u64,
    /// The adaptive target-rate controller, written only by the loop.
    pub rate: RateController,
    /// Durations of the most recent steps, microseconds, oldest first.
    pub history_us: Vec<u64>,
}

impl EngineCore {
    /// A coherent model, a usable rate configuration, and a bounded
    /// history.
    pub open spec fn wf(&self) -> bool {
        &&& self.model.wf()
        &&& self.rate.wf()
        &&& self.history_us@.len() <= STEP_HISTORY_LEN
    }

    /// Build a stopped engine over an initial interleaved state
    /// (`4 * count` words) and a rate configuration; a mis-sized buffer
    /// or an unusable configuration is rejected.
    pub fn new(
        count: usize,
        initial: Vec<u32>,
        kernel_available: bool,
        target_mhz: u32,
        floor_mhz: u32,
        threshold: u32,
    ) -> (r: Result<EngineCore, SimError>)
        ensures
            (r is Ok) == (initial@.len() == 4 * count && floor_mhz >= 1 && target_mhz >= floor_mhz
                && threshold >= 1),
            r matches Ok(e) ==> {
                &&& e.wf()
                &&& e.model.count == count
                &&& e.model.state() == initial@
                &&& e.model.kernel_available == kernel_available
                &&& e.model.last_used_accelerator == false
                &&& e.running == false
                &&& e.frame_count == 0
                &&& e.last_update_ms == 0
                &&& e.rate == (RateController {
                    target_mhz,
                    floor_mhz,
                    threshold,
                    consecutive_delays: 0,
                })
                &&& e.history_us@ == Seq::<u64>::empty()
            },
            r matches Err(e) ==> e == SimError::FramingError,
    {
        let rate = match RateController::new(target_mhz, floor_mhz, threshold) {
            Ok(rate) => rate,
            Err(e) => {
                return Err(e);
            },
        };
        let model = match SimulationModel::new(count, initial, kernel_available) {
            Ok(model) => model,
            Err(e) => {
                return Err(e);
            },
        };
        Ok(EngineCore {
            model,
            running: false,
            frame_count: 0,
            last_update_ms: 0,
            rate,
            history_us: Vec::new(),
        })
    }

    /// Request the execution loop to run.
    ///
    /// Lifecycle idempotence: starting leaves the engine `Running`
    /// whatever it was before, and the result says whether a loop must be
    /// spawned — `false` on an already-running engine, so a second
    /// `start` never spawns a second loop. Nothing else changes.
    pub fn start(&mut self) -> (spawn: bool)
        ensures
            final(self).running == true,
            spawn == !old(self).running,
            final(self).model == old(self).model,
            final(self).frame_count == old(self).frame_count,
            final(self).last_update_ms == old(self).last_update_ms,
            final(self).rate == old(self).rate,
            final(self).history_us == old(self).history_us,
    {
        let was_running = self.running;
        self.running = true;
        !was_running
    }

    /// Request the execution loop to stop. Cooperative: the loop observes
    /// the flag at the top of its next iteration, so the caller tolerates
    /// a one-step delay. Nothing else changes, and the model stays
    /// readable afterwards.
    pub fn stop(&mut self)
        ensures
            final(self).running == false,
            final(self).model == old(self).model,
            final(self).frame_count == old(self).frame_count,
            final(self).last_update_ms == old(self).last_update_ms,
            final(self).rate == old(self).rate,
            final(self).history_us == old(self).history_us,
    {
        self.running = false;
    }

    /// Whether the execution loop should keep running; the loop checks
    /// this at the top of every iteration.
    pub fn is_running(&self) -> (r: bool)
        ensures
            r == self.running,
    {
        self.running
    }

    /// Entity count of the owned model.
    pub fn num_boids(&self) -> (n: usize)
        ensures
            n == self.model.count,
    {
        self.model.entity_count()
    }

    /// Steps committed so far.
    pub fn get_frame_count(&self) -> (n: u64)
        ensures
            n == self.frame_count,
    {
        self.frame_count
    }

    /// Clock value recorded at the most recent step, milliseconds.
    pub fn get_last_update(&self) -> (t: u64)
        ensures
            t == self.last_update_ms,
    {
        self.last_update_ms
    }

    /// Account for one finished step: count it, stamp it, remember its
    /// duration, adapt the target rate, and return how long the loop
    /// should sleep to hold the period the step started under (zero when
    /// the step ran over budget).
    pub fn after_step(&mut self, elapsed_us: u64, now_ms: u64) -> (sleep_us: u64)
        requires
            old(self).wf(),
        ensures
            final(self).wf(),
            final(self).model == old(self).model,
            final(self).running == old(self).running,
            final(self).frame_count == if old(self).frame_count < u64::MAX {
                old(self).frame_count + 1
            } else {
                u64::MAX as int
            },
            final(self).last_update_ms == now_ms,
            final(self).rate == spec_record(old(self).rate, elapsed_us),
            final(self).history_us@ == spec_push_bounded(old(self).history_us@, elapsed_us),
            sleep_us == if elapsed_us <= spec_period_us(old(self).rate.target_mhz) {
                spec_period_us(old(self).rate.target_mhz) - elapsed_us
            } else {
                0int
            },
    {
        let period = self.rate.period_us();
        let sleep_us = if elapsed_us <= period {
            period - elapsed_us
        } else {
            0
        };
        self.frame_count = self.frame_count.saturating_add(1);
        self.last_update_ms = now_ms;
        if self.history_us.len() >= STEP_HISTORY_LEN {
            self.history_us.remove(0);
            proof {
                assert(self.history_us@ =~= old(self).history_us@.drop_first());
            }
        }
        self.history_us.push(elapsed_us);
        self.rate.record_step(elapsed_us);
        sleep_us
    }

    /// Read the full interleaved state (the read path contended between
    /// the loop and reader threads; the surrounding lock scopes the
    /// contention to one read). Works in any lifecycle state: after a
    /// `stop`, the last committed model state is still returned.
    pub fn get_state(&mut self) -> (r: Vec<u32>)
        requires
            old(self).wf(),
        ensures
            final(self).wf(),
            r@ == old(self).model.state(),
            r@.len() == 4 * old(self).model.count,
            final(self).model.state() == old(self).model.state(),
            final(self).model.count == old(self).model.count,
            final(self).model.kernel_available == old(self).model.kernel_available,
            final(self).model.last_used_accelerator == old(self).model.last_used_accelerator,
            final(self).running == old(self).running,
            final(self).frame_count == old(self).frame_count,
            final(self).last_update_ms == old(self).last_update_ms,
            final(self).rate == old(self).rate,
            final(self).history_us == old(self).history_us,
    {
        self.model.read_interleaved()
    }

    /// Take an immutable snapshot of the current state, stamped with the
    /// caller's clock.
    pub fn snapshot(&mut self, timestamp: u64) -> (s: Snapshot)
        requires
            old(self).wf(),
        ensures
            final(self).wf(),
            s.wf(),
            s.timestamp == timestamp,
            s.count == old(self).model.count,
            s.words@ == old(self).model.state(),
            final(self).model.state() == old(self).model.state(),
            final(self).model.count == old(self).model.count,
            final(self).model.kernel_available == old(self).model.kernel_available,
            final(self).model.last_used_accelerator == old(self).model.last_used_accelerator,
            final(self).running == old(self).running,
            final(self).frame_count == old(self).frame_count,
            final(self).last_update_ms == old(self).last_update_ms,
            final(self).rate == old(self).rate,
            final(self).history_us == old(self).history_us,
    {
        let count = self.model.entity_count();
        let words = self.get_state();
        Snapshot { timestamp, count, words }
    }
}

} // verus!
