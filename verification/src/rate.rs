//! Adaptive step-rate control for the engine's execution loop.
//!
//! The loop targets a step rate and sleeps out the remainder of each
//! period. When a step runs over budget a consecutive-delay counter grows;
//! once it reaches the configured threshold the target rate is reduced by
//! a fixed multiplicative factor (nine tenths), clamped to a configured
//! floor, and the counter resets. A step under budget resets the counter
//! immediately. The policy is deliberately one-directional: the rate is
//! never raised back up, so a degraded engine stays conservative rather
//! than oscillating.
//!
//! Rates are kept in millihertz so the arithmetic is exact.

use vstd::prelude::*;

use crate::errors::SimError;

verus! {

/// Single-writer controller for the loop's target step rate.
#[derive(Clone, Copy, Debug, PartialEq, Eq, Structural)]
pub struct RateController {
    /// Current target rate, millihertz.
    pub target_mhz: u32,
    /// Rate floor, millihertz; the target never goes below it.
    pub floor_mhz: u32,
    /// How many consecutive over-budget steps trigger a reduction.
    pub threshold: u32,
    /// Over-budget steps seen since the last under-budget step or applied
    /// reduction.
    pub consecutive_delays: u32,
}

/// The step period a target rate allows, in microseconds.
pub open spec fn spec_period_us(target_mhz: u32) -> int
    recommends
        target_mhz >= 1,
{
    1_000_000_000int / (target_mhz as int)
}

/// The reduced rate one adaptation applies: nine tenths of the target,
/// clamped to the floor.
pub open spec fn spec_degraded(rc: RateController) -> u32 {
    let reduced = rc.target_mhz as int * 9 / 10;
    if reduced >= rc.floor_mhz as int {
        reduced as u32
    } else {
        rc.floor_mhz
    }
}

/// The controller after observing one step that took `elapsed_us`.
pub open spec fn spec_record(rc: RateController, elapsed_us: u64) -> RateController {
    if elapsed_us <= spec_period_us(rc.target_mhz) {
        // Keeping up: reset immediately, no hysteresis.
        RateController { consecutive_delays: 0, ..rc }
    } else {
        let d = if rc.consecutive_delays < u32::MAX {
            (rc.consecutive_delays + 1) as u32
        } else {
            u32::MAX
        };
        if d >= rc.threshold {
            // At the threshold: reduce, clamp to the floor, and reset the
            // counter, unconditionally.
            RateController { target_mhz: spec_degraded(rc), consecutive_delays: 0, ..rc }
        } else {
            RateController { consecutive_delays: d, ..rc }
        }
    }
}

/// The controller after observing a whole run of steps, oldest first.
pub open spec fn spec_run(rc: RateController, steps: Seq<u64>) -> RateController
    decreases steps.len(),
{
    if steps.len() == 0 {
        rc
    } else {
        spec_run(spec_record(rc, steps.first()), steps.drop_first())
    }
}

impl RateController {
    /// A usable configuration: a positive floor at or below the target,
    /// and a positive threshold.
    pub open spec fn wf(&self) -> bool {
        &&& self.floor_mhz >= 1
        &&& self.target_mhz >= self.floor_mhz
        &&& self.threshold >= 1
    }

    /// Build a controller; a floor of zero, a target below the floor, or
    /// a threshold of zero is rejected.
    pub fn new(target_mhz: u32, floor_mhz: u32, threshold: u32) -> (r: Result<
        RateController,
        SimError,
    >)
        ensures
            (r is Ok) == (floor_mhz >= 1 && target_mhz >= floor_mhz && threshold >= 1),
            r matches Ok(rc) ==> rc == (RateController {
                target_mhz,
                floor_mhz,
                threshold,
                consecutive_delays: 0,
            }) && rc.wf(),
            r matches Err(e) ==> e == SimError::FramingError,
    {
        if floor_mhz >= 1 && target_mhz >= floor_mhz && threshold >= 1 {
            Ok(RateController { target_mhz, floor_mhz, threshold, consecutive_delays: 0 })
        } else {
            Err(SimError::FramingError)
        }
    }

    /// The current step period, in microseconds.
    pub fn period_us(&self) -> (r: u64)
        requires
            self.wf(),
        ensures
            r == spec_period_us(self.target_mhz),
    {
        1_000_000_000u64 / (self.target_mhz as u64)
    }

    /// Record one step's duration and adapt.
    ///
    /// The target never rises and never goes below the floor. When the
    /// step was over budget and the consecutive-delay counter reaches the
    /// threshold, the target drops by the degrade factor (clamped to the
    /// floor) and the counter resets, unconditionally.
    pub fn record_step(&mut self, elapsed_us: u64)
        requires
            old(self).wf(),
        ensures
            final(self).wf(),
            *final(self) == spec_record(*old(self), elapsed_us),
            final(self).target_mhz <= old(self).target_mhz,
            final(self).target_mhz >= old(self).floor_mhz,
            final(self).floor_mhz == old(self).floor_mhz,
            final(self).threshold == old(self).threshold,
            elapsed_us <= spec_period_us(old(self).target_mhz) ==> final(self).target_mhz
                == old(self).target_mhz && final(self).consecutive_delays == 0,
    {
        let period = self.period_us();
        if elapsed_us <= period {
            self.consecutive_delays = 0;
            return ;
        }
        let d = self.consecutive_delays.saturating_add(1);
        if d >= self.threshold {
            let reduced64: u64 = (self.target_mhz as u64) * 9 / 10;
            assert(reduced64 == self.target_mhz as int * 9 / 10);
            assert(reduced64 * 10 <= (self.target_mhz as u64) * 9) by (nonlinear_arith)
                requires
                    reduced64 == (self.target_mhz as u64) * 9 / 10,
            ;
            let nt: u32 = if reduced64 >= self.floor_mhz as u64 {
                reduced64 as u32
            } else {
                self.floor_mhz
            };
            self.target_mhz = nt;
            self.consecutive_delays = 0;
        } else {
            self.consecutive_delays = d;
        }
    }
}

/// One observation never raises the rate, never crosses the floor, and
/// never touches the configuration.
pub proof fn lemma_record_monotone(rc: RateController, elapsed_us: u64)
    requires
        rc.wf(),
    ensures
        spec_record(rc, elapsed_us).wf(),
        spec_record(rc, elapsed_us).target_mhz <= rc.target_mhz,
        spec_record(rc, elapsed_us).target_mhz >= rc.floor_mhz,
        spec_record(rc, elapsed_us).floor_mhz == rc.floor_mhz,
        spec_record(rc, elapsed_us).threshold == rc.threshold,
{
}

/// Rate-adaptation monotonicity law, first half: over any run of steps
/// whatsoever, the target rate never rises — once degraded it stays
/// degraded — and it never drops below the configured floor.
pub proof fn lemma_rate_never_rises(rc: RateController, steps: Seq<u64>)
    requires
        rc.wf(),
    ensures
        spec_run(rc, steps).wf(),
        spec_run(rc, steps).target_mhz <= rc.target_mhz,
        spec_run(rc, steps).target_mhz >= rc.floor_mhz,
        spec_run(rc, steps).floor_mhz == rc.floor_mhz,
        spec_run(rc, steps).threshold == rc.threshold,
    decreases steps.len(),
{
    if steps.len() > 0 {
        lemma_record_monotone(rc, steps.first());
        lemma_rate_never_rises(spec_record(rc, steps.first()), steps.drop_first());
    }
}

/// Rate-adaptation monotonicity law, second half: sustaining over-budget
/// steps until the consecutive-delay counter reaches the threshold
/// reduces the target by exactly the degrade factor, clamped to the
/// floor (in particular, at the floor it never goes lower), and resets
/// the counter.
pub proof fn lemma_sustained_overload_degrades(rc: RateController, steps: Seq<u64>)
    requires
        rc.wf(),
        rc.consecutive_delays < rc.threshold,
        steps.len() == rc.threshold - rc.consecutive_delays,
        forall|i: int| 0 <= i < steps.len() ==> steps[i] > spec_period_us(rc.target_mhz),
    ensures
        spec_run(rc, steps).target_mhz == spec_degraded(rc),
        spec_run(rc, steps).consecutive_delays == 0,
    decreases steps.len(),
{
    let rc1 = spec_record(rc, steps.first());
    if steps.len() == 1 {
        assert(spec_run(rc1, steps.drop_first()) == rc1);
    } else {
        assert(rc1.target_mhz == rc.target_mhz && rc1.floor_mhz == rc.floor_mhz
            && rc1.threshold == rc.threshold && rc1.consecutive_delays == rc.consecutive_delays
            + 1);
        assert(forall|i: int|
            0 <= i < steps.drop_first().len() ==> steps.drop_first()[i] > spec_period_us(
                rc1.target_mhz,
            ));
        lemma_sustained_overload_degrades(rc1, steps.drop_first());
    }
}

} // verus!
