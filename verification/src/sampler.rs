//! The sampling loop's state: what each iteration of the background
//! sensor thread decides.
//!
//! While running, each iteration takes one measurement; an accepted
//! sample lands in the shared median filter, a failed one is swallowed
//! and never retried within the same iteration. Every fixed number of
//! accepted samples a level snapshot is due for the display sink; a
//! failed display write must not touch the accumulated samples. The
//! loop checks a cancellation notice once per iteration; on
//! cancellation it finishes the in-flight measurement and then stops
//! for good. The embedding program owns the thread, the lock around
//! this state, and the hardware; the transitions here are pure.

use crate::median::{median_spec, window_push, MedianFilter};
use crate::rangefinder::RangingError;
use crate::tank::{level_spec, compute, CuboidTank, LevelSnapshot};
use vstd::prelude::*;

verus! {

/// Where the sampling loop stands.
#[derive(Clone, Copy, Debug, PartialEq, Eq, Structural)]
pub enum SamplerPhase {
    /// Taking measurements.
    Running,
    /// Cancellation noticed; the in-flight measurement still lands.
    Stopping,
    /// Finished; the loop may be joined.
    Stopped,
}

/// What one measurement attempt produced.
#[derive(Clone, Copy, Debug, PartialEq, Eq, Structural)]
pub enum MeasureOutcome {
    /// A distance in millimetres, accepted into the filter.
    Distance(u64),
    /// A failure, swallowed: a missed sample is not fatal.
    Failed(RangingError),
}

/// State of the background sampling loop.
pub struct SensorSampler {
    filter: MedianFilter,
    since_publish: u64,
    snapshot_interval: u64,
    phase: SamplerPhase,
}

impl SensorSampler {
    /// The retained samples, oldest first.
    pub closed spec fn window(&self) -> Seq<u64> {
        self.filter@
    }

    /// The capacity of the underlying filter.
    pub closed spec fn spec_capacity(&self) -> usize {
        self.filter.spec_capacity()
    }

    /// Accepted samples since the last published snapshot.
    pub closed spec fn spec_since_publish(&self) -> u64 {
        self.since_publish
    }

    /// How many accepted samples lie between two published snapshots.
    pub closed spec fn spec_interval(&self) -> u64 {
        self.snapshot_interval
    }

    /// Where the loop stands.
    pub closed spec fn spec_phase(&self) -> SamplerPhase {
        self.phase
    }

    /// Internal consistency.
    pub closed spec fn well_formed(&self) -> bool {
        &&& self.filter.well_formed()
        &&& 1 <= self.spec_interval()
        &&& self.spec_since_publish() < self.spec_interval()
    }

    /// A running sampler with an empty window: `capacity` bounds the
    /// filter, `snapshot_interval` is the number of accepted samples
    /// between two published snapshots.
    pub fn new(capacity: usize, snapshot_interval: u64) -> (sampler: Self)
        requires
            1 <= capacity,
            1 <= snapshot_interval,
        ensures
            sampler.well_formed(),
            sampler.window() == Seq::<u64>::empty(),
            sampler.spec_capacity() == capacity,
            sampler.spec_interval() == snapshot_interval,
            sampler.spec_since_publish() == 0,
            sampler.spec_phase() is Running,
    {
        SensorSampler {
            filter: MedianFilter::new(capacity),
            since_publish: 0,
            snapshot_interval,
            phase: SamplerPhase::Running,
        }
    }

    /// Where the loop stands.
    pub fn phase(&self) -> (p: SamplerPhase)
        ensures
            p == self.spec_phase(),
    {
        self.phase
    }

    /// Notices the cooperative cancellation signal, checked once per
    /// iteration: a running loop starts stopping, a stopping or stopped
    /// one is left as it is.
    pub fn observe_cancellation(&mut self)
        ensures
            final(self).spec_phase() == (if old(self).spec_phase() is Running {
                SamplerPhase::Stopping
            } else {
                old(self).spec_phase()
            }),
            final(self).window() == old(self).window(),
            final(self).spec_capacity() == old(self).spec_capacity(),
            final(self).spec_interval() == old(self).spec_interval(),
            final(self).spec_since_publish() == old(self).spec_since_publish(),
            old(self).well_formed() ==> final(self).well_formed(),
    {
        if matches!(self.phase, SamplerPhase::Running) {
            self.phase = SamplerPhase::Stopping;
        }
    }

    /// Lands the outcome of one measurement: an accepted sample goes
    /// into the window, with the oldest sample evicted at capacity; a
    /// failure changes nothing. Returns whether a snapshot is now due
    /// for the display sink. A stopping loop finishes this in-flight
    /// measurement and then stops.
    pub fn on_iteration(&mut self, outcome: &MeasureOutcome) -> (publish: bool)
        requires
            old(self).well_formed(),
            !(old(self).spec_phase() is Stopped),
        ensures
            final(self).well_formed(),
            final(self).spec_capacity() == old(self).spec_capacity(),
            final(self).spec_interval() == old(self).spec_interval(),
            final(self).spec_phase() == (if old(self).spec_phase() is Running {
                SamplerPhase::Running
            } else {
                SamplerPhase::Stopped
            }),
            *outcome matches MeasureOutcome::Distance(d) ==> {
                &&& final(self).window() == window_push(
                    old(self).window(),
                    d,
                    old(self).spec_capacity() as nat,
                )
                &&& publish == (old(self).spec_since_publish() + 1 == old(self).spec_interval())
                &&& final(self).spec_since_publish() == (if publish {
                    0int
                } else {
                    old(self).spec_since_publish() + 1
                })
            },
            *outcome is Failed ==> final(self).window() == old(self).window() && !publish
                && final(self).spec_since_publish() == old(self).spec_since_publish(),
    {
        let publish = match outcome {
            MeasureOutcome::Distance(d) => {
                self.filter.push(*d);
                if self.since_publish + 1 == self.snapshot_interval {
                    self.since_publish = 0;
                    true
                } else {
                    self.since_publish = self.since_publish + 1;
                    false
                }
            },
            MeasureOutcome::Failed(_) => false,
        };
        if matches!(self.phase, SamplerPhase::Stopping) {
            self.phase = SamplerPhase::Stopped;
        }
        publish
    }

    /// The snapshot the current window derives to, for the display sink
    /// or for a request handler: nothing while no sample has landed,
    /// never a numeric default.
    pub fn snapshot(&self, tank: &CuboidTank, offset_mm: u64) -> (r: Option<LevelSnapshot>)
        requires
            self.well_formed(),
            tank.valid(),
        ensures
            r == (if self.window().len() == 0 {
                Option::<LevelSnapshot>::None
            } else {
                Option::<LevelSnapshot>::Some(
                    level_spec(tank, median_spec(self.window()), offset_mm),
                )
            }),
    {
        match self.filter.median() {
            None => None,
            Some(distance_mm) => Some(compute(distance_mm, tank, offset_mm)),
        }
    }
}

} // verus!
