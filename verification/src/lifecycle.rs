//! Cooperative shutdown of the sampler and the request-serving layer.
//!
//! A termination signal only raises a notification; the main control
//! path observes it here, flips the sampler's cancellation, asks the
//! server to finish in-flight work, waits for both, and exits with a
//! status that tells a controlled stop from an abnormal one. Duplicate
//! signals arriving before shutdown completes are no-ops.

use vstd::prelude::*;

verus! {

/// Where the process stands in its life.
#[derive(Clone, Copy, Debug, PartialEq, Eq, Structural)]
pub enum LifecyclePhase {
    /// Serving and sampling.
    Active,
    /// Stop requested; background work is winding down.
    ShuttingDown,
    /// All background work has reached a terminal state.
    Terminated,
}

/// How the process ends.
#[derive(Clone, Copy, Debug, PartialEq, Eq, Structural)]
pub enum ExitStatus {
    /// A controlled stop: signal-triggered shutdown, everything joined.
    Controlled,
    /// An unrecoverable internal failure ended the process.
    Abnormal,
}

/// What one observed termination signal does to the phase: the first
/// one starts the shutdown, any further one changes nothing.
pub open spec fn signal_step(phase: LifecyclePhase) -> LifecyclePhase {
    if phase is Active {
        LifecyclePhase::ShuttingDown
    } else {
        phase
    }
}

/// Observes the signal notifications and drives the shutdown sequence.
pub struct LifecycleCoordinator {
    phase: LifecyclePhase,
    signal_seen: bool,
}

impl LifecycleCoordinator {
    /// Where the process stands.
    pub closed spec fn spec_phase(&self) -> LifecyclePhase {
        self.phase
    }

    /// Whether a termination signal has been observed.
    pub closed spec fn spec_signal_seen(&self) -> bool {
        self.signal_seen
    }

    /// An active coordinator that has seen no signal.
    pub fn new() -> (c: Self)
        ensures
            c.spec_phase() is Active,
            !c.spec_signal_seen(),
    {
        LifecycleCoordinator { phase: LifecyclePhase::Active, signal_seen: false }
    }

    /// Where the process stands.
    pub fn phase(&self) -> (p: LifecyclePhase)
        ensures
            p == self.spec_phase(),
    {
        self.phase
    }

    /// Whether the stop was signal-triggered.
    pub fn signal_seen(&self) -> (r: bool)
        ensures
            r == self.spec_signal_seen(),
    {
        self.signal_seen
    }

    /// Observes one termination signal notification. Only the first
    /// one, in the active phase, initiates the shutdown; duplicates
    /// change nothing and report that nothing was initiated.
    pub fn on_signal(&mut self) -> (initiated: bool)
        ensures
            final(self).spec_phase() == signal_step(old(self).spec_phase()),
            initiated == (old(self).spec_phase() is Active),
            initiated ==> final(self).spec_signal_seen(),
            !initiated ==> final(self).spec_signal_seen() == old(self).spec_signal_seen(),
    {
        if matches!(self.phase, LifecyclePhase::Active) {
            self.phase = LifecyclePhase::ShuttingDown;
            self.signal_seen = true;
            true
        } else {
            false
        }
    }

    /// Observes that the request-serving layer ended on its own, which
    /// also winds the process down, but not signal-triggered.
    pub fn on_server_ended(&mut self)
        ensures
            final(self).spec_phase() == signal_step(old(self).spec_phase()),
            final(self).spec_signal_seen() == old(self).spec_signal_seen(),
    {
        if matches!(self.phase, LifecyclePhase::Active) {
            self.phase = LifecyclePhase::ShuttingDown;
        }
    }

    /// Called once the sampler and the server have both reached a
    /// terminal state: the process is done, and the exit status tells a
    /// controlled stop from an abnormal one.
    pub fn finish(&mut self, server_failed: bool) -> (status: ExitStatus)
        requires
            old(self).spec_phase() is ShuttingDown,
        ensures
            final(self).spec_phase() is Terminated,
            final(self).spec_signal_seen() == old(self).spec_signal_seen(),
            status == (if server_failed {
                ExitStatus::Abnormal
            } else {
                ExitStatus::Controlled
            }),
    {
        self.phase = LifecyclePhase::Terminated;
        if server_failed {
            ExitStatus::Abnormal
        } else {
            ExitStatus::Controlled
        }
    }
}

/// The process exit code for a status: zero for a controlled stop, one
/// for an abnormal one.
pub fn exit_code(status: &ExitStatus) -> (code: i32)
    ensures
        code == (if status is Abnormal {
            1int
        } else {
            0int
        }),
{
    match status {
        ExitStatus::Controlled => 0,
        ExitStatus::Abnormal => 1,
    }
}

/// Duplicate termination signals are no-ops: once the shutdown has
/// started, observing the signal again leaves the phase exactly where
/// it was.
pub proof fn lemma_duplicate_signal_noop(phase: LifecyclePhase)
    ensures
        signal_step(signal_step(phase)) == signal_step(phase),
{
}

} // verus!
