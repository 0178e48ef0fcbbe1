//! Echo timing and distance derivation for the ultrasonic rangefinder.
//!
//! One measurement emits a short trigger pulse and then watches the echo
//! line for a rising edge followed by a falling edge inside a bounded
//! polling window. The embedding program drives the hardware lines and
//! hands every observed edge, stamped with a monotonic clock, to the
//! tracker here; the tracker keeps the first rising edge and the first
//! falling edge after it, exactly as the polling loop demands. The
//! distance follows from the elapsed time by the speed of sound at the
//! fixed reference temperature. A measurement fails distinctly when no
//! rising edge was seen, when a rising edge was seen but no falling edge
//! followed, or when the line itself could not be read.

use vstd::prelude::*;

verus! {

/// Speed of sound in millimetres per second at the reference ambient
/// temperature of 15.5 degrees Celsius: 331.5 + 0.6 * 15.5 = 340.8
/// metres per second.
pub const SPEED_OF_SOUND_MM_PER_S: u64 = 340_800;

/// Length of the trigger pulse in microseconds.
pub const TRIGGER_PULSE_MICROS: u64 = 10;

/// Polling window for one edge wait in milliseconds.
pub const POLL_WINDOW_MILLIS: u64 = 100;

/// How one echo measurement can fail.
#[derive(Clone, Copy, Debug, PartialEq, Eq, Structural)]
pub enum RangingError {
    /// The polling window closed before any rising edge.
    NoRisingEdgeDetected,
    /// A rising edge was seen, but no falling edge followed in time.
    NoFallingEdgeDetected,
    /// The echo line could not be read at all.
    HardwareFault,
}

/// State of the echo line reported by one poll.
#[derive(Clone, Copy, Debug, PartialEq, Eq, Structural)]
pub enum EchoLevel {
    High,
    Low,
}

/// One observed edge: the level the line changed to, and when.
#[derive(Clone, Copy, Debug, PartialEq, Eq, Structural)]
pub struct EchoEvent {
    /// Level the echo line changed to.
    pub level: EchoLevel,
    /// Monotonic timestamp of the edge in nanoseconds.
    pub at_ns: u64,
}

/// How one edge changes the recorded pair of timestamps: the first
/// rising edge sets the start, the first falling edge after it sets the
/// stop, everything else is ignored.
pub open spec fn tracker_step(
    rise_ns: Option<u64>,
    fall_ns: Option<u64>,
    level: EchoLevel,
    now_ns: u64,
) -> (Option<u64>, Option<u64>) {
    match level {
        EchoLevel::High => if rise_ns is None {
            (Some(now_ns), fall_ns)
        } else {
            (rise_ns, fall_ns)
        },
        EchoLevel::Low => if rise_ns is Some && fall_ns is None {
            (rise_ns, Some(now_ns))
        } else {
            (rise_ns, fall_ns)
        },
    }
}

/// The recorded timestamps after a whole run of edges, oldest first.
pub open spec fn tracker_fold(events: Seq<EchoEvent>) -> (Option<u64>, Option<u64>)
    decreases events.len(),
{
    if events.len() == 0 {
        (None, None)
    } else {
        let prev = tracker_fold(events.drop_last());
        tracker_step(prev.0, prev.1, events.last().level, events.last().at_ns)
    }
}

/// The elapsed echo time, or the distinct failure, for a recorded pair
/// of timestamps.
pub open spec fn echo_outcome(rise_ns: Option<u64>, fall_ns: Option<u64>) -> Result<
    u64,
    RangingError,
> {
    match rise_ns {
        None => Err(RangingError::NoRisingEdgeDetected),
        Some(rise) => match fall_ns {
            None => Err(RangingError::NoFallingEdgeDetected),
            Some(fall) => Ok((fall - rise) as u64),
        },
    }
}

/// Distance in millimetres travelled one way by an echo heard after
/// `elapsed_ns` nanoseconds: `elapsed / 2 * speed_of_sound`, rounded
/// down to whole millimetres.
pub open spec fn echo_distance_mm(elapsed_ns: u64) -> u64 {
    ((elapsed_ns * SPEED_OF_SOUND_MM_PER_S) / 2_000_000_000) as u64
}

/// What a whole measurement returns for a run of edges: the distance for
/// the first echo, or the distinct failure.
pub open spec fn measure_spec(events: Seq<EchoEvent>) -> Result<u64, RangingError> {
    match echo_outcome(tracker_fold(events).0, tracker_fold(events).1) {
        Ok(elapsed_ns) => Ok(echo_distance_mm(elapsed_ns)),
        Err(e) => Err(e),
    }
}

/// Records the first rising edge and the first falling edge after it
/// while the embedding program polls the echo line.
pub struct EchoTracker {
    rise_ns: Option<u64>,
    fall_ns: Option<u64>,
}

impl EchoTracker {
    /// Timestamp of the first rising edge, if one was seen.
    pub closed spec fn spec_rise(&self) -> Option<u64> {
        self.rise_ns
    }

    /// Timestamp of the first falling edge after the rising one, if seen.
    pub closed spec fn spec_fall(&self) -> Option<u64> {
        self.fall_ns
    }

    /// A falling edge is only ever recorded after a rising one.
    pub open spec fn well_formed(&self) -> bool {
        self.spec_fall() is Some ==> self.spec_rise() is Some
            && self.spec_rise()->0 <= self.spec_fall()->0
    }

    /// Every recorded timestamp is at or before `t`.
    pub open spec fn seen_up_to(&self, t: u64) -> bool {
        &&& (self.spec_rise() is Some ==> self.spec_rise()->0 <= t)
        &&& (self.spec_fall() is Some ==> self.spec_fall()->0 <= t)
    }

    /// A tracker that has seen no edge yet.
    pub fn new() -> (tracker: Self)
        ensures
            tracker.spec_rise() is None,
            tracker.spec_fall() is None,
            tracker.well_formed(),
    {
        EchoTracker { rise_ns: None, fall_ns: None }
    }

    /// Feeds one observed edge. `now_ns` must come from the same
    /// monotonic clock as the earlier edges.
    pub fn on_edge(&mut self, level: EchoLevel, now_ns: u64)
        requires
            old(self).well_formed(),
            old(self).seen_up_to(now_ns),
        ensures
            final(self).well_formed(),
            final(self).seen_up_to(now_ns),
            (final(self).spec_rise(), final(self).spec_fall()) == tracker_step(
                old(self).spec_rise(),
                old(self).spec_fall(),
                level,
                now_ns,
            ),
    {
        match level {
            EchoLevel::High => {
                if self.rise_ns.is_none() {
                    self.rise_ns = Some(now_ns);
                }
            },
            EchoLevel::Low => {
                if self.rise_ns.is_some() && self.fall_ns.is_none() {
                    self.fall_ns = Some(now_ns);
                }
            },
        }
    }

    /// The elapsed echo time in nanoseconds once polling has finished,
    /// or the distinct failure.
    pub fn elapsed(&self) -> (r: Result<u64, RangingError>)
        requires
            self.well_formed(),
        ensures
            r == echo_outcome(self.spec_rise(), self.spec_fall()),
    {
        match self.rise_ns {
            None => Err(RangingError::NoRisingEdgeDetected),
            Some(rise) => match self.fall_ns {
                None => Err(RangingError::NoFallingEdgeDetected),
                Some(fall) => Ok(fall - rise),
            },
        }
    }
}

/// Converts an elapsed echo time to a one-way distance in millimetres by
/// the documented speed-of-sound formula.
pub fn distance_from_elapsed(elapsed_ns: u64) -> (d: u64)
    ensures
        d == echo_distance_mm(elapsed_ns),
{
    proof {
        lemma_echo_distance_fits(elapsed_ns);
    }
    ((elapsed_ns as u128) * (SPEED_OF_SOUND_MM_PER_S as u128) / 2_000_000_000u128) as u64
}

/// The derived distance always fits in `u64`: sound travels less than a
/// millimetre in two nanoseconds.
proof fn lemma_echo_distance_fits(elapsed_ns: u64)
    ensures
        elapsed_ns * SPEED_OF_SOUND_MM_PER_S / 2_000_000_000 <= elapsed_ns,
{
    assert(elapsed_ns * SPEED_OF_SOUND_MM_PER_S / 2_000_000_000 <= elapsed_ns)
        by (nonlinear_arith);
}

/// One whole measurement over a recorded run of edges, oldest first:
/// exactly what the polling loop decides, on plain values.
pub fn measure_from_events(events: &Vec<EchoEvent>) -> (r: Result<u64, RangingError>)
    requires
        forall|i: int, j: int|
            0 <= i < j < events@.len() ==> events@[i].at_ns <= events@[j].at_ns,
    ensures
        r == measure_spec(events@),
{
    let mut tracker = EchoTracker::new();
    let mut i: usize = 0;
    proof {
        assert(events@.take(0) =~= Seq::<EchoEvent>::empty());
    }
    while i < events.len()
        invariant
            i <= events@.len(),
            forall|i: int, j: int|
                0 <= i < j < events@.len() ==> events@[i].at_ns <= events@[j].at_ns,
            tracker.well_formed(),
            (tracker.spec_rise(), tracker.spec_fall()) == tracker_fold(events@.take(i as int)),
            i > 0 ==> tracker.seen_up_to(events@[i - 1].at_ns),
            i == 0 ==> tracker.spec_rise() is None && tracker.spec_fall() is None,
        decreases events@.len() - i,
    {
        let event = events[i];
        tracker.on_edge(event.level, event.at_ns);
        proof {
            let taken = events@.take(i + 1);
            assert(taken.drop_last() =~= events@.take(i as int));
            assert(taken.last() == events@[i as int]);
        }
        i = i + 1;
    }
    proof {
        assert(events@.take(events@.len() as int) =~= events@);
    }
    match tracker.elapsed() {
        Ok(elapsed_ns) => Ok(distance_from_elapsed(elapsed_ns)),
        Err(e) => Err(e),
    }
}

} // verus!
