//! The convergence detector: it arms the session when all nine oscillators
//! flash at once, and ends it once the grace period has passed.

use crate::note::{Note, OSCILLATOR_COUNT};
use crate::recency::{flashing, flashing_count, lemma_flashing_count, RecencyTracker};
use crate::time::{elapsed, elapsed_nanos, GRACE};
use vstd::prelude::*;

verus! {

/// Where a session stands.
#[derive(Debug, Clone, Copy, PartialEq, Eq, Structural)]
pub enum Phase {
    /// The nine oscillators have not yet flashed all at once.
    Idle,
    /// They first did so at `armed_at`, and the grace period is running.
    Armed { armed_at: u64 },
    /// The grace period has passed: the session is over.
    Terminated,
}

/// What the detector sees at one tick.
pub struct Sighting {
    /// How many oscillators are flashing.
    pub flashing_count: nat,
    /// The time of the tick.
    pub now: u64,
}

/// The phase after a tick at `now` at which `flashing_count` oscillators flash.
/// An idle session is armed when all nine flash. An armed session ends when
/// more than the grace period has passed since it was armed, however many
/// flash then. A session that is over stays so.
pub open spec fn next_phase(phase: Phase, flashing_count: nat, now: u64) -> Phase {
    match phase {
        Phase::Idle => if flashing_count == 9 {
            Phase::Armed { armed_at: now }
        } else {
            Phase::Idle
        },
        Phase::Armed { armed_at } => if elapsed(now, armed_at) > GRACE {
            Phase::Terminated
        } else {
            phase
        },
        Phase::Terminated => Phase::Terminated,
    }
}

/// The phase after the ticks of `sightings`, in order.
pub open spec fn phase_after(phase: Phase, sightings: Seq<Sighting>) -> Phase
    decreases sightings.len(),
{
    if sightings.len() == 0 {
        phase
    } else {
        next_phase(
            phase_after(phase, sightings.drop_last()),
            sightings.last().flashing_count,
            sightings.last().now,
        )
    }
}

/// An idle session is armed by a tick at which every oscillator flashes, with
/// the time of that tick, and by no other.
pub proof fn lemma_armed_when_all_flash(fires: Map<Note, u64>, now: u64)
    ensures
        (forall|note: Note| flashing(fires, note, now)) ==> next_phase(
            Phase::Idle,
            flashing_count(fires, now),
            now,
        ) == (Phase::Armed { armed_at: now }),
        !(forall|note: Note| flashing(fires, note, now)) ==> next_phase(
            Phase::Idle,
            flashing_count(fires, now),
            now,
        ) == Phase::Idle,
{
    lemma_flashing_count(fires, now);
}

/// A session armed at `armed_at` is still armed after any ticks that all come
/// no later than the grace period after `armed_at`: it never ends before that.
pub proof fn lemma_armed_through_grace(armed_at: u64, sightings: Seq<Sighting>)
    requires
        forall|i: int| 0 <= i < sightings.len() ==> sightings[i].now <= armed_at + GRACE,
    ensures
        phase_after(Phase::Armed { armed_at }, sightings) == (Phase::Armed { armed_at }),
    decreases sightings.len(),
{
    if sightings.len() > 0 {
        lemma_armed_through_grace(armed_at, sightings.drop_last());
    }
}

/// A session armed at `armed_at` ends at the first tick that comes later than
/// the grace period after `armed_at`, however many oscillators flash then.
pub proof fn lemma_terminated_after_grace(armed_at: u64, flashing_count: nat, now: u64)
    requires
        now > armed_at + GRACE,
    ensures
        next_phase(Phase::Armed { armed_at }, flashing_count, now) == Phase::Terminated,
{
}

/// A session that is over stays over.
pub proof fn lemma_terminated_is_final(sightings: Seq<Sighting>)
    ensures
        phase_after(Phase::Terminated, sightings) == Phase::Terminated,
    decreases sightings.len(),
{
    if sightings.len() > 0 {
        lemma_terminated_is_final(sightings.drop_last());
    }
}

/// A session that has been armed never becomes idle again.
pub proof fn lemma_never_idle_again(phase: Phase, sightings: Seq<Sighting>)
    requires
        phase != Phase::Idle,
    ensures
        phase_after(phase, sightings) != Phase::Idle,
    decreases sightings.len(),
{
    if sightings.len() > 0 {
        lemma_never_idle_again(phase, sightings.drop_last());
    }
}

/// The convergence detector of a session.
#[derive(Debug, Clone, Copy, PartialEq, Eq, Structural)]
pub struct ConvergenceDetector {
    phase: Phase,
}

impl View for ConvergenceDetector {
    type V = Phase;

    closed spec fn view(&self) -> Phase {
        self.phase
    }
}

impl ConvergenceDetector {
    /// The detector of a session that has just begun.
    pub fn new() -> (detector: ConvergenceDetector)
        ensures
            detector@ == Phase::Idle,
    {
        ConvergenceDetector { phase: Phase::Idle }
    }

    /// Where the session stands.
    pub fn phase(&self) -> (phase: Phase)
        ensures
            phase == self@,
    {
        self.phase
    }

    /// Whether the session is over.
    pub fn is_terminated(&self) -> (over: bool)
        ensures
            over == (self@ == Phase::Terminated),
    {
        match self.phase {
            Phase::Terminated => true,
            _ => false,
        }
    }

    /// One tick at `now`, at which `flashing_count` oscillators flash.
    pub fn advance(&mut self, flashing_count: usize, now: u64) -> (phase: Phase)
        ensures
            final(self)@ == next_phase(old(self)@, flashing_count as nat, now),
            phase == final(self)@,
    {
        match self.phase {
            Phase::Idle => {
                if flashing_count == OSCILLATOR_COUNT {
                    self.phase = Phase::Armed { armed_at: now };
                }
            },
            Phase::Armed { armed_at } => {
                if elapsed_nanos(now, armed_at) > GRACE {
                    self.phase = Phase::Terminated;
                }
            },
            Phase::Terminated => {},
        }
        self.phase
    }

    /// One tick at `now`: counts the oscillators that flash according to
    /// `tracker` and moves on by that count.
    pub fn tick(&mut self, tracker: &RecencyTracker, now: u64) -> (phase: Phase)
        ensures
            final(self)@ == next_phase(old(self)@, flashing_count(tracker@, now), now),
            phase == final(self)@,
    {
        let count: usize = tracker.flashing_count(now);
        self.advance(count, now)
    }
}

} // verus!
