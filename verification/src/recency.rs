//! The recency tracker: when each oscillator last fired, and which of them
//! are still flashing.

use crate::note::{note_at, Note, OSCILLATOR_COUNT};
use crate::note_map::NoteMap;
use crate::time::{elapsed, elapsed_nanos, FLASH_WINDOW};
use vstd::prelude::*;

verus! {

/// Whether `note` is flashing at `now`: it has fired, and less than the flash
/// window has passed since its last fire.
pub open spec fn flashing(fires: Map<Note, u64>, note: Note, now: u64) -> bool {
    fires.contains_key(note) && elapsed(now, fires[note]) < FLASH_WINDOW
}

/// The identities that are flashing at `now`.
pub open spec fn flashing_notes(fires: Map<Note, u64>, now: u64) -> Set<Note> {
    Set::new(|note: Note| flashing(fires, note, now))
}

/// How many identities are flashing at `now`.
pub open spec fn flashing_count(fires: Map<Note, u64>, now: u64) -> nat {
    flashing_notes(fires, now).len()
}

/// One if `note` is flashing at `now`, zero if it is not.
pub open spec fn lit(fires: Map<Note, u64>, note: Note, now: u64) -> nat {
    if flashing(fires, note, now) {
        1
    } else {
        0
    }
}

/// The identities before position `bound` of the fixed order that are flashing.
spec fn flashing_below(fires: Map<Note, u64>, now: u64, bound: int) -> Set<Note> {
    Set::new(|note: Note| note.spec_index() < bound && flashing(fires, note, now))
}

/// None of the identities before position 0 is flashing: there are none.
proof fn lemma_flashing_below_none(fires: Map<Note, u64>, now: u64)
    ensures
        flashing_below(fires, now, 0).finite(),
        flashing_below(fires, now, 0).len() == 0,
{
    assert(flashing_below(fires, now, 0) =~= Set::<Note>::empty());
}

/// Among the identities before position `i + 1`, one more is flashing than
/// among those before position `i` if the identity at position `i` is.
proof fn lemma_flashing_below_next(fires: Map<Note, u64>, now: u64, i: int)
    requires
        0 <= i < 9,
        flashing_below(fires, now, i).finite(),
    ensures
        flashing_below(fires, now, i + 1).finite(),
        flashing_below(fires, now, i + 1).len() == flashing_below(fires, now, i).len() + lit(
            fires,
            note_at(i),
            now,
        ),
{
    let before = flashing_below(fires, now, i);
    let after = flashing_below(fires, now, i + 1);
    if flashing(fires, note_at(i), now) {
        assert(after =~= before.insert(note_at(i)));
    } else {
        assert(after =~= before);
    }
}

/// The number of flashing identities is the number of those among the nine
/// that flash.
pub proof fn lemma_flashing_count_sum(fires: Map<Note, u64>, now: u64)
    ensures
        flashing_notes(fires, now).finite(),
        flashing_count(fires, now) == lit(fires, Note::Mercury, now) + lit(fires, Note::Venus, now)
            + lit(fires, Note::Earth, now) + lit(fires, Note::Mars, now) + lit(
            fires,
            Note::Jupiter,
            now,
        ) + lit(fires, Note::Saturn, now) + lit(fires, Note::Uranus, now) + lit(
            fires,
            Note::Neptune,
            now,
        ) + lit(fires, Note::Pluto, now),
{
    lemma_flashing_below_none(fires, now);
    lemma_flashing_below_next(fires, now, 0);
    lemma_flashing_below_next(fires, now, 1);
    lemma_flashing_below_next(fires, now, 2);
    lemma_flashing_below_next(fires, now, 3);
    lemma_flashing_below_next(fires, now, 4);
    lemma_flashing_below_next(fires, now, 5);
    lemma_flashing_below_next(fires, now, 6);
    lemma_flashing_below_next(fires, now, 7);
    lemma_flashing_below_next(fires, now, 8);
    assert(flashing_below(fires, now, 9) =~= flashing_notes(fires, now));
}

/// At most nine identities flash at once, and nine do exactly when every one does.
pub proof fn lemma_flashing_count(fires: Map<Note, u64>, now: u64)
    ensures
        flashing_count(fires, now) <= 9,
        flashing_count(fires, now) == 9 <==> forall|note: Note| flashing(fires, note, now),
{
    lemma_flashing_count_sum(fires, now);
    if flashing_count(fires, now) == 9 {
        assert forall|note: Note| flashing(fires, note, now) by {
            assert(lit(fires, note, now) == 1);
        }
    }
}

/// An identity flashes at the moment at which its fire is recorded, whatever
/// was recorded before, and from then on for as long as less than the flash
/// window has passed. Once the window has passed it flashes no more.
pub proof fn lemma_flashing_after_record(fires: Map<Note, u64>, note: Note, at: u64, later: u64)
    ensures
        flashing(fires.insert(note, at), note, at),
        at <= later < at + FLASH_WINDOW ==> flashing(fires.insert(note, at), note, later),
        later - at >= FLASH_WINDOW ==> !flashing(fires.insert(note, at), note, later),
{
}

/// For each identity that has fired, the time of its last fire.
#[derive(Debug)]
pub struct RecencyTracker {
    last_fired: NoteMap<u64>,
}

impl View for RecencyTracker {
    type V = Map<Note, u64>;

    closed spec fn view(&self) -> Map<Note, u64> {
        self.last_fired@
    }
}

impl RecencyTracker {
    /// A tracker in which no identity has fired yet.
    pub fn new() -> (tracker: RecencyTracker)
        ensures
            tracker@ == Map::<Note, u64>::empty(),
    {
        RecencyTracker { last_fired: NoteMap::new() }
    }

    /// Records that `identity` fired at `timestamp`, in place of its earlier fire.
    pub fn record(&mut self, identity: Note, timestamp: u64)
        ensures
            final(self)@ == old(self)@.insert(identity, timestamp),
    {
        self.last_fired.insert(identity, timestamp);
    }

    /// The time at which `identity` last fired, if it has fired.
    pub fn last_fired(&self, identity: Note) -> (r: Option<u64>)
        ensures
            r == if self@.contains_key(identity) {
                Some(self@[identity])
            } else {
                None
            },
    {
        match self.last_fired.get(identity) {
            Some(timestamp) => Some(*timestamp),
            None => None,
        }
    }

    /// Whether `identity` is flashing at `now`.
    pub fn is_flashing(&self, identity: Note, now: u64) -> (b: bool)
        ensures
            b == flashing(self@, identity, now),
    {
        match self.last_fired.get(identity) {
            Some(timestamp) => elapsed_nanos(now, *timestamp) < FLASH_WINDOW,
            None => false,
        }
    }

    /// How many identities are flashing at `now`.
    pub fn flashing_count(&self, now: u64) -> (count: usize)
        ensures
            count == flashing_count(self@, now),
            count <= OSCILLATOR_COUNT,
    {
        let mut count: usize = 0;
        let mut i: usize = 0;
        proof {
            lemma_flashing_below_none(self@, now);
        }
        while i < OSCILLATOR_COUNT
            invariant
                i <= OSCILLATOR_COUNT,
                count <= i,
                flashing_below(self@, now, i as int).finite(),
                count == flashing_below(self@, now, i as int).len(),
            decreases OSCILLATOR_COUNT - i,
        {
            let note = Note::from_index(i).unwrap();
            proof {
                lemma_flashing_below_next(self@, now, i as int);
            }
            if self.is_flashing(note, now) {
                count = count + 1;
            }
            i = i + 1;
        }
        assert(flashing_below(self@, now, 9) =~= flashing_notes(self@, now));
        count
    }
}

} // verus!
