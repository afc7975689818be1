//! The cooperative fire scheduler: one loop owns all nine oscillators and
//! checks them against the clock once per frame.

use crate::note::{all_notes, note_at, Note, OSCILLATOR_COUNT};
use crate::oscillator::{FireEvent, Oscillator, OscillatorModel};
use vstd::prelude::*;

verus! {

/// Those of `notes` whose oscillator is due at `now`, in the order of `notes`.
pub open spec fn due_among(
    notes: Seq<Note>,
    oscillators: Map<Note, OscillatorModel>,
    now: nat,
) -> Seq<Note> {
    notes.filter(|note: Note| oscillators[note].is_due(now))
}

/// The events of a check at `now` for the oscillators of `notes`: one for each
/// that is due, in the order of `notes`, each stamped with `now`.
pub open spec fn events_among(
    notes: Seq<Note>,
    oscillators: Map<Note, OscillatorModel>,
    now: u64,
) -> Seq<FireEvent> {
    due_among(notes, oscillators, now as nat).map_values(|note: Note| oscillators[note].event(now))
}

/// The events of a check at `now`: one for each oscillator that is due, in the
/// fixed order of the identities, each stamped with `now`.
pub open spec fn due_events(oscillators: Map<Note, OscillatorModel>, now: u64) -> Seq<FireEvent> {
    events_among(all_notes(), oscillators, now)
}

/// The events among the first `i + 1` identities are those among the first
/// `i`, followed by the event of the identity at position `i` if it is due.
proof fn lemma_events_among_next(oscillators: Map<Note, OscillatorModel>, now: u64, i: int)
    requires
        0 <= i < 9,
    ensures
        events_among(all_notes().take(i + 1), oscillators, now) == if oscillators[note_at(
            i,
        )].is_due(now as nat) {
            events_among(all_notes().take(i), oscillators, now).push(
                oscillators[note_at(i)].event(now),
            )
        } else {
            events_among(all_notes().take(i), oscillators, now)
        },
{
    let shorter = all_notes().take(i);
    let longer = all_notes().take(i + 1);
    assert(longer.drop_last() =~= shorter);
    reveal(Seq::filter);
}

/// The oscillators after a check at `now`: each one that is due has fired.
pub open spec fn polled_all(oscillators: Map<Note, OscillatorModel>, now: u64) -> Map<
    Note,
    OscillatorModel,
> {
    oscillators.map_values(|m: OscillatorModel| m.polled(now as nat))
}

/// Every identity has its own oscillator, and no period is zero.
pub open spec fn complete(oscillators: Map<Note, OscillatorModel>) -> bool {
    forall|note: Note|
        oscillators.contains_key(note) && (#[trigger] oscillators[note]).identity == note
            && oscillators[note].period > 0
}

/// The nine oscillators at their fixed rates, all first due at `start`.
pub open spec fn oscillators_at_start(start: u64) -> Map<Note, OscillatorModel> {
    Map::total(
        |note: Note|
            OscillatorModel { identity: note, period: note.spec_period(), next_due: start as nat },
    )
}

/// No fire is doubled: a second check at the time of the first finds no
/// oscillator due, so it emits no event.
pub proof fn lemma_second_check_fires_nothing(oscillators: Map<Note, OscillatorModel>, now: u64)
    requires
        complete(oscillators),
    ensures
        due_events(polled_all(oscillators, now), now) == Seq::<FireEvent>::empty(),
{
    let after = polled_all(oscillators, now);
    let due = due_among(all_notes(), after, now as nat);
    let is_due = |note: Note| after[note].is_due(now as nat);
    if due.len() > 0 {
        let note = due[0];
        all_notes().lemma_filter_pred(is_due, 0);
        assert(after[note] == oscillators[note].polled(now as nat));
    }
}

/// The nine oscillators of a session under the cooperative policy.
#[derive(Debug)]
pub struct Scheduler {
    oscillators: [Oscillator; 9],
}

impl View for Scheduler {
    type V = Map<Note, OscillatorModel>;

    closed spec fn view(&self) -> Map<Note, OscillatorModel> {
        Map::total(|note: Note| self.oscillators@[note.spec_index() as int]@)
    }
}

impl Scheduler {
    #[verifier::type_invariant]
    spec fn in_fixed_order(self) -> bool {
        forall|i: int|
            0 <= i < 9 ==> (#[trigger] self.oscillators@[i])@.identity == note_at(i) && (
            #[trigger] self.oscillators@[i])@.period > 0
    }

    /// The nine oscillators at their fixed rates, all first due at `start`.
    pub fn new(start: u64) -> (scheduler: Scheduler)
        ensures
            scheduler@ == oscillators_at_start(start),
            complete(scheduler@),
    {
        Scheduler {
            oscillators: [
                Oscillator::for_note(Note::Mercury, start),
                Oscillator::for_note(Note::Venus, start),
                Oscillator::for_note(Note::Earth, start),
                Oscillator::for_note(Note::Mars, start),
                Oscillator::for_note(Note::Jupiter, start),
                Oscillator::for_note(Note::Saturn, start),
                Oscillator::for_note(Note::Uranus, start),
                Oscillator::for_note(Note::Neptune, start),
                Oscillator::for_note(Note::Pluto, start),
            ],
        }
    }

    /// The oscillator of `note` as it stands.
    pub fn oscillator(&self, note: Note) -> (oscillator: Oscillator)
        ensures
            oscillator@ == self@[note],
            complete(self@),
    {
        proof {
            use_type_invariant(self);
        }
        self.oscillators[note.index()]
    }

    /// Whether a check at `now` stays within the range of the clock: no
    /// oscillator that is due would get a due time beyond it.
    pub open spec fn spec_can_tick(self, now: u64) -> bool {
        forall|note: Note|
            (#[trigger] self@[note]).is_due(now as nat) ==> now + self@[note].period <= u64::MAX
    }

    /// Whether a check at `now` stays within the range of the clock.
    pub fn can_tick(&self, now: u64) -> (ok: bool)
        ensures
            ok == self.spec_can_tick(now),
            complete(self@),
    {
        proof {
            use_type_invariant(self);
        }
        let mut ok: bool = true;
        let mut i: usize = 0;
        while i < OSCILLATOR_COUNT
            invariant
                i <= OSCILLATOR_COUNT,
                ok == forall|j: int|
                    0 <= j < i ==> ((#[trigger] self.oscillators@[j])@.is_due(now as nat) ==> now
                        + self.oscillators@[j]@.period <= u64::MAX),
            decreases OSCILLATOR_COUNT - i,
        {
            let oscillator = self.oscillators[i];
            if oscillator.is_due(now) && oscillator.period() > u64::MAX - now {
                ok = false;
            }
            i = i + 1;
        }
        proof {
            if ok {
                assert forall|note: Note| (#[trigger] self@[note]).is_due(now as nat) implies now
                    + self@[note].period <= u64::MAX by {
                    let j: int = note.spec_index() as int;
                    assert(self.oscillators@[j]@.is_due(now as nat));
                }
            } else {
                let j: int = choose|j: int|
                    0 <= j < 9 && !((#[trigger] self.oscillators@[j])@.is_due(now as nat) ==> now
                        + self.oscillators@[j]@.period <= u64::MAX);
                assert(self@[note_at(j)] == self.oscillators@[j]@);
            }
        }
        ok
    }

    /// One check of all oscillators at `now`. Each oscillator that is due fires
    /// once and is next due one period after `now`; the others stay as they
    /// are. The events come back in the fixed order of the identities.
    pub fn tick(&mut self, now: u64) -> (events: Vec<FireEvent>)
        requires
            old(self).spec_can_tick(now),
        ensures
            final(self)@ == polled_all(old(self)@, now),
            events@ == due_events(old(self)@, now),
            events@.len() <= OSCILLATOR_COUNT,
            complete(old(self)@),
            complete(final(self)@),
    {
        proof {
            use_type_invariant(&*self);
        }
        let ghost before = self.oscillators@;
        let ghost models = self@;
        let mut events: Vec<FireEvent> = Vec::new();
        let mut i: usize = 0;
        while i < OSCILLATOR_COUNT
            invariant
                i <= OSCILLATOR_COUNT,
                models == old(self)@,
                before == old(self).oscillators@,
                old(self).spec_can_tick(now),
                forall|j: int|
                    0 <= j < 9 ==> (#[trigger] before[j])@.identity == note_at(j) && before[j]@.period
                        > 0,
                forall|j: int|
                    0 <= j < i ==> (#[trigger] self.oscillators@[j])@ == before[j]@.polled(now as nat),
                forall|j: int| i <= j < 9 ==> #[trigger] self.oscillators@[j] == before[j],
                events@ == events_among(all_notes().take(i as int), models, now),
            decreases OSCILLATOR_COUNT - i,
        {
            proof {
                lemma_events_among_next(models, now, i as int);
            }
            let mut oscillator = self.oscillators[i];
            let fired = oscillator.poll(now);
            self.oscillators[i] = oscillator;
            match fired {
                Some(event) => {
                    events.push(event);
                },
                None => {},
            }
            i = i + 1;
        }
        proof {
            assert(all_notes().take(9) =~= all_notes());
            all_notes().lemma_filter_len(|note: Note| models[note].is_due(now as nat));
        }
        events
    }
}

} // verus!
