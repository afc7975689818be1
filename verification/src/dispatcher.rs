//! The cue dispatcher: it takes fire events one by one, keeps the cue of each
//! identity from its first fire on, and records each fire for the display.

use crate::error::DispatchError;
use crate::note::Note;
use crate::note_map::NoteMap;
use crate::oscillator::FireEvent;
use crate::recency::RecencyTracker;
use vstd::prelude::*;

verus! {

/// Whether an event of `identity` makes the consumer load a cue: the cache,
/// which holds the cues of `cached`, has none of `identity`.
pub open spec fn must_load(cached: Set<Note>, identity: Note) -> bool {
    !cached.contains(identity)
}

/// The identities whose cue is in the cache once `events` have been processed,
/// in order, by a dispatcher that began with the cues of `cached`.
pub open spec fn cached_after(cached: Set<Note>, events: Seq<FireEvent>) -> Set<Note>
    decreases events.len(),
{
    if events.len() == 0 {
        cached
    } else {
        cached_after(cached, events.drop_last()).insert(events.last().identity)
    }
}

/// How many times the cue of `identity` is loaded while `events` are processed,
/// in order, by a dispatcher that began with the cues of `cached`: once for
/// each event of `identity` that finds no cue of it in the cache.
pub open spec fn loads_of(cached: Set<Note>, events: Seq<FireEvent>, identity: Note) -> nat
    decreases events.len(),
{
    if events.len() == 0 {
        0
    } else {
        let earlier = events.drop_last();
        let load_now: nat = if events.last().identity == identity && must_load(
            cached_after(cached, earlier),
            identity,
        ) {
            1
        } else {
            0
        };
        loads_of(cached, earlier, identity) + load_now
    }
}

/// The cue of an identity is loaded at most once in a session: never where the
/// dispatcher began with it, and else exactly once if the identity fires at all.
pub proof fn lemma_loaded_at_most_once(cached: Set<Note>, events: Seq<FireEvent>, identity: Note)
    ensures
        loads_of(cached, events, identity) <= 1,
        cached.contains(identity) ==> loads_of(cached, events, identity) == 0,
        loads_of(cached, events, identity) == 1 <==> !cached.contains(identity) && exists|i: int|
            0 <= i < events.len() && (#[trigger] events[i]).identity == identity,
        cached_after(cached, events).contains(identity) <==> cached.contains(identity) || loads_of(
            cached,
            events,
            identity,
        ) == 1,
    decreases events.len(),
{
    if events.len() > 0 {
        let earlier = events.drop_last();
        lemma_loaded_at_most_once(cached, earlier, identity);
        if exists|i: int| 0 <= i < events.len() && (#[trigger] events[i]).identity == identity {
            let i: int = choose|i: int|
                0 <= i < events.len() && (#[trigger] events[i]).identity == identity;
            if i < earlier.len() {
                assert(earlier[i].identity == identity);
            }
        }
    }
}

/// The cue dispatcher, with its cache of cues of type `R`.
#[derive(Debug)]
pub struct CueDispatcher<R> {
    cache: NoteMap<R>,
}

impl<R> View for CueDispatcher<R> {
    type V = Map<Note, R>;

    /// The cache: for each identity whose cue was loaded, that cue.
    closed spec fn view(&self) -> Map<Note, R> {
        self.cache@
    }
}

impl<R> CueDispatcher<R> {
    /// A dispatcher with an empty cache.
    pub fn new() -> (dispatcher: CueDispatcher<R>)
        ensures
            dispatcher@ == Map::<Note, R>::empty(),
    {
        CueDispatcher { cache: NoteMap::new() }
    }

    /// Whether an event of `identity` can only be processed with a cue that
    /// has just been loaded: the cache holds none.
    pub fn needs_load(&self, identity: Note) -> (needed: bool)
        ensures
            needed == must_load(self@.dom(), identity),
    {
        !self.cache.contains(identity)
    }

    /// The cue of `identity` in the cache, if there is one.
    pub fn cue(&self, identity: Note) -> (r: Option<&R>)
        ensures
            match r {
                Some(cue) => self@.contains_key(identity) && *cue == self@[identity],
                None => !self@.contains_key(identity),
            },
    {
        self.cache.get(identity)
    }

    /// Processes `event`. `fresh` is the cue of the event's identity, loaded
    /// just now, where the cache holds none, and nothing where it holds one.
    /// The cue goes into the cache, and the fire is recorded in `tracker`.
    /// Handed a cue it already has, or none where it has none, the dispatcher
    /// fails and leaves the cache and the tracker as they were.
    pub fn process(
        &mut self,
        event: FireEvent,
        fresh: Option<R>,
        tracker: &mut RecencyTracker,
    ) -> (r: Result<(), DispatchError>)
        ensures
            r is Ok <==> (fresh is Some <==> must_load(old(self)@.dom(), event.identity)),
            r is Ok ==> final(self)@.dom() == old(self)@.dom().insert(event.identity),
            match r {
                Ok(_) => {
                    &&& final(self)@ == match fresh {
                        Some(cue) => old(self)@.insert(event.identity, cue),
                        None => old(self)@,
                    }
                    &&& final(tracker)@ == old(tracker)@.insert(event.identity, event.fired_at)
                },
                Err(error) => {
                    &&& final(self)@ == old(self)@
                    &&& final(tracker)@ == old(tracker)@
                    &&& error == if fresh is Some {
                        DispatchError::ResourceAlreadyLoaded
                    } else {
                        DispatchError::ResourceMissing
                    }
                },
            },
    {
        let cached = self.cache.contains(event.identity);
        match fresh {
            Some(cue) => {
                if cached {
                    return Err(DispatchError::ResourceAlreadyLoaded);
                }
                self.cache.insert(event.identity, cue);
            },
            None => {
                if !cached {
                    return Err(DispatchError::ResourceMissing);
                }
            },
        }
        tracker.record(event.identity, event.fired_at);
        Ok(())
    }
}

} // verus!
