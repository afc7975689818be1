//! A map keyed by oscillator identity, with one slot per identity.

use crate::note::Note;
use vstd::prelude::*;

verus! {

/// A map from identities to values of `T`. An entry, once made, is never removed.
#[derive(Debug)]
pub struct NoteMap<T> {
    slots: [Option<T>; 9],
}

impl<T> View for NoteMap<T> {
    type V = Map<Note, T>;

    closed spec fn view(&self) -> Map<Note, T> {
        Map::new(
            |note: Note| self.slots@[note.spec_index() as int] is Some,
            |note: Note| self.slots@[note.spec_index() as int]->0,
        )
    }
}

impl<T> NoteMap<T> {
    /// A map without entries.
    pub fn new() -> (map: NoteMap<T>)
        ensures
            map@ == Map::<Note, T>::empty(),
    {
        NoteMap { slots: [None, None, None, None, None, None, None, None, None] }
    }

    /// Whether the map has an entry for `note`.
    pub fn contains(&self, note: Note) -> (b: bool)
        ensures
            b == self@.contains_key(note),
    {
        self.slots[note.index()].is_some()
    }

    /// The entry for `note`, if there is one.
    pub fn get(&self, note: Note) -> (r: Option<&T>)
        ensures
            match r {
                Some(value) => self@.contains_key(note) && *value == self@[note],
                None => !self@.contains_key(note),
            },
    {
        self.slots[note.index()].as_ref()
    }

    /// Makes `value` the entry for `note`, in place of an earlier one if there was any.
    pub fn insert(&mut self, note: Note, value: T)
        ensures
            final(self)@ == old(self)@.insert(note, value),
    {
        self.slots[note.index()] = Some(value);
    }
}

} // verus!
