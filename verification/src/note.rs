//! The nine oscillator identities and what is fixed for each of them.

use crate::error::ConfigError;
use crate::time::{period_of_rate, SCALED_MINUTE};
use vstd::prelude::*;

verus! {

/// Number of oscillators in a session.
pub const OSCILLATOR_COUNT: usize = 9;

/// Identity of an oscillator. The set is closed: exactly nine exist.
#[derive(Debug, Clone, Copy, PartialEq, Eq, Hash, Structural)]
pub enum Note {
    Mercury,
    Venus,
    Earth,
    Mars,
    Jupiter,
    Saturn,
    Uranus,
    Neptune,
    Pluto,
}

/// Identity at position `i` of the fixed order, for `i` from 0 to 8.
pub open spec fn note_at(i: int) -> Note {
    if i == 0 {
        Note::Mercury
    } else if i == 1 {
        Note::Venus
    } else if i == 2 {
        Note::Earth
    } else if i == 3 {
        Note::Mars
    } else if i == 4 {
        Note::Jupiter
    } else if i == 5 {
        Note::Saturn
    } else if i == 6 {
        Note::Uranus
    } else if i == 7 {
        Note::Neptune
    } else {
        Note::Pluto
    }
}

/// The nine identities in their fixed order.
pub open spec fn all_notes() -> Seq<Note> {
    Seq::new(9, |i: int| note_at(i))
}

impl Note {
    /// Position of the identity in the fixed order Mercury, ..., Pluto.
    pub open spec fn spec_index(self) -> nat {
        match self {
            Note::Mercury => 0,
            Note::Venus => 1,
            Note::Earth => 2,
            Note::Mars => 3,
            Note::Jupiter => 4,
            Note::Saturn => 5,
            Note::Uranus => 6,
            Note::Neptune => 7,
            Note::Pluto => 8,
        }
    }

    /// Rate of the identity in beats per minute, multiplied by `RATE_SCALE`.
    pub open spec fn spec_rate(self) -> u64 {
        match self {
            Note::Mercury => 12_456_000,
            Note::Venus => 4_876_600,
            Note::Earth => 3_000_000,
            Note::Mars => 1_595_050,
            Note::Jupiter => 252_913,
            Note::Saturn => 101_845,
            Note::Uranus => 35_710,
            Note::Neptune => 18_210,
            Note::Pluto => 12_113,
        }
    }

    /// Length of one cycle of the identity in nanoseconds.
    pub open spec fn spec_period(self) -> nat {
        period_of_rate(self.spec_rate())
    }

    /// Name of the file that holds the identity's cue sample.
    pub open spec fn spec_asset_name(self) -> Seq<char> {
        match self {
            Note::Mercury => "harmonic_series_1_61Hz.wav"@,
            Note::Venus => "harmonic_series_2_123Hz.wav"@,
            Note::Earth => "harmonic_series_3_185Hz.wav"@,
            Note::Mars => "harmonic_series_4_246Hz.wav"@,
            Note::Jupiter => "harmonic_series_5_311Hz.wav"@,
            Note::Saturn => "harmonic_series_6_370Hz.wav"@,
            Note::Uranus => "harmonic_series_7_440Hz.wav"@,
            Note::Neptune => "harmonic_series_8_493Hz.wav"@,
            Note::Pluto => "harmonic_series_9_554Hz.wav"@,
        }
    }

    /// Radius of the circle on which the identity is drawn, in pixels.
    pub open spec fn spec_orbit_radius(self) -> int {
        50 + 25 * (self.spec_index() as int)
    }

    /// Colour in which the identity is drawn: red, green and blue.
    pub open spec fn spec_color(self) -> (u8, u8, u8) {
        match self {
            Note::Mercury => (128, 128, 128),
            Note::Venus => (255, 165, 0),
            Note::Earth => (0, 0, 255),
            Note::Mars => (255, 100, 0),
            Note::Jupiter => (218, 165, 200),
            Note::Saturn => (210, 180, 140),
            Note::Uranus => (0, 255, 255),
            Note::Neptune => (0, 0, 139),
            Note::Pluto => (128, 128, 128),
        }
    }

    /// Position of the identity in the fixed order Mercury, ..., Pluto.
    pub fn index(self) -> (i: usize)
        ensures
            i == self.spec_index(),
            i < OSCILLATOR_COUNT,
            note_at(i as int) == self,
    {
        match self {
            Note::Mercury => 0,
            Note::Venus => 1,
            Note::Earth => 2,
            Note::Mars => 3,
            Note::Jupiter => 4,
            Note::Saturn => 5,
            Note::Uranus => 6,
            Note::Neptune => 7,
            Note::Pluto => 8,
        }
    }

    /// The identity at position `i`, if there is one.
    pub fn from_index(i: usize) -> (r: Option<Note>)
        ensures
            i < OSCILLATOR_COUNT ==> r == Some(note_at(i as int)) && note_at(i as int).spec_index()
                == i,
            i >= OSCILLATOR_COUNT ==> r is None,
    {
        match i {
            0 => Some(Note::Mercury),
            1 => Some(Note::Venus),
            2 => Some(Note::Earth),
            3 => Some(Note::Mars),
            4 => Some(Note::Jupiter),
            5 => Some(Note::Saturn),
            6 => Some(Note::Uranus),
            7 => Some(Note::Neptune),
            8 => Some(Note::Pluto),
            _ => None,
        }
    }

    /// The nine identities in their fixed order.
    pub fn all() -> (notes: Vec<Note>)
        ensures
            notes@ == all_notes(),
    {
        vec![
            Note::Mercury,
            Note::Venus,
            Note::Earth,
            Note::Mars,
            Note::Jupiter,
            Note::Saturn,
            Note::Uranus,
            Note::Neptune,
            Note::Pluto,
        ]
    }

    /// Rate of the identity in beats per minute, multiplied by `RATE_SCALE`.
    pub fn rate(self) -> (rate: u64)
        ensures
            rate == self.spec_rate(),
            0 < rate <= SCALED_MINUTE,
    {
        match self {
            Note::Mercury => 12_456_000,
            Note::Venus => 4_876_600,
            Note::Earth => 3_000_000,
            Note::Mars => 1_595_050,
            Note::Jupiter => 252_913,
            Note::Saturn => 101_845,
            Note::Uranus => 35_710,
            Note::Neptune => 18_210,
            Note::Pluto => 12_113,
        }
    }

    /// Length of one cycle of the identity in nanoseconds.
    pub fn period(self) -> (period: u64)
        ensures
            period == self.spec_period(),
            0 < period <= 495_335_589_862,
    {
        proof {
            lemma_period_table();
        }
        SCALED_MINUTE / self.rate()
    }

    /// Name of the file that holds the identity's cue sample.
    pub fn asset_name(self) -> (name: &'static str)
        ensures
            name@ == self.spec_asset_name(),
    {
        match self {
            Note::Mercury => "harmonic_series_1_61Hz.wav",
            Note::Venus => "harmonic_series_2_123Hz.wav",
            Note::Earth => "harmonic_series_3_185Hz.wav",
            Note::Mars => "harmonic_series_4_246Hz.wav",
            Note::Jupiter => "harmonic_series_5_311Hz.wav",
            Note::Saturn => "harmonic_series_6_370Hz.wav",
            Note::Uranus => "harmonic_series_7_440Hz.wav",
            Note::Neptune => "harmonic_series_8_493Hz.wav",
            Note::Pluto => "harmonic_series_9_554Hz.wav",
        }
    }

    /// Radius of the circle on which the identity is drawn, in pixels.
    pub fn orbit_radius(self) -> (radius: i32)
        ensures
            radius == self.spec_orbit_radius(),
    {
        match self {
            Note::Mercury => 50,
            Note::Venus => 75,
            Note::Earth => 100,
            Note::Mars => 125,
            Note::Jupiter => 150,
            Note::Saturn => 175,
            Note::Uranus => 200,
            Note::Neptune => 225,
            Note::Pluto => 250,
        }
    }

    /// Colour in which the identity is drawn: red, green and blue.
    pub fn color(self) -> (rgb: (u8, u8, u8))
        ensures
            rgb == self.spec_color(),
    {
        match self {
            Note::Mercury => (128, 128, 128),
            Note::Venus => (255, 165, 0),
            Note::Earth => (0, 0, 255),
            Note::Mars => (255, 100, 0),
            Note::Jupiter => (218, 165, 200),
            Note::Saturn => (210, 180, 140),
            Note::Uranus => (0, 255, 255),
            Note::Neptune => (0, 0, 139),
            Note::Pluto => (128, 128, 128),
        }
    }

    /// The identity's cue sample, as `bank` holds it.
    pub fn to_bytes<'a>(&self, bank: &'a NoteBank) -> (bytes: &'a [u8])
        ensures
            bytes@ == bank.sample(*self),
    {
        proof {
            use_type_invariant(bank);
        }
        bank.samples[self.index()].as_slice()
    }
}

/// The periods of the nine identities, in nanoseconds.
pub proof fn lemma_period_table()
    ensures
        Note::Mercury.spec_period() == 481_695_568,
        Note::Venus.spec_period() == 1_230_365_418,
        Note::Earth.spec_period() == 2_000_000_000,
        Note::Mars.spec_period() == 3_761_637_566,
        Note::Jupiter.spec_period() == 23_723_572_928,
        Note::Saturn.spec_period() == 58_913_054_150,
        Note::Uranus.spec_period() == 168_020_162_419,
        Note::Neptune.spec_period() == 329_489_291_598,
        Note::Pluto.spec_period() == 495_335_589_862,
        forall|note: Note| 0 < #[trigger] note.spec_period() <= 495_335_589_862,
{
    assert(SCALED_MINUTE == 6_000_000_000_000_000);
    assert(6_000_000_000_000_000nat / 12_456_000nat == 481_695_568);
    assert(6_000_000_000_000_000nat / 4_876_600nat == 1_230_365_418);
    assert(6_000_000_000_000_000nat / 3_000_000nat == 2_000_000_000);
    assert(6_000_000_000_000_000nat / 1_595_050nat == 3_761_637_566);
    assert(6_000_000_000_000_000nat / 252_913nat == 23_723_572_928);
    assert(6_000_000_000_000_000nat / 101_845nat == 58_913_054_150);
    assert(6_000_000_000_000_000nat / 35_710nat == 168_020_162_419);
    assert(6_000_000_000_000_000nat / 18_210nat == 329_489_291_598);
    assert(6_000_000_000_000_000nat / 12_113nat == 495_335_589_862);
}

/// The cue samples of a session, one per identity.
#[derive(Debug)]
pub struct NoteBank {
    samples: Vec<Vec<u8>>,
}

impl NoteBank {
    #[verifier::type_invariant]
    spec fn complete(self) -> bool {
        self.samples@.len() == 9
    }

    /// The sample that the bank holds for `note`.
    pub closed spec fn sample(self, note: Note) -> Seq<u8> {
        self.samples@[note.spec_index() as int]@
    }

    /// A bank of the given samples, the first for Mercury and the ninth for Pluto.
    /// Any other number of samples is refused.
    pub fn new(samples: Vec<Vec<u8>>) -> (r: Result<NoteBank, ConfigError>)
        ensures
            samples@.len() == 9 ==> r is Ok && forall|note: Note|
                #[trigger] r.unwrap().sample(note) == samples@[note.spec_index() as int]@,
            samples@.len() != 9 ==> r == Err::<NoteBank, ConfigError>(ConfigError::IncompleteBank),
    {
        if samples.len() == 9 {
            Ok(NoteBank { samples })
        } else {
            Err(ConfigError::IncompleteBank)
        }
    }
}

} // verus!
