use mandala::error::ConfigError;
use mandala::note::{Note, NoteBank, OSCILLATOR_COUNT};
use mandala::note_map::NoteMap;
use mandala::time::{elapsed_nanos, FLASH_WINDOW, GRACE, NANOS_PER_SECOND, RATE_SCALE, SCALED_MINUTE};

const NINE: [Note; 9] = [
    Note::Mercury,
    Note::Venus,
    Note::Earth,
    Note::Mars,
    Note::Jupiter,
    Note::Saturn,
    Note::Uranus,
    Note::Neptune,
    Note::Pluto,
];

fn bank_of_nine() -> NoteBank {
    let mut samples: Vec<Vec<u8>> = Vec::new();
    for i in 0..9u8 {
        samples.push(vec![b'R', b'I', b'F', b'F', i, i + 1]);
    }
    NoteBank::new(samples).unwrap()
}

#[test]
fn there_are_nine_oscillators() {
    assert_eq!(OSCILLATOR_COUNT, 9);
    assert_eq!(Note::all().len(), 9);
}

#[test]
fn all_lists_the_identities_in_fixed_order() {
    assert_eq!(Note::all(), NINE.to_vec());
}

#[test]
fn index_counts_from_mercury_to_pluto() {
    for (i, note) in NINE.iter().enumerate() {
        assert_eq!(note.index(), i);
    }
}

#[test]
fn from_index_is_the_inverse_of_index() {
    for note in NINE {
        assert_eq!(Note::from_index(note.index()), Some(note));
    }
}

#[test]
fn from_index_knows_no_tenth_identity() {
    assert_eq!(Note::from_index(9), None);
    assert_eq!(Note::from_index(10), None);
    assert_eq!(Note::from_index(usize::MAX), None);
}

#[test]
fn rates_are_the_fixed_beats_per_minute() {
    assert_eq!(Note::Mercury.rate(), 12_456_000);
    assert_eq!(Note::Venus.rate(), 4_876_600);
    assert_eq!(Note::Earth.rate(), 30 * RATE_SCALE);
    assert_eq!(Note::Mars.rate(), 1_595_050);
    assert_eq!(Note::Jupiter.rate(), 252_913);
    assert_eq!(Note::Saturn.rate(), 101_845);
    assert_eq!(Note::Uranus.rate(), 35_710);
    assert_eq!(Note::Neptune.rate(), 18_210);
    assert_eq!(Note::Pluto.rate(), 12_113);
}

#[test]
fn periods_are_one_minute_divided_by_the_rate() {
    assert_eq!(Note::Mercury.period(), 481_695_568);
    assert_eq!(Note::Venus.period(), 1_230_365_418);
    assert_eq!(Note::Earth.period(), 2_000_000_000);
    assert_eq!(Note::Mars.period(), 3_761_637_566);
    assert_eq!(Note::Jupiter.period(), 23_723_572_928);
    assert_eq!(Note::Saturn.period(), 58_913_054_150);
    assert_eq!(Note::Uranus.period(), 168_020_162_419);
    assert_eq!(Note::Neptune.period(), 329_489_291_598);
    assert_eq!(Note::Pluto.period(), 495_335_589_862);
    for note in NINE {
        assert_eq!(note.period(), SCALED_MINUTE / note.rate());
        assert!(note.period() > 0);
    }
}

#[test]
fn periods_grow_from_mercury_to_pluto() {
    for pair in NINE.windows(2) {
        assert!(pair[0].period() < pair[1].period());
    }
}

#[test]
fn asset_names_follow_the_harmonic_series() {
    assert_eq!(Note::Mercury.asset_name(), "harmonic_series_1_61Hz.wav");
    assert_eq!(Note::Venus.asset_name(), "harmonic_series_2_123Hz.wav");
    assert_eq!(Note::Earth.asset_name(), "harmonic_series_3_185Hz.wav");
    assert_eq!(Note::Mars.asset_name(), "harmonic_series_4_246Hz.wav");
    assert_eq!(Note::Jupiter.asset_name(), "harmonic_series_5_311Hz.wav");
    assert_eq!(Note::Saturn.asset_name(), "harmonic_series_6_370Hz.wav");
    assert_eq!(Note::Uranus.asset_name(), "harmonic_series_7_440Hz.wav");
    assert_eq!(Note::Neptune.asset_name(), "harmonic_series_8_493Hz.wav");
    assert_eq!(Note::Pluto.asset_name(), "harmonic_series_9_554Hz.wav");
}

#[test]
fn orbits_are_twenty_five_pixels_apart() {
    assert_eq!(Note::Mercury.orbit_radius(), 50);
    assert_eq!(Note::Pluto.orbit_radius(), 250);
    for note in NINE {
        assert_eq!(note.orbit_radius(), 50 + 25 * note.index() as i32);
    }
}

#[test]
fn colors_are_the_fixed_ones() {
    assert_eq!(Note::Mercury.color(), (128, 128, 128));
    assert_eq!(Note::Venus.color(), (255, 165, 0));
    assert_eq!(Note::Earth.color(), (0, 0, 255));
    assert_eq!(Note::Mars.color(), (255, 100, 0));
    assert_eq!(Note::Jupiter.color(), (218, 165, 200));
    assert_eq!(Note::Saturn.color(), (210, 180, 140));
    assert_eq!(Note::Uranus.color(), (0, 255, 255));
    assert_eq!(Note::Neptune.color(), (0, 0, 139));
    assert_eq!(Note::Pluto.color(), (128, 128, 128));
}

#[test]
fn to_bytes_hands_out_the_sample_of_the_note() {
    let bank = bank_of_nine();
    assert_eq!(Note::Mercury.to_bytes(&bank), &[b'R', b'I', b'F', b'F', 0, 1][..]);
    assert_eq!(Note::Earth.to_bytes(&bank), &[b'R', b'I', b'F', b'F', 2, 3][..]);
    assert_eq!(Note::Pluto.to_bytes(&bank), &[b'R', b'I', b'F', b'F', 8, 9][..]);
    for note in NINE {
        let i = note.index() as u8;
        assert_eq!(note.to_bytes(&bank), &[b'R', b'I', b'F', b'F', i, i + 1][..]);
    }
}

#[test]
fn to_bytes_keeps_empty_samples_empty() {
    let bank = NoteBank::new(vec![Vec::new(); 9]).unwrap();
    assert!(Note::Jupiter.to_bytes(&bank).is_empty());
}

#[test]
fn a_bank_needs_exactly_nine_samples() {
    assert!(matches!(NoteBank::new(Vec::new()), Err(ConfigError::IncompleteBank)));
    assert!(matches!(NoteBank::new(vec![vec![1u8]; 8]), Err(ConfigError::IncompleteBank)));
    assert!(matches!(NoteBank::new(vec![vec![1u8]; 10]), Err(ConfigError::IncompleteBank)));
    assert!(NoteBank::new(vec![vec![1u8]; 9]).is_ok());
}

#[test]
fn a_new_note_map_is_empty() {
    let map: NoteMap<u32> = NoteMap::new();
    for note in NINE {
        assert!(!map.contains(note));
        assert_eq!(map.get(note), None);
    }
}

#[test]
fn a_note_map_keeps_one_entry_per_identity() {
    let mut map: NoteMap<String> = NoteMap::new();
    map.insert(Note::Mars, String::from("red"));
    map.insert(Note::Earth, String::from("blue"));
    assert!(map.contains(Note::Mars));
    assert!(map.contains(Note::Earth));
    assert!(!map.contains(Note::Venus));
    assert_eq!(map.get(Note::Mars), Some(&String::from("red")));
    assert_eq!(map.get(Note::Earth), Some(&String::from("blue")));
    map.insert(Note::Mars, String::from("rust"));
    assert_eq!(map.get(Note::Mars), Some(&String::from("rust")));
    assert_eq!(map.get(Note::Earth), Some(&String::from("blue")));
}

#[test]
fn elapsed_is_the_difference_of_two_times() {
    assert_eq!(elapsed_nanos(10, 3), 7);
    assert_eq!(elapsed_nanos(3, 3), 0);
    assert_eq!(elapsed_nanos(u64::MAX, 0), u64::MAX);
}

#[test]
fn elapsed_is_zero_when_the_clock_went_backward() {
    assert_eq!(elapsed_nanos(3, 10), 0);
    assert_eq!(elapsed_nanos(0, u64::MAX), 0);
}

#[test]
fn the_windows_are_a_fifth_of_a_second_and_three_seconds() {
    assert_eq!(FLASH_WINDOW, NANOS_PER_SECOND / 5);
    assert_eq!(GRACE, 3 * NANOS_PER_SECOND);
    assert_eq!(SCALED_MINUTE, 60 * NANOS_PER_SECOND * RATE_SCALE);
}
