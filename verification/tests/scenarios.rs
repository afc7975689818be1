use mandala::channel::EventChannel;
use mandala::convergence::{ConvergenceDetector, Phase};
use mandala::dispatcher::CueDispatcher;
use mandala::note::Note;
use mandala::oscillator::{FireEvent, Oscillator};
use mandala::recency::RecencyTracker;
use mandala::scheduler::Scheduler;

const NINE: [Note; 9] = [
    Note::Mercury,
    Note::Venus,
    Note::Earth,
    Note::Mars,
    Note::Jupiter,
    Note::Saturn,
    Note::Uranus,
    Note::Neptune,
    Note::Pluto,
];

const SECOND: u64 = 1_000_000_000;
const MILLI: u64 = 1_000_000;

#[test]
fn a_two_second_oscillator_flashes_for_a_fifth_of_a_second() {
    let mut oscillator = Oscillator::new(Note::Earth, 2 * SECOND, 0).unwrap();
    let mut tracker = RecencyTracker::new();
    let fired = oscillator.poll(0).unwrap();
    assert_eq!(fired, FireEvent { identity: Note::Earth, fired_at: 0 });
    tracker.record(fired.identity, fired.fired_at);
    assert!(tracker.is_flashing(Note::Earth, 100 * MILLI));
    assert!(!tracker.is_flashing(Note::Earth, 300 * MILLI));
    assert_eq!(oscillator.poll(100 * MILLI), None);
    assert_eq!(oscillator.poll(300 * MILLI), None);
    assert_eq!(oscillator.poll(2 * SECOND - 1), None);
    assert_eq!(oscillator.next_due(), 2 * SECOND);
    assert_eq!(
        oscillator.poll(2 * SECOND),
        Some(FireEvent { identity: Note::Earth, fired_at: 2 * SECOND })
    );
}

#[test]
fn nine_fires_within_fifty_millis_arm_and_end_the_session() {
    let mut tracker = RecencyTracker::new();
    let mut detector = ConvergenceDetector::new();
    let mut dispatcher: CueDispatcher<u8> = CueDispatcher::new();
    assert_eq!(detector.tick(&tracker, 9 * SECOND), Phase::Idle);
    for (i, note) in NINE.iter().enumerate() {
        let fired_at = 10 * SECOND + 6 * MILLI * i as u64;
        let event = FireEvent { identity: *note, fired_at };
        dispatcher.process(event, Some(i as u8), &mut tracker).unwrap();
        if i < 8 {
            assert_eq!(detector.tick(&tracker, fired_at), Phase::Idle);
        }
    }
    let all_lit = 10 * SECOND + 50 * MILLI;
    assert_eq!(tracker.flashing_count(all_lit), 9);
    assert_eq!(detector.tick(&tracker, all_lit), Phase::Armed { armed_at: all_lit });
    assert_eq!(detector.tick(&tracker, 11 * SECOND), Phase::Armed { armed_at: all_lit });
    assert_eq!(tracker.flashing_count(13 * SECOND), 0);
    assert_eq!(detector.tick(&tracker, 13 * SECOND), Phase::Armed { armed_at: all_lit });
    assert_eq!(detector.tick(&tracker, all_lit + 3 * SECOND), Phase::Armed { armed_at: all_lit });
    assert_eq!(detector.tick(&tracker, all_lit + 3 * SECOND + 1), Phase::Terminated);
    assert_eq!(detector.tick(&tracker, 14 * SECOND), Phase::Terminated);
}

#[test]
fn a_cooperative_session_arms_at_its_first_frame() {
    let mut scheduler = Scheduler::new(0);
    let mut dispatcher: CueDispatcher<usize> = CueDispatcher::new();
    let mut tracker = RecencyTracker::new();
    let mut detector = ConvergenceDetector::new();
    let mut ended_at: Option<u64> = None;
    let mut now: u64 = 0;
    while ended_at.is_none() {
        assert!(scheduler.can_tick(now));
        for fired in scheduler.tick(now) {
            let fresh =
                if dispatcher.needs_load(fired.identity) { Some(fired.identity.index()) } else { None };
            dispatcher.process(fired, fresh, &mut tracker).unwrap();
        }
        match detector.tick(&tracker, now) {
            Phase::Terminated => ended_at = Some(now),
            Phase::Armed { armed_at } => assert_eq!(armed_at, 0),
            Phase::Idle => panic!("all nine fire at the start"),
        }
        now += 16 * MILLI;
        assert!(now < 10 * SECOND);
    }
    assert_eq!(ended_at, Some(3_008 * MILLI));
}

#[test]
fn timers_feed_one_consumer_through_the_channel() {
    let mut mercury = Oscillator::for_note(Note::Mercury, 0);
    let mut venus = Oscillator::for_note(Note::Venus, 0);
    let mut channel = EventChannel::new();
    let mut dispatcher: CueDispatcher<Note> = CueDispatcher::new();
    let mut tracker = RecencyTracker::new();
    let mut loads: u32 = 0;
    let horizon = 10 * SECOND;
    let (mut wake_mercury, mut wake_venus) = (0u64, 0u64);
    while wake_mercury < horizon || wake_venus < horizon {
        if wake_mercury <= wake_venus {
            channel.send(mercury.fire(wake_mercury));
            wake_mercury += mercury.period();
        } else {
            channel.send(venus.fire(wake_venus));
            wake_venus += venus.period();
        }
    }
    let mut last_seen: [Option<u64>; 9] = [None; 9];
    let mut handled: u32 = 0;
    while let Some(fired) = channel.try_recv() {
        let slot = fired.identity.index();
        if let Some(earlier) = last_seen[slot] {
            assert!(earlier < fired.fired_at);
        }
        last_seen[slot] = Some(fired.fired_at);
        let fresh = if dispatcher.needs_load(fired.identity) {
            loads += 1;
            Some(fired.identity)
        } else {
            None
        };
        dispatcher.process(fired, fresh, &mut tracker).unwrap();
        handled += 1;
    }
    assert_eq!(loads, 2);
    assert_eq!(handled, 21 + 9);
    assert_eq!(mercury.next_due(), 21 * mercury.period());
    assert_eq!(venus.next_due(), 9 * venus.period());
    assert_eq!(tracker.last_fired(Note::Mercury), Some(20 * mercury.period()));
    assert_eq!(tracker.last_fired(Note::Venus), Some(8 * venus.period()));
    assert_eq!(tracker.last_fired(Note::Earth), None);
}
