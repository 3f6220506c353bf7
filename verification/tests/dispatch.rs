use step_sequencer::clock::{SequencerClock, StepEvent};
use step_sequencer::dispatch::dispatch;
use step_sequencer::error::OutOfRange;
use step_sequencer::tempo::StepInterval;
use step_sequencer::pattern::{pattern_from_hits, PatternStore, Track};

fn event_at(step: usize) -> StepEvent {
    StepEvent { step, advanced: 1 }
}

#[test]
fn dispatch_lists_each_sounding_track_once_in_order() {
    let store = PatternStore::standard();
    assert_eq!(dispatch(&store, &event_at(0)), Ok(vec![0, 1]));
    assert_eq!(dispatch(&store, &event_at(1)), Ok(vec![]));
    assert_eq!(dispatch(&store, &event_at(2)), Ok(vec![1]));
    assert_eq!(dispatch(&store, &event_at(4)), Ok(vec![0, 1, 2]));
    assert_eq!(dispatch(&store, &event_at(12)), Ok(vec![0, 2]));
    assert_eq!(dispatch(&store, &event_at(15)), Ok(vec![2]));
}

#[test]
fn dispatch_agrees_with_lookup_on_every_step() {
    let store = PatternStore::standard();
    for step in 0..16 {
        let tracks = dispatch(&store, &event_at(step)).unwrap();
        for track in 0..3 {
            assert_eq!(
                tracks.iter().filter(|t| **t == track).count(),
                if store.is_active(track, step) == Ok(true) { 1 } else { 0 }
            );
        }
        assert!(tracks.iter().all(|t| *t < 3));
    }
}

#[test]
fn dispatch_refuses_a_step_outside_the_pattern() {
    let store = PatternStore::standard();
    assert_eq!(dispatch(&store, &event_at(16)), Err(OutOfRange::Step));
    assert_eq!(
        dispatch(&store, &StepEvent { step: usize::MAX, advanced: 0 }),
        Err(OutOfRange::Step)
    );
}

#[test]
fn dispatch_on_empty_store_triggers_nothing() {
    let store = PatternStore::new(vec![]).unwrap();
    assert_eq!(dispatch(&store, &event_at(3)), Ok(vec![]));
}

#[test]
fn skipped_steps_are_not_sounded() {
    // Kick on step 4 only; a late poll jumps from step 0 to step 6.
    let store = PatternStore::new(vec![pattern_from_hits(&vec![4]).unwrap()]).unwrap();
    let mut clock = SequencerClock::new(StepInterval { numerator_ms: 125, denominator: 1 }).unwrap();
    clock.start();
    let event = clock.tick(6 * 125).unwrap();
    assert_eq!(event, StepEvent { step: 6, advanced: 6 });
    assert_eq!(dispatch(&store, &event), Ok(vec![]));
    // Landing on step 4 after a jump does sound it, once.
    let mut late = SequencerClock::new(StepInterval { numerator_ms: 125, denominator: 1 }).unwrap();
    late.start();
    let event = late.tick(4 * 125 + 80).unwrap();
    assert_eq!(event, StepEvent { step: 4, advanced: 4 });
    assert_eq!(dispatch(&store, &event), Ok(vec![0]));
}

#[test]
fn kick_sounds_four_times_in_sixteen_intervals() {
    let kick = pattern_from_hits(&vec![0, 4, 8, 12]).unwrap();
    let store = PatternStore::new(vec![kick]).unwrap();
    let mut clock = SequencerClock::from_tempo(120, 4).unwrap();
    assert_eq!(clock.interval().whole_ms(), Some(125));
    clock.start();
    let mut sounded_at = Vec::new();
    for interval in 1..=16u64 {
        let event = clock.tick(interval * 125).unwrap();
        assert_eq!(event.advanced, 1);
        assert_eq!(event.step, clock.current_step());
        let tracks = dispatch(&store, &event).unwrap();
        if tracks == vec![Track::Kick.index()] {
            sounded_at.push(event.step);
        } else {
            assert_eq!(tracks, Vec::<usize>::new());
        }
        if interval < 16 {
            assert_eq!(clock.current_step() as u64, interval);
        }
    }
    assert_eq!(sounded_at.len(), 4);
    let mut sorted = sounded_at.clone();
    sorted.sort();
    assert_eq!(sorted, vec![0, 4, 8, 12]);
    // The sixteenth advance wraps to step 0, where the kick sounds again.
    assert_eq!(sounded_at, vec![4, 8, 12, 0]);
    assert_eq!(clock.current_step(), 0);
}
