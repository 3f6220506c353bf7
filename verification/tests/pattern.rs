use step_sequencer::error::{ConfigurationError, OutOfRange};
use step_sequencer::pattern::{pattern_from_hits, PatternStore, Track};

fn steps_of(store: &PatternStore, track: usize) -> Vec<usize> {
    let mut steps = Vec::new();
    for step in 0..16 {
        if store.is_active(track, step) == Ok(true) {
            steps.push(step);
        }
    }
    steps
}

#[test]
fn track_indices_round_trip() {
    assert_eq!(Track::Kick.index(), 0);
    assert_eq!(Track::HiHat.index(), 1);
    assert_eq!(Track::Clap.index(), 2);
    assert_eq!(Track::from_index(0), Some(Track::Kick));
    assert_eq!(Track::from_index(1), Some(Track::HiHat));
    assert_eq!(Track::from_index(2), Some(Track::Clap));
    assert_eq!(Track::from_index(3), None);
    assert_eq!(Track::from_index(usize::MAX), None);
}

#[test]
fn pattern_sounds_exactly_on_listed_steps() {
    let pattern = pattern_from_hits(&vec![0, 4, 8, 12]).unwrap();
    assert_eq!(pattern.len(), 16);
    for step in 0..16 {
        assert_eq!(pattern[step], step % 4 == 0);
    }
}

#[test]
fn empty_hit_list_gives_silent_pattern() {
    assert_eq!(pattern_from_hits(&vec![]), Ok(vec![false; 16]));
}

#[test]
fn repeated_and_unordered_hits_are_accepted() {
    let pattern = pattern_from_hits(&vec![15, 3, 3, 0, 15]).unwrap();
    let mut expected = vec![false; 16];
    expected[0] = true;
    expected[3] = true;
    expected[15] = true;
    assert_eq!(pattern, expected);
}

#[test]
fn hit_outside_sixteen_steps_is_refused() {
    assert_eq!(pattern_from_hits(&vec![16]), Err(OutOfRange::Step));
    assert_eq!(pattern_from_hits(&vec![0, 4, 99, 8]), Err(OutOfRange::Step));
    assert_eq!(pattern_from_hits(&vec![usize::MAX]), Err(OutOfRange::Step));
}

#[test]
fn standard_kit_has_the_three_fixed_patterns() {
    let store = PatternStore::standard();
    assert_eq!(store.track_count(), 3);
    assert_eq!(steps_of(&store, Track::Kick.index()), vec![0, 4, 8, 12]);
    assert_eq!(
        steps_of(&store, Track::HiHat.index()),
        vec![0, 2, 4, 6, 8, 10, 11, 13, 14]
    );
    assert_eq!(steps_of(&store, Track::Clap.index()), vec![4, 12, 15]);
}

#[test]
fn store_keeps_the_tracks_it_was_given() {
    let first = pattern_from_hits(&vec![1, 2]).unwrap();
    let second = pattern_from_hits(&vec![]).unwrap();
    let store = PatternStore::new(vec![first, second]).unwrap();
    assert_eq!(store.track_count(), 2);
    assert_eq!(steps_of(&store, 0), vec![1, 2]);
    assert_eq!(steps_of(&store, 1), Vec::<usize>::new());
    assert_eq!(store.is_active(0, 1), Ok(true));
    assert_eq!(store.is_active(0, 0), Ok(false));
}

#[test]
fn store_without_tracks_is_allowed() {
    let store = PatternStore::new(vec![]).unwrap();
    assert_eq!(store.track_count(), 0);
    assert_eq!(store.is_active(0, 0), Err(OutOfRange::Track));
}

#[test]
fn track_of_wrong_length_is_refused() {
    assert!(matches!(
        PatternStore::new(vec![vec![false; 15]]),
        Err(ConfigurationError::PatternLength)
    ));
    assert!(matches!(
        PatternStore::new(vec![vec![false; 16], vec![true; 17]]),
        Err(ConfigurationError::PatternLength)
    ));
    assert!(matches!(
        PatternStore::new(vec![vec![]]),
        Err(ConfigurationError::PatternLength)
    ));
    assert!(PatternStore::new(vec![vec![true; 16]]).is_ok());
}

#[test]
fn lookup_outside_the_store_is_out_of_range() {
    let store = PatternStore::standard();
    assert_eq!(store.is_active(3, 0), Err(OutOfRange::Track));
    assert_eq!(store.is_active(usize::MAX, 0), Err(OutOfRange::Track));
    assert_eq!(store.is_active(0, 16), Err(OutOfRange::Step));
    assert_eq!(store.is_active(2, usize::MAX), Err(OutOfRange::Step));
    assert_eq!(store.is_active(0, 15), Ok(false));
    assert_eq!(store.is_active(2, 15), Ok(true));
}

#[test]
fn unknown_track_is_reported_before_bad_step() {
    let store = PatternStore::standard();
    assert_eq!(store.is_active(7, 99), Err(OutOfRange::Track));
}
