//! The playback dispatcher: which tracks to sound when a step is reached.

use vstd::prelude::*;
use crate::clock::{StepEvent, STEPS};
use crate::error::OutOfRange;
use crate::pattern::PatternStore;

verus! {

/// The tracks to trigger for a step event, each once, in rising order of
/// their index.
///
/// Only the step that the event arrives at is sounded. When a late poll
/// crossed several boundaries at once, the hits of the steps passed over are
/// dropped on purpose: losing a hit is preferred to playing a burst of stale
/// ones.
pub fn dispatch(store: &PatternStore, event: &StepEvent) -> (triggered: Result<Vec<usize>, OutOfRange>)
    requires
        store.wf(),
    ensures
        match triggered {
            Ok(tracks) => {
                &&& event.step < 16
                &&& forall|track: usize|
                    tracks@.contains(track) <==> store.active(track as int, event.step as int)
                &&& forall|i: int, j: int| 0 <= i < j < tracks.len() ==> tracks[i] < tracks[j]
            },
            Err(e) => e == OutOfRange::Step && event.step >= 16,
        },
{
    if event.step >= STEPS {
        return Err(OutOfRange::Step);
    }
    let step: usize = event.step;
    let count: usize = store.track_count();
    let mut tracks: Vec<usize> = Vec::new();
    let mut track: usize = 0;
    while track < count
        invariant
            store.wf(),
            step < 16,
            count == store@.len(),
            track <= count,
            forall|i: int| 0 <= i < tracks.len() ==> tracks[i] < track,
            forall|i: int, j: int| 0 <= i < j < tracks.len() ==> tracks[i] < tracks[j],
            forall|t: usize|
                tracks@.contains(t) <==> t < track && store.active(t as int, step as int),
        decreases count - track,
    {
        let ghost before = tracks@;
        let sounds: bool = match store.is_active(track, step) {
            Ok(sounds) => sounds,
            Err(_) => false,
        };
        if sounds {
            tracks.push(track);
        }
        proof {
            assert forall|t: usize|
                tracks@.contains(t) <==> t < track + 1 && store.active(t as int, step as int) by {
                if sounds {
                    assert(tracks@ == before.push(track));
                    assert(tracks@[before.len() as int] == track);
                    if before.contains(t) {
                        let i = choose|i: int| 0 <= i < before.len() && before[i] == t;
                        assert(tracks@[i] == t);
                    }
                    if tracks@.contains(t) && t != track {
                        let i = choose|i: int| 0 <= i < tracks.len() && tracks[i] == t;
                        assert(before[i] == t);
                    }
                } else {
                    assert(tracks@ == before);
                }
            }
        }
        track = track + 1;
    }
    Ok(tracks)
}

} // verus!
