//! The pattern store: for each track, which of the sixteen steps sound.

use vstd::prelude::*;
use crate::clock::STEPS;
use crate::error::{ConfigurationError, OutOfRange};

verus! {

/// The instruments of the built-in drum kit.
#[derive(Clone, Copy, Debug, PartialEq, Eq, Structural)]
pub enum Track {
    /// Bass drum.
    Kick,
    /// Closed hi-hat.
    HiHat,
    /// Hand clap.
    Clap,
}

impl Track {
    /// Position of the track in the built-in pattern store.
    pub open spec fn spec_index(self) -> int {
        match self {
            Track::Kick => 0,
            Track::HiHat => 1,
            Track::Clap => 2,
        }
    }

    /// Position of the track in the built-in pattern store.
    pub fn index(self) -> (i: usize)
        ensures
            i == self.spec_index(),
            i < 3,
    {
        match self {
            Track::Kick => 0,
            Track::HiHat => 1,
            Track::Clap => 2,
        }
    }

    /// The track at a position of the built-in pattern store, if there is one.
    pub fn from_index(i: usize) -> (track: Option<Track>)
        ensures
            match track {
                Some(t) => t.spec_index() == i,
                None => i >= 3,
            },
    {
        if i == 0 {
            Some(Track::Kick)
        } else if i == 1 {
            Some(Track::HiHat)
        } else if i == 2 {
            Some(Track::Clap)
        } else {
            None
        }
    }
}

/// Whether a track of the built-in kit sounds on a step.
pub open spec fn standard_hit(track: Track, step: int) -> bool {
    match track {
        Track::Kick => step == 0 || step == 4 || step == 8 || step == 12,
        Track::HiHat => step == 0 || step == 2 || step == 4 || step == 6 || step == 8 || step == 10
            || step == 11 || step == 13 || step == 14,
        Track::Clap => step == 4 || step == 12 || step == 15,
    }
}

/// The sixteen-step pattern that sounds exactly on the steps listed in `hits`.
pub open spec fn spec_pattern(hits: Seq<usize>) -> Seq<bool> {
    Seq::new(16, |step: int| exists|k: int| 0 <= k < hits.len() && hits[k] == step)
}

/// Builds the pattern that sounds exactly on the listed steps. A listed step
/// outside `0..16` is refused; listing a step twice is the same as listing
/// it once.
pub fn pattern_from_hits(hits: &Vec<usize>) -> (made: Result<Vec<bool>, OutOfRange>)
    ensures
        match made {
            Ok(pattern) => pattern@ == spec_pattern(hits@) && forall|k: int|
                0 <= k < hits.len() ==> hits[k] < 16,
            Err(e) => e == OutOfRange::Step && exists|k: int| 0 <= k < hits.len() && hits[k] >= 16,
        },
{
    let mut pattern: Vec<bool> = Vec::new();
    let mut filled: usize = 0;
    while filled < STEPS
        invariant
            filled <= 16,
            pattern.len() == filled,
            forall|step: int| 0 <= step < filled ==> !pattern[step],
        decreases 16 - filled,
    {
        pattern.push(false);
        filled = filled + 1;
    }
    let mut done: usize = 0;
    while done < hits.len()
        invariant
            done <= hits.len(),
            pattern.len() == 16,
            forall|k: int| 0 <= k < done ==> hits[k] < 16,
            forall|step: int|
                0 <= step < 16 ==> (pattern[step] <==> exists|k: int|
                    0 <= k < done && hits[k] == step),
        decreases hits.len() - done,
    {
        let hit: usize = hits[done];
        if hit >= STEPS {
            return Err(OutOfRange::Step);
        }
        let ghost before = pattern@;
        pattern.set(hit, true);
        proof {
            assert forall|step: int| 0 <= step < 16 implies (pattern[step] <==> exists|k: int|
                0 <= k < done + 1 && hits[k] == step) by {
                if step == hit {
                    assert(hits[done as int] == step);
                } else if before[step] {
                    let k = choose|k: int| 0 <= k < done && hits[k] == step;
                    assert(0 <= k < done + 1 && hits[k] == step);
                } else if exists|k: int| 0 <= k < done + 1 && hits[k] == step {
                    let k = choose|k: int| 0 <= k < done + 1 && hits[k] == step;
                    assert(k < done);
                }
            }
        }
        done = done + 1;
    }
    assert(pattern@ =~= spec_pattern(hits@));
    Ok(pattern)
}

/// The patterns of all tracks, fixed once they are loaded.
#[derive(Debug)]
pub struct PatternStore {
    tracks: Vec<Vec<bool>>,
}

impl View for PatternStore {
    type V = Seq<Seq<bool>>;

    closed spec fn view(&self) -> Seq<Seq<bool>> {
        self.tracks.deep_view()
    }
}

impl PatternStore {
    /// Every track holds exactly sixteen steps.
    pub open spec fn wf(&self) -> bool {
        forall|track: int| 0 <= track < self@.len() ==> (#[trigger] self@[track]).len() == 16
    }

    /// Whether `track` sounds on `step`; false outside the store.
    pub open spec fn active(&self, track: int, step: int) -> bool {
        0 <= track < self@.len() && 0 <= step < 16 && self@[track][step]
    }

    /// Loads the given tracks. A track that does not hold exactly sixteen
    /// steps is refused.
    pub fn new(tracks: Vec<Vec<bool>>) -> (made: Result<PatternStore, ConfigurationError>)
        ensures
            match made {
                Ok(store) => store.wf() && store@ == tracks.deep_view(),
                Err(e) => e == ConfigurationError::PatternLength && exists|track: int|
                    0 <= track < tracks.len() && tracks[track].len() != 16,
            },
    {
        let mut checked: usize = 0;
        while checked < tracks.len()
            invariant
                checked <= tracks.len(),
                forall|track: int| 0 <= track < checked ==> (#[trigger] tracks[track]).len() == 16,
            decreases tracks.len() - checked,
        {
            if tracks[checked].len() != STEPS {
                return Err(ConfigurationError::PatternLength);
            }
            checked = checked + 1;
        }
        let store = PatternStore { tracks };
        proof {
            assert forall|track: int| 0 <= track < store@.len() implies (#[trigger] store@[track]).len()
                == 16 by {
                assert(store@[track] == store.tracks[track]@);
            }
        }
        Ok(store)
    }

    /// The built-in kit: kick, hi-hat and clap, in the order of
    /// [`Track::index`].
    pub fn standard() -> (store: PatternStore)
        ensures
            store.wf(),
            store@.len() == 3,
            forall|track: Track, step: int|
                0 <= step < 16 ==> store@[track.spec_index()][step] == #[trigger] standard_hit(
                    track,
                    step,
                ),
    {
        let kick_hits: Vec<usize> = vec![0, 4, 8, 12];
        let hat_hits: Vec<usize> = vec![0, 2, 4, 6, 8, 10, 11, 13, 14];
        let clap_hits: Vec<usize> = vec![4, 12, 15];
        let kick = pattern_of_steps(&kick_hits);
        let hat = pattern_of_steps(&hat_hits);
        let clap = pattern_of_steps(&clap_hits);
        let mut tracks: Vec<Vec<bool>> = Vec::new();
        tracks.push(kick);
        tracks.push(hat);
        tracks.push(clap);
        let store = PatternStore { tracks };
        proof {
            assert(store@.len() == 3);
            assert(store@[0] == kick@);
            assert(store@[1] == hat@);
            assert(store@[2] == clap@);
            assert forall|track: Track, step: int| 0 <= step < 16 implies store@[track.spec_index()][step]
                == #[trigger] standard_hit(track, step) by {
                match track {
                    Track::Kick => {
                        lemma_listed_steps(kick_hits@, step);
                    },
                    Track::HiHat => {
                        lemma_listed_steps(hat_hits@, step);
                    },
                    Track::Clap => {
                        lemma_listed_steps(clap_hits@, step);
                    },
                }
            }
        }
        store
    }

    /// Number of tracks in the store.
    pub fn track_count(&self) -> (count: usize)
        ensures
            count == self@.len(),
    {
        self.tracks.len()
    }

    /// Whether `track` sounds on `step`. An unknown track is reported
    /// before a step outside `0..16`.
    pub fn is_active(&self, track: usize, step: usize) -> (found: Result<bool, OutOfRange>)
        requires
            self.wf(),
        ensures
            match found {
                Ok(sounds) => {
                    &&& track < self@.len()
                    &&& step < 16
                    &&& sounds == self@[track as int][step as int]
                    &&& sounds == self.active(track as int, step as int)
                },
                Err(OutOfRange::Track) => track >= self@.len(),
                Err(OutOfRange::Step) => track < self@.len() && step >= 16,
            },
    {
        if track >= self.tracks.len() {
            return Err(OutOfRange::Track);
        }
        if step >= STEPS {
            return Err(OutOfRange::Step);
        }
        assert(self@[track as int] == self.tracks[track as int]@);
        Ok(self.tracks[track][step])
    }
}

/// The pattern of a list of valid steps.
fn pattern_of_steps(hits: &Vec<usize>) -> (pattern: Vec<bool>)
    requires
        forall|k: int| 0 <= k < hits.len() ==> hits[k] < 16,
    ensures
        pattern@ == spec_pattern(hits@),
{
    match pattern_from_hits(hits) {
        Ok(pattern) => pattern,
        Err(_) => Vec::new(),
    }
}

/// A pattern sounds on a step exactly when the step is listed.
proof fn lemma_listed_steps(hits: Seq<usize>, step: int)
    requires
        0 <= step < 16,
    ensures
        spec_pattern(hits)[step] <==> hits.contains(step as usize),
{
    if spec_pattern(hits)[step] {
        let k = choose|k: int| 0 <= k < hits.len() && hits[k] == step;
        assert(hits[k] == step as usize);
    }
    if hits.contains(step as usize) {
        let k = choose|k: int| 0 <= k < hits.len() && hits[k] == step as usize;
        assert(0 <= k < hits.len() && hits[k] == step);
    }
}

} // verus!
