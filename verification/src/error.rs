//! The ways in which configuring or querying the sequencer can fail.

use vstd::prelude::*;

verus! {

/// A setting that has to be refused before playback can begin.
#[derive(Clone, Copy, Debug, PartialEq, Eq, Structural)]
pub enum ConfigurationError {
    /// The tempo is zero or negative.
    InvalidTempo,
    /// The number of steps per beat is zero or negative.
    InvalidStepsPerBeat,
    /// The step interval is not a positive length of time: its numerator or
    /// its denominator is zero.
    InvalidInterval,
    /// A track does not hold exactly sixteen steps.
    PatternLength,
}

/// An index that names no track or no step.
#[derive(Clone, Copy, Debug, PartialEq, Eq, Structural)]
pub enum OutOfRange {
    /// The pattern store holds no track with this index.
    Track,
    /// The step index is not in `0..16`.
    Step,
}

} // verus!
