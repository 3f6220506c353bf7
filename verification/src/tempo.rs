//! Tempo arithmetic: from beats per minute to the length of one step.
//!
//! The length of a step is kept as an exact ratio of milliseconds and never
//! rounded, so that counting steps against elapsed time does not drift: at
//! 130 beats per minute and four steps to the beat, one minute holds exactly
//! 520 steps.

use vstd::prelude::*;
use vstd::arithmetic::div_mod::lemma_div_multiples_vanish_quotient;
use crate::error::ConfigurationError;

verus! {

/// Milliseconds in one minute.
pub const MS_PER_MINUTE: u64 = 60_000;

/// Steps in one beat when every step is a sixteenth note.
pub const STEPS_PER_BEAT: i32 = 4;

/// The length of one step: `numerator_ms / denominator` milliseconds, as an
/// exact ratio.
///
/// A tempo with a fraction can be written directly: 120.5 beats per minute
/// with four steps to the beat is the ratio 600000 : 4820.
#[derive(Clone, Copy, Debug, PartialEq, Eq, Structural)]
pub struct StepInterval {
    /// Milliseconds that `denominator` steps take together.
    pub numerator_ms: u64,
    /// Steps played in `numerator_ms` milliseconds.
    pub denominator: u64,
}

impl StepInterval {
    /// The ratio is a positive length of time.
    pub open spec fn wf(self) -> bool {
        self.numerator_ms > 0 && self.denominator > 0
    }

    /// Whether the interval is exactly `ms` milliseconds.
    pub open spec fn is_ms(self, ms: int) -> bool {
        self.numerator_ms == ms * self.denominator
    }

    /// Whole intervals contained in `elapsed` milliseconds:
    /// `elapsed / (numerator_ms / denominator)`, rounded down once.
    pub open spec fn intervals(self, elapsed: nat) -> nat {
        ((elapsed * self.denominator) / (self.numerator_ms as int)) as nat
    }

    /// Counts the whole intervals contained in `elapsed_ms` milliseconds.
    pub fn intervals_in(self, elapsed_ms: u64) -> (count: u128)
        requires
            self.wf(),
        ensures
            count == self.intervals(elapsed_ms as nat),
    {
        assert(elapsed_ms * self.denominator <= 0xffff_ffff_ffff_ffff * 0xffff_ffff_ffff_ffff)
            by (nonlinear_arith)
            requires
                0 <= elapsed_ms <= 0xffff_ffff_ffff_ffff,
                0 <= self.denominator <= 0xffff_ffff_ffff_ffff,
        ;
        let covered: u128 = (elapsed_ms as u128) * (self.denominator as u128);
        covered / (self.numerator_ms as u128)
    }

    /// The interval in whole milliseconds, if it is a whole number of them.
    pub fn whole_ms(self) -> (whole: Option<u64>)
        ensures
            match whole {
                Some(ms) => self.denominator > 0 && self.is_ms(ms as int),
                None => self.denominator == 0 || self.numerator_ms % self.denominator != 0,
            },
    {
        if self.denominator == 0 || self.numerator_ms % self.denominator != 0 {
            return None;
        }
        let ms: u64 = self.numerator_ms / self.denominator;
        assert(self.numerator_ms == ms * self.denominator) by (nonlinear_arith)
            requires
                self.denominator > 0,
                self.numerator_ms % self.denominator == 0,
                ms == self.numerator_ms / self.denominator,
        ;
        Some(ms)
    }
}

/// The step interval of a tempo: one minute holds `tempo * steps_per_beat`
/// steps, so a step lasts `60000 / (tempo * steps_per_beat)` milliseconds.
pub open spec fn spec_step_interval(tempo: int, steps_per_beat: int) -> StepInterval
    recommends
        0 < tempo <= i32::MAX,
        0 < steps_per_beat <= i32::MAX,
{
    StepInterval { numerator_ms: 60_000, denominator: (tempo * steps_per_beat) as u64 }
}

/// Converts a tempo in beats per minute into the exact step interval.
///
/// A tempo or a step count that is not positive is refused; every other
/// tempo has an interval.
pub fn step_interval_ms(tempo: i32, steps_per_beat: i32) -> (interval: Result<StepInterval, ConfigurationError>)
    ensures
        match interval {
            Ok(ratio) => {
                &&& tempo > 0
                &&& steps_per_beat > 0
                &&& ratio.wf()
                &&& ratio.numerator_ms == 60_000
                &&& ratio.denominator == tempo * steps_per_beat
                &&& ratio == spec_step_interval(tempo as int, steps_per_beat as int)
            },
            Err(ConfigurationError::InvalidTempo) => tempo <= 0,
            Err(ConfigurationError::InvalidStepsPerBeat) => tempo > 0 && steps_per_beat <= 0,
            Err(ConfigurationError::InvalidInterval) => false,
            Err(ConfigurationError::PatternLength) => false,
        },
{
    if tempo <= 0 {
        return Err(ConfigurationError::InvalidTempo);
    }
    if steps_per_beat <= 0 {
        return Err(ConfigurationError::InvalidStepsPerBeat);
    }
    assert(0 < tempo * steps_per_beat <= 0x7fff_ffff * 0x7fff_ffff) by (nonlinear_arith)
        requires
            0 < tempo <= 0x7fff_ffff,
            0 < steps_per_beat <= 0x7fff_ffff,
    ;
    let steps_per_minute: u64 = (tempo as u64) * (steps_per_beat as u64);
    Ok(StepInterval { numerator_ms: MS_PER_MINUTE, denominator: steps_per_minute })
}

/// A boundary is due exactly when the elapsed time reaches it: the `k`-th
/// interval is complete after `elapsed` milliseconds if and only if
/// `elapsed >= k * numerator_ms / denominator`, taken as exact fractions.
pub proof fn lemma_boundary_due(interval: StepInterval, elapsed: nat, k: nat)
    requires
        interval.wf(),
    ensures
        interval.intervals(elapsed) >= k <==> elapsed * interval.denominator >= k
            * interval.numerator_ms,
{
    let covered = elapsed * interval.denominator;
    let length = interval.numerator_ms as int;
    assert(covered / length >= k <==> covered >= k * length) by (nonlinear_arith)
        requires
            covered >= 0,
            length > 0,
            k >= 0,
    ;
}

/// With four steps to the beat, the step interval of any positive tempo is
/// exactly `15000 / tempo` milliseconds: `tempo` intervals make 15000
/// milliseconds.
pub proof fn lemma_sixteenth_note_interval(tempo: int)
    requires
        0 < tempo <= i32::MAX,
    ensures
        spec_step_interval(tempo, 4).wf(),
        spec_step_interval(tempo, 4).numerator_ms * tempo == 15_000 * spec_step_interval(
            tempo,
            4,
        ).denominator,
        forall|ms: int| spec_step_interval(tempo, 4).is_ms(ms) <==> ms * tempo == 15_000,
{
    assert forall|ms: int| spec_step_interval(tempo, 4).is_ms(ms) <==> ms * tempo == 15_000 by {
        assert(ms * (tempo * 4) == 4 * (ms * tempo)) by (nonlinear_arith);
    }
}

/// With four steps to the beat, the whole intervals in `elapsed`
/// milliseconds are `elapsed * tempo / 15000`, rounded down once, and the
/// `k`-th boundary is due exactly when `elapsed` reaches `k * 15000 / tempo`.
pub proof fn lemma_sixteenth_note_boundaries(tempo: int, elapsed: nat, k: nat)
    requires
        0 < tempo <= i32::MAX,
    ensures
        spec_step_interval(tempo, 4).intervals(elapsed) == (elapsed * tempo) / 15_000,
        spec_step_interval(tempo, 4).intervals(elapsed) >= k <==> elapsed * tempo >= k * 15_000,
{
    let interval = spec_step_interval(tempo, 4);
    assert(elapsed * tempo >= 0) by (nonlinear_arith)
        requires
            elapsed >= 0,
            tempo > 0,
    ;
    assert(elapsed * interval.denominator == 4 * (elapsed * tempo)) by (nonlinear_arith)
        requires
            interval.denominator == tempo * 4,
    ;
    lemma_div_multiples_vanish_quotient(4, elapsed * tempo, 15_000);
    lemma_boundary_due(interval, elapsed, k);
}

/// The interval of a tempo is `ms` milliseconds exactly when `ms` times the
/// steps of one minute is 60000.
pub proof fn lemma_whole_interval(tempo: int, steps_per_beat: int, ms: int)
    requires
        0 < tempo <= i32::MAX,
        0 < steps_per_beat <= i32::MAX,
    ensures
        spec_step_interval(tempo, steps_per_beat).is_ms(ms) <==> ms * (tempo * steps_per_beat)
            == 60_000,
{
    assert(0 < tempo * steps_per_beat <= 0x7fff_ffff * 0x7fff_ffff) by (nonlinear_arith)
        requires
            0 < tempo <= 0x7fff_ffff,
            0 < steps_per_beat <= 0x7fff_ffff,
    ;
}

} // verus!
