//! The step clock: which of the sixteen steps is current, and when it moves.
//!
//! The clock never reads the time itself. Its owner polls it with the
//! milliseconds that have passed since playback last started, and the clock
//! answers with the step boundary that was crossed, if any. It counts whole
//! intervals instead of waiting for an exact instant, so a late poll moves the
//! step by as many steps as intervals went by, and a repeated poll moves
//! nothing.

use vstd::prelude::*;
use crate::error::ConfigurationError;
use crate::tempo::{spec_step_interval, step_interval_ms, StepInterval};

verus! {

/// Number of steps in one pass through a pattern.
pub const STEPS: usize = 16;

/// The step that follows `step` in a sixteen-step cycle.
pub open spec fn spec_next_step(step: int) -> int {
    if step < 15 {
        step + 1
    } else {
        0
    }
}

/// Moves one step forward, wrapping to 0 after step 15.
pub fn next_step(step: usize) -> (next: usize)
    ensures
        next == spec_next_step(step as int),
        step < STEPS ==> next == (step + 1) % 16,
{
    if step < 15 {
        step + 1
    } else {
        0
    }
}

/// What a poll reports when it crosses at least one step boundary.
#[derive(Clone, Copy, Debug, PartialEq, Eq, Structural)]
pub struct StepEvent {
    /// The step that is current after the crossing.
    pub step: usize,
    /// How many boundaries were crossed since the previous poll; more than
    /// one when polls came late.
    pub advanced: u128,
}

/// The clock as a mathematical value.
pub struct ClockState {
    /// Length of one step.
    pub interval: StepInterval,
    /// Whether playback is running.
    pub playing: bool,
    /// The current step.
    pub step: nat,
    /// Whole intervals accounted for since playback last started.
    pub seen: nat,
}

/// One operation on the clock, as a mathematical value.
pub enum ClockOp {
    /// Playback begins.
    Start,
    /// Playback ends.
    Stop,
    /// A poll at the given number of elapsed milliseconds.
    Tick(nat),
}

impl ClockState {
    /// The interval is positive and the step is the count of intervals
    /// reduced modulo sixteen, hence in `0..16`.
    pub open spec fn wf(self) -> bool {
        &&& self.interval.wf()
        &&& self.step < 16
        &&& self.step == self.seen % 16
    }

    /// A stopped clock at step 0.
    pub open spec fn initial(interval: StepInterval) -> ClockState {
        ClockState { interval, playing: false, step: 0, seen: 0 }
    }

    /// Playback begins: time and step both restart from zero.
    pub open spec fn start(self) -> ClockState {
        ClockState { interval: self.interval, playing: true, step: 0, seen: 0 }
    }

    /// Playback ends: the step stays where it is.
    pub open spec fn stop(self) -> ClockState {
        ClockState { interval: self.interval, playing: false, step: self.step, seen: self.seen }
    }

    /// Whole intervals contained in `elapsed` milliseconds, counted against
    /// the exact interval.
    pub open spec fn intervals(self, elapsed: nat) -> nat {
        self.interval.intervals(elapsed)
    }

    /// Step boundaries that a poll at `elapsed` crosses: the whole intervals
    /// not yet accounted for, and none while stopped.
    pub open spec fn crossings(self, elapsed: nat) -> nat {
        if self.playing && self.intervals(elapsed) > self.seen {
            (self.intervals(elapsed) - self.seen) as nat
        } else {
            0
        }
    }

    /// The clock after a poll at `elapsed` milliseconds.
    pub open spec fn tick(self, elapsed: nat) -> ClockState {
        ClockState {
            interval: self.interval,
            playing: self.playing,
            step: (self.step + self.crossings(elapsed)) % 16,
            seen: self.seen + self.crossings(elapsed),
        }
    }

    /// The clock after one operation.
    pub open spec fn apply(self, op: ClockOp) -> ClockState {
        match op {
            ClockOp::Start => self.start(),
            ClockOp::Stop => self.stop(),
            ClockOp::Tick(elapsed) => self.tick(elapsed),
        }
    }

    /// The clock after the operations of `ops`, in order.
    pub open spec fn apply_all(self, ops: Seq<ClockOp>) -> ClockState
        decreases ops.len(),
    {
        if ops.len() == 0 {
            self
        } else {
            self.apply_all(ops.drop_last()).apply(ops.last())
        }
    }

    /// The clock after one poll for each entry of `schedule`, in order.
    pub open spec fn run(self, schedule: Seq<nat>) -> ClockState
        decreases schedule.len(),
    {
        if schedule.len() == 0 {
            self
        } else {
            self.run(schedule.drop_last()).tick(schedule.last())
        }
    }
}

/// An edge-triggered sixteen-step clock.
#[derive(Debug)]
pub struct SequencerClock {
    interval: StepInterval,
    playing: bool,
    step: usize,
    seen: u128,
}

impl View for SequencerClock {
    type V = ClockState;

    closed spec fn view(&self) -> ClockState {
        ClockState {
            interval: self.interval,
            playing: self.playing,
            step: self.step as nat,
            seen: self.seen as nat,
        }
    }
}

impl SequencerClock {
    /// The invariant that every constructor establishes and every method keeps.
    pub open spec fn wf(&self) -> bool {
        self@.wf()
    }

    /// A stopped clock at step 0 whose steps last `interval`. An interval
    /// with a zero numerator or denominator is refused.
    pub fn new(interval: StepInterval) -> (made: Result<SequencerClock, ConfigurationError>)
        ensures
            match made {
                Ok(clock) => interval.wf() && clock.wf() && clock@ == ClockState::initial(interval),
                Err(e) => !interval.wf() && e == ConfigurationError::InvalidInterval,
            },
    {
        if interval.numerator_ms == 0 || interval.denominator == 0 {
            Err(ConfigurationError::InvalidInterval)
        } else {
            Ok(SequencerClock { interval, playing: false, step: 0, seen: 0 })
        }
    }

    /// A stopped clock at step 0 for a tempo in beats per minute. Every
    /// positive tempo and step count is accepted.
    pub fn from_tempo(tempo: i32, steps_per_beat: i32) -> (made: Result<SequencerClock, ConfigurationError>)
        ensures
            match made {
                Ok(clock) => {
                    &&& tempo > 0
                    &&& steps_per_beat > 0
                    &&& clock.wf()
                    &&& clock@ == ClockState::initial(
                        spec_step_interval(tempo as int, steps_per_beat as int),
                    )
                },
                Err(ConfigurationError::InvalidTempo) => tempo <= 0,
                Err(ConfigurationError::InvalidStepsPerBeat) => tempo > 0 && steps_per_beat <= 0,
                Err(ConfigurationError::InvalidInterval) => false,
                Err(ConfigurationError::PatternLength) => false,
            },
    {
        match step_interval_ms(tempo, steps_per_beat) {
            Ok(interval) => SequencerClock::new(interval),
            Err(e) => Err(e),
        }
    }

    /// Begins playback from step 0 with the elapsed time counted from zero.
    pub fn start(&mut self)
        requires
            old(self).wf(),
        ensures
            final(self).wf(),
            final(self)@ == old(self)@.start(),
    {
        self.playing = true;
        self.step = 0;
        self.seen = 0;
    }

    /// Ends playback and freezes the step; later polls change nothing until
    /// the next start.
    pub fn stop(&mut self)
        requires
            old(self).wf(),
        ensures
            final(self).wf(),
            final(self)@ == old(self)@.stop(),
    {
        self.playing = false;
    }

    /// Polls the clock `elapsed_ms` milliseconds after playback started.
    ///
    /// The step moves forward by the number of boundaries crossed since the
    /// previous poll, and one event is reported for the whole move. A poll
    /// that crosses no boundary, or that finds the clock stopped, reports
    /// nothing and changes nothing.
    pub fn tick(&mut self, elapsed_ms: u64) -> (event: Option<StepEvent>)
        requires
            old(self).wf(),
        ensures
            final(self).wf(),
            final(self)@ == old(self)@.tick(elapsed_ms as nat),
            match event {
                Some(e) => {
                    &&& old(self)@.crossings(elapsed_ms as nat) > 0
                    &&& e.advanced == old(self)@.crossings(elapsed_ms as nat)
                    &&& e.step == final(self)@.step
                },
                None => old(self)@.crossings(elapsed_ms as nat) == 0 && final(self)@ == old(self)@,
            },
    {
        if !self.playing {
            return None;
        }
        let count: u128 = self.interval.intervals_in(elapsed_ms);
        if count <= self.seen {
            return None;
        }
        let advanced: u128 = count - self.seen;
        let step: usize = ((self.step as u128 + advanced % 16) % 16) as usize;
        self.step = step;
        self.seen = count;
        Some(StepEvent { step, advanced })
    }

    /// The current step, always in `0..16`. Reading it changes nothing.
    pub fn current_step(&self) -> (step: usize)
        requires
            self.wf(),
        ensures
            step == self@.step,
            step < STEPS,
    {
        self.step
    }

    /// Whether playback is running.
    pub fn is_playing(&self) -> (playing: bool)
        ensures
            playing == self@.playing,
    {
        self.playing
    }

    /// Length of one step.
    pub fn interval(&self) -> (interval: StepInterval)
        ensures
            interval == self@.interval,
    {
        self.interval
    }
}

} // verus!
