//! The transport: the one place where playback is switched on and off.

use vstd::prelude::*;
use crate::clock::{ClockState, SequencerClock, StepEvent, STEPS};

verus! {

/// Owns the step clock and decides whether it runs. The clock inside a
/// transport is started and stopped by [`Transport::toggle`] and by nothing
/// else.
#[derive(Debug)]
pub struct Transport {
    clock: SequencerClock,
}

impl View for Transport {
    type V = ClockState;

    closed spec fn view(&self) -> ClockState {
        self.clock@
    }
}

impl Transport {
    /// The invariant of the clock inside.
    pub open spec fn wf(&self) -> bool {
        self@.wf()
    }

    /// Takes charge of a clock, in whatever state it is.
    pub fn new(clock: SequencerClock) -> (transport: Transport)
        requires
            clock.wf(),
        ensures
            transport.wf(),
            transport@ == clock@,
    {
        Transport { clock }
    }

    /// Starts playback if it is stopped and stops it if it is running, and
    /// returns whether playback runs afterwards. When it returns `true` the
    /// step is 0 and elapsed time counts from this moment.
    pub fn toggle(&mut self) -> (playing: bool)
        requires
            old(self).wf(),
        ensures
            final(self).wf(),
            playing == !old(self)@.playing,
            final(self)@ == (if old(self)@.playing {
                old(self)@.stop()
            } else {
                old(self)@.start()
            }),
    {
        if self.clock.is_playing() {
            self.clock.stop();
            false
        } else {
            self.clock.start();
            true
        }
    }

    /// Polls the clock inside; see [`SequencerClock::tick`].
    pub fn tick(&mut self, elapsed_ms: u64) -> (event: Option<StepEvent>)
        requires
            old(self).wf(),
        ensures
            final(self).wf(),
            final(self)@ == old(self)@.tick(elapsed_ms as nat),
            match event {
                Some(e) => {
                    &&& old(self)@.crossings(elapsed_ms as nat) > 0
                    &&& e.advanced == old(self)@.crossings(elapsed_ms as nat)
                    &&& e.step == final(self)@.step
                },
                None => old(self)@.crossings(elapsed_ms as nat) == 0 && final(self)@ == old(self)@,
            },
    {
        self.clock.tick(elapsed_ms)
    }

    /// Whether playback is running.
    pub fn is_playing(&self) -> (playing: bool)
        ensures
            playing == self@.playing,
    {
        self.clock.is_playing()
    }

    /// The current step, always in `0..16`.
    pub fn current_step(&self) -> (step: usize)
        requires
            self.wf(),
        ensures
            step == self@.step,
            step < STEPS,
    {
        self.clock.current_step()
    }
}

} // verus!
