//! What holds of the step clock whatever it is asked to do.

use vstd::prelude::*;
use vstd::arithmetic::div_mod::lemma_div_is_ordered;
use vstd::arithmetic::mul::lemma_mul_inequality;
use crate::clock::{spec_next_step, ClockOp, ClockState};
use crate::tempo::{lemma_sixteenth_note_boundaries, spec_step_interval};

verus! {

/// Every operation keeps the clock well formed: the step stays in `0..16`.
pub proof fn lemma_operation_keeps_step_in_range(clock: ClockState, op: ClockOp)
    requires
        clock.wf(),
    ensures
        clock.apply(op).wf(),
        0 <= clock.apply(op).step < 16,
{
}

/// The step is in `0..16` after any sequence of starts, stops and polls,
/// however often and at whatever times the polls come.
pub proof fn lemma_step_always_in_range(clock: ClockState, ops: Seq<ClockOp>)
    requires
        clock.wf(),
    ensures
        clock.apply_all(ops).wf(),
        0 <= clock.apply_all(ops).step < 16,
    decreases ops.len(),
{
    if ops.len() > 0 {
        lemma_step_always_in_range(clock, ops.drop_last());
        lemma_operation_keeps_step_in_range(clock.apply_all(ops.drop_last()), ops.last());
    }
}

/// The step is in `0..16` after any schedule of polls.
pub proof fn lemma_polls_keep_step_in_range(clock: ClockState, schedule: Seq<nat>)
    requires
        clock.wf(),
    ensures
        clock.run(schedule).wf(),
        0 <= clock.run(schedule).step < 16,
    decreases schedule.len(),
{
    if schedule.len() > 0 {
        lemma_polls_keep_step_in_range(clock, schedule.drop_last());
    }
}

/// A later time holds at least as many whole intervals as an earlier one.
pub proof fn lemma_intervals_never_decrease(clock: ClockState, earlier: nat, later: nat)
    requires
        clock.wf(),
        earlier <= later,
    ensures
        clock.intervals(earlier) <= clock.intervals(later),
{
    let steps = clock.interval.denominator as int;
    lemma_mul_inequality(earlier as int, later as int, steps);
    lemma_div_is_ordered(earlier * steps, later * steps, clock.interval.numerator_ms as int);
}

/// Edge triggering. Take a running clock that is polled at `first` and then
/// at `second` milliseconds, with `first <= second`, and let `k` be the
/// number of interval boundaries between the two times. The second poll
/// moves the step by exactly `k` modulo sixteen, crosses exactly `k`
/// boundaries (so it reports an event if and only if `k > 0`), and leaves
/// the step equal to the number of whole intervals elapsed modulo sixteen.
pub proof fn lemma_edge_trigger(clock: ClockState, first: nat, second: nat)
    requires
        clock.wf(),
        clock.playing,
        clock.seen <= clock.intervals(first),
        first <= second,
    ensures
        clock.intervals(first) <= clock.intervals(second),
        clock.tick(first).crossings(second) == clock.intervals(second) - clock.intervals(first),
        clock.tick(first).tick(second).step == (clock.tick(first).step + (clock.intervals(second)
            - clock.intervals(first))) % 16,
        clock.tick(first).tick(second).step == clock.intervals(second) % 16,
        clock.tick(first).tick(second).seen == clock.intervals(second),
{
    lemma_intervals_never_decrease(clock, first, second);
}

/// A poll that crosses exactly one boundary moves to the next step.
pub proof fn lemma_single_crossing_is_next_step(clock: ClockState, elapsed: nat)
    requires
        clock.wf(),
        clock.crossings(elapsed) == 1,
    ensures
        clock.tick(elapsed).step == spec_next_step(clock.step as int),
{
}

/// Polling again inside the interval that the last poll reached crosses no
/// boundary: one event per boundary, not one per poll.
pub proof fn lemma_no_second_event_within_interval(clock: ClockState, first: nat, again: nat)
    requires
        clock.wf(),
        clock.intervals(again) <= clock.intervals(first),
        clock.seen <= clock.intervals(first),
    ensures
        clock.tick(first).crossings(again) == 0,
        clock.tick(first).tick(again) == clock.tick(first),
{
}

/// Along a schedule of polls whose times never decrease, a clock that was
/// just started stands at the number of whole intervals in the last time,
/// modulo sixteen: late or frequent polls add no drift and skip no step.
pub proof fn lemma_polls_count_intervals(clock: ClockState, schedule: Seq<nat>)
    requires
        clock.wf(),
        schedule.len() > 0,
        forall|i: int, j: int| 0 <= i <= j < schedule.len() ==> schedule[i] <= schedule[j],
    ensures
        clock.start().run(schedule).seen == clock.intervals(schedule.last()),
        clock.start().run(schedule).step == clock.intervals(schedule.last()) % 16,
        clock.start().run(schedule).playing,
        clock.start().run(schedule).interval == clock.interval,
    decreases schedule.len(),
{
    let begun = clock.start();
    let earlier = schedule.drop_last();
    let last = schedule.last();
    assert(begun.run(schedule) == begun.run(earlier).tick(last));
    if earlier.len() == 0 {
        assert(begun.run(earlier) == begun);
    } else {
        assert forall|i: int, j: int| 0 <= i <= j < earlier.len() implies earlier[i]
            <= earlier[j] by {
            assert(earlier[i] == schedule[i] && earlier[j] == schedule[j]);
        }
        lemma_polls_count_intervals(clock, earlier);
        assert(earlier.last() == schedule[schedule.len() - 2]);
        lemma_intervals_never_decrease(clock, earlier.last(), last);
    }
}

/// No rounding of the tempo. A clock made for `tempo` beats per minute with
/// four steps to the beat, started and then polled after `elapsed`
/// milliseconds, has moved by `elapsed * tempo / 15000` steps, rounded down
/// once: at 130 beats per minute one minute is 520 steps, not 521.
pub proof fn lemma_tempo_steps_are_exact(tempo: int, elapsed: nat)
    requires
        0 < tempo <= i32::MAX,
    ensures
        ClockState::initial(spec_step_interval(tempo, 4)).wf(),
        ClockState::initial(spec_step_interval(tempo, 4)).start().tick(elapsed).seen == (elapsed
            * tempo) / 15_000,
        ClockState::initial(spec_step_interval(tempo, 4)).start().tick(elapsed).step == ((elapsed
            * tempo) / 15_000) % 16,
{
    lemma_sixteenth_note_boundaries(tempo, elapsed, 0);
}

/// Polls that cross no boundary leave the clock as it was, so the current
/// step reads the same before, between and after them.
pub proof fn lemma_quiet_polls_change_nothing(clock: ClockState, schedule: Seq<nat>)
    requires
        clock.wf(),
        forall|i: int| 0 <= i < schedule.len() ==> clock.crossings(#[trigger] schedule[i]) == 0,
    ensures
        clock.run(schedule) == clock,
    decreases schedule.len(),
{
    if schedule.len() > 0 {
        let earlier = schedule.drop_last();
        assert forall|i: int| 0 <= i < earlier.len() implies clock.crossings(
            #[trigger] earlier[i],
        ) == 0 by {
            assert(earlier[i] == schedule[i]);
        }
        lemma_quiet_polls_change_nothing(clock, earlier);
        assert(clock.crossings(schedule[schedule.len() - 1]) == 0);
    }
}

/// A stopped clock ignores every poll.
pub proof fn lemma_stopped_clock_ignores_polls(clock: ClockState, schedule: Seq<nat>)
    requires
        clock.wf(),
        !clock.playing,
    ensures
        clock.run(schedule) == clock,
{
    lemma_quiet_polls_change_nothing(clock, schedule);
}

/// Starting and stopping at once, with no time elapsed in between, leaves
/// the clock stopped at step 0.
pub proof fn lemma_start_then_stop(clock: ClockState)
    requires
        clock.wf(),
    ensures
        clock.start().stop().step == 0,
        !clock.start().stop().playing,
        clock.start().tick(0).stop().step == 0,
        !clock.start().tick(0).stop().playing,
        clock.start().stop().wf(),
{
    let length = clock.interval.numerator_ms as int;
    assert(0nat * clock.interval.denominator == 0);
    assert(0int / length == 0) by (nonlinear_arith)
        requires
            length > 0,
    ;
}

/// Starting always resumes from step 0, wherever the clock had stopped.
pub proof fn lemma_restart_resets_step(clock: ClockState)
    requires
        clock.wf(),
    ensures
        clock.stop().step == clock.step,
        clock.stop().start().step == 0,
        clock.stop().start().playing,
        clock.stop().start().wf(),
{
}

} // verus!
