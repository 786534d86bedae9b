//! The schedule of the toggle loop over a whole run, and the laws it obeys.

use vstd::prelude::*;

use crate::blink::{level_at, message_at, time_of, Level};
use crate::message::{led_off_text, led_on_text, lemma_texts_differ, LED_BLINK_INTERVAL_MS};

verus! {

/// The state of a run of the toggle loop, abstracted to what later behaviour
/// depends on: the number of transitions performed.
pub struct RunState {
    pub transitions: nat,
}

/// One iteration of the toggle loop as the driver observes it: the outcome of
/// this iteration's serial write is received and discarded, and the count
/// advances by one.
pub open spec fn run_step(s: RunState, write_ok: bool) -> RunState {
    RunState { transitions: s.transitions + 1 }
}

/// The state after a fresh reset followed by one iteration per entry of
/// `outcomes`, whose entries are the iterations' serial-write outcomes.
pub open spec fn run(outcomes: Seq<bool>) -> RunState
    decreases outcomes.len(),
{
    if outcomes.len() == 0 {
        RunState { transitions: 0 }
    } else {
        run_step(run(outcomes.drop_last()), outcomes.last())
    }
}

/// The loop never runs out of steps: after any number of iterations the run
/// is in a valid state, having performed exactly one transition per
/// iteration.
pub proof fn lemma_run_counts_iterations(outcomes: Seq<bool>)
    ensures
        run(outcomes).transitions == outcomes.len(),
    decreases outcomes.len(),
{
    if outcomes.len() > 0 {
        lemma_run_counts_iterations(outcomes.drop_last());
    }
}

/// A serial write failure never alters the schedule: two runs of the same
/// length reach the same state, whatever their write outcomes, so every
/// transition drives the same level at the same time in both.
pub proof fn lemma_write_outcomes_do_not_alter_schedule(a: Seq<bool>, b: Seq<bool>)
    requires
        a.len() == b.len(),
    ensures
        run(a) == run(b),
{
    lemma_run_counts_iterations(a);
    lemma_run_counts_iterations(b);
}

/// The lines strictly alternate, starting with `LED ON\r\n`: transition `n`
/// emits the ON line exactly when `n` is even, and no two consecutive
/// transitions emit the same line.
pub proof fn lemma_message_alternation(n: nat)
    ensures
        message_at(n) == if n % 2 == 0 {
            led_on_text()
        } else {
            led_off_text()
        },
        message_at(n + 1) != message_at(n),
{
    lemma_texts_differ();
}

/// The pin level during the interval after a line matches the line:
/// high after `LED ON\r\n`, low after `LED OFF\r\n`.
pub proof fn lemma_level_matches_message(n: nat)
    ensures
        level_at(n) == Level::High <==> message_at(n) == led_on_text(),
        level_at(n) == Level::Low <==> message_at(n) == led_off_text(),
{
    lemma_texts_differ();
}

/// The cadence is constant: consecutive transitions are separated by exactly
/// the fixed interval, with no drift over the whole run.
pub proof fn lemma_constant_cadence(n: nat)
    ensures
        time_of(n + 1) - time_of(n) == LED_BLINK_INTERVAL_MS,
        time_of(n) == n * (LED_BLINK_INTERVAL_MS as nat),
{
}

} // verus!
