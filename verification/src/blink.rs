//! The toggle state machine: which level, which line, and which delay each
//! transition of the blinker performs.

use vstd::prelude::*;

use crate::message::{
    led_off_message, led_off_text, led_on_message, led_on_text, LED_BLINK_INTERVAL_MS,
};
use crate::serial::WriteBlocking;

verus! {

/// Logic level of the output pin.
#[derive(Clone, Copy, Debug, PartialEq, Eq, Structural)]
pub enum Level {
    Low,
    High,
}

/// The level driven by transition `n`: high on even transitions, low on odd,
/// so the pin alternates starting with high (it rests low before the first
/// transition).
pub open spec fn level_at(n: nat) -> Level {
    if n % 2 == 0 {
        Level::High
    } else {
        Level::Low
    }
}

/// The status line emitted by transition `n`: `LED ON\r\n` on even
/// transitions, `LED OFF\r\n` on odd ones.
pub open spec fn message_at(n: nat) -> Seq<u8> {
    if n % 2 == 0 {
        led_on_text()
    } else {
        led_off_text()
    }
}

/// Milliseconds from the first transition at which transition `n` occurs:
/// one fixed interval per preceding transition.
pub open spec fn time_of(n: nat) -> nat {
    n * (LED_BLINK_INTERVAL_MS as nat)
}

/// One iteration of the toggle loop, as effects for the driver to perform in
/// order: emit `message` on the transmitter (best effort), drive the pin to
/// `level`, then suspend for `delay_ms` milliseconds.
pub struct BlinkAction {
    pub message: Vec<u8>,
    pub level: Level,
    pub delay_ms: u64,
}

/// The state of the toggle loop between iterations.
///
/// The executable state is one bit — whether the next transition turns the
/// LED on; the count of performed transitions is carried as ghost state so
/// contracts can place each action in the overall schedule.
pub struct Blinker {
    next_on: bool,
    transitions: Ghost<nat>,
}

impl Blinker {
    /// How many transitions this blinker has performed.
    pub closed spec fn transitions(self) -> nat {
        self.transitions@
    }

    /// The blinker turns the LED on next exactly when it has performed an
    /// even number of transitions: the alternation invariant.
    pub closed spec fn wf(self) -> bool {
        self.next_on <==> self.transitions@ % 2 == 0
    }

    /// A blinker as it stands after reset: no transition performed yet, the
    /// first one will turn the LED on.
    pub fn new() -> (b: Blinker)
        ensures
            b.wf(),
            b.transitions() == 0,
    {
        Blinker { next_on: true, transitions: Ghost(0) }
    }

    /// Decides the next iteration: returns the action for this transition and
    /// advances the state. The action's level and line are those the schedule
    /// assigns to this transition, and its delay is the fixed interval.
    pub fn next_action(&mut self) -> (a: BlinkAction)
        requires
            old(self).wf(),
        ensures
            final(self).wf(),
            final(self).transitions() == old(self).transitions() + 1,
            a.level == level_at(old(self).transitions()),
            a.message@ == message_at(old(self).transitions()),
            a.delay_ms == LED_BLINK_INTERVAL_MS,
    {
        let a = if self.next_on {
            BlinkAction {
                message: led_on_message(),
                level: Level::High,
                delay_ms: LED_BLINK_INTERVAL_MS,
            }
        } else {
            BlinkAction {
                message: led_off_message(),
                level: Level::Low,
                delay_ms: LED_BLINK_INTERVAL_MS,
            }
        };
        self.next_on = !self.next_on;
        self.transitions = Ghost(self.transitions@ + 1);
        a
    }

    /// Runs one iteration up to the effects only the hardware can perform:
    /// emits this transition's status line on `tx` and discards the write
    /// result, then returns the level the pin must be driven to and the delay
    /// to suspend for. The returned pair does not depend on what `tx`
    /// answered: a write fault never alters the schedule.
    pub fn step<W: WriteBlocking>(&mut self, tx: &mut W) -> (r: (Level, u64))
        requires
            old(self).wf(),
        ensures
            final(self).wf(),
            final(self).transitions() == old(self).transitions() + 1,
            r.0 == level_at(old(self).transitions()),
            r.1 == LED_BLINK_INTERVAL_MS,
    {
        let a = self.next_action();
        let _ = tx.blocking_write(a.message.as_slice());
        (a.level, a.delay_ms)
    }
}

} // verus!
