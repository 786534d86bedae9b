//! The two status lines the blinker emits, and the blink interval.

use vstd::prelude::*;

verus! {

/// Milliseconds between consecutive transitions: each status line is followed
/// by a suspension of this length, so the pin toggles at 1 Hz.
pub const LED_BLINK_INTERVAL_MS: u64 = 500;

/// The bytes of the line `LED ON\r\n`, emitted when the pin is driven high.
pub open spec fn led_on_text() -> Seq<u8> {
    seq![76u8, 69u8, 68u8, 32u8, 79u8, 78u8, 13u8, 10u8]
}

/// The bytes of the line `LED OFF\r\n`, emitted when the pin is driven low.
pub open spec fn led_off_text() -> Seq<u8> {
    seq![76u8, 69u8, 68u8, 32u8, 79u8, 70u8, 70u8, 13u8, 10u8]
}

/// Builds the `LED ON\r\n` line.
pub fn led_on_message() -> (m: Vec<u8>)
    ensures
        m@ == led_on_text(),
{
    let mut m: Vec<u8> = Vec::new();
    m.push(76);
    m.push(69);
    m.push(68);
    m.push(32);
    m.push(79);
    m.push(78);
    m.push(13);
    m.push(10);
    proof {
        assert(m@ =~= led_on_text());
    }
    m
}

/// Builds the `LED OFF\r\n` line.
pub fn led_off_message() -> (m: Vec<u8>)
    ensures
        m@ == led_off_text(),
{
    let mut m: Vec<u8> = Vec::new();
    m.push(76);
    m.push(69);
    m.push(68);
    m.push(32);
    m.push(79);
    m.push(70);
    m.push(70);
    m.push(13);
    m.push(10);
    proof {
        assert(m@ =~= led_off_text());
    }
    m
}

/// The two status lines are distinct, so a line identifies its transition.
pub proof fn lemma_texts_differ()
    ensures
        led_on_text() != led_off_text(),
{
    assert(led_on_text().len() == 8);
    assert(led_off_text().len() == 9);
}

} // verus!
