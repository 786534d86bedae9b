use led_blink::blink::{Blinker, Level};
use led_blink::message::{led_off_message, led_on_message, LED_BLINK_INTERVAL_MS};
use led_blink::serial::WriteBlocking;

/// A transmitter that accepts every write and records the bytes it was handed.
struct RecordingWriter {
    written: Vec<Vec<u8>>,
}

impl WriteBlocking for RecordingWriter {
    fn blocking_write(&mut self, bytes: &[u8]) -> Result<(), ()> {
        self.written.push(bytes.to_vec());
        Ok(())
    }
}

/// A transmitter whose every write faults.
struct FailingWriter;

impl WriteBlocking for FailingWriter {
    fn blocking_write(&mut self, _bytes: &[u8]) -> Result<(), ()> {
        Err(())
    }
}

#[test]
fn on_message_bytes() {
    assert_eq!(led_on_message(), b"LED ON\r\n".to_vec());
}

#[test]
fn off_message_bytes() {
    assert_eq!(led_off_message(), b"LED OFF\r\n".to_vec());
}

#[test]
fn interval_is_half_a_second() {
    assert_eq!(LED_BLINK_INTERVAL_MS, 500);
}

#[test]
fn first_second_of_run() {
    let mut b = Blinker::new();
    let mut now_ms: u64 = 0;

    let a0 = b.next_action();
    assert_eq!(now_ms, 0);
    assert_eq!(a0.level, Level::High);
    assert_eq!(a0.message, b"LED ON\r\n".to_vec());
    now_ms += a0.delay_ms;

    let a1 = b.next_action();
    assert_eq!(now_ms, 500);
    assert_eq!(a1.level, Level::Low);
    assert_eq!(a1.message, b"LED OFF\r\n".to_vec());
    now_ms += a1.delay_ms;

    let a2 = b.next_action();
    assert_eq!(now_ms, 1000);
    assert_eq!(a2.level, Level::High);
    assert_eq!(a2.message, b"LED ON\r\n".to_vec());
}

#[test]
fn messages_alternate_starting_with_on() {
    let mut b = Blinker::new();
    for n in 0..100u32 {
        let a = b.next_action();
        if n % 2 == 0 {
            assert_eq!(a.message, b"LED ON\r\n".to_vec());
        } else {
            assert_eq!(a.message, b"LED OFF\r\n".to_vec());
        }
    }
}

#[test]
fn level_matches_message() {
    let mut b = Blinker::new();
    for _ in 0..100u32 {
        let a = b.next_action();
        assert_eq!(a.level == Level::High, a.message == b"LED ON\r\n".to_vec());
        assert_eq!(a.level == Level::Low, a.message == b"LED OFF\r\n".to_vec());
    }
}

#[test]
fn constant_cadence() {
    let mut b = Blinker::new();
    for _ in 0..1000u32 {
        let a = b.next_action();
        assert_eq!(a.delay_ms, 500);
    }
}

#[test]
fn valid_alternation_after_many_iterations() {
    let mut b = Blinker::new();
    let mut previous: Option<Level> = None;
    for _ in 0..1000u32 {
        let a = b.next_action();
        if let Some(p) = previous {
            assert_ne!(a.level, p);
        }
        previous = Some(a.level);
    }
    assert_eq!(previous, Some(Level::Low));
}

#[test]
fn write_failure_does_not_alter_schedule() {
    let mut ok_tx = RecordingWriter { written: Vec::new() };
    let mut bad_tx = FailingWriter;
    let mut b_ok = Blinker::new();
    let mut b_bad = Blinker::new();
    for _ in 0..100u32 {
        let (level_ok, delay_ok) = b_ok.step(&mut ok_tx);
        let (level_bad, delay_bad) = b_bad.step(&mut bad_tx);
        assert_eq!(level_ok, level_bad);
        assert_eq!(delay_ok, delay_bad);
    }
}

#[test]
fn step_emits_each_transitions_line() {
    let mut tx = RecordingWriter { written: Vec::new() };
    let mut b = Blinker::new();
    for _ in 0..6u32 {
        b.step(&mut tx);
    }
    assert_eq!(tx.written.len(), 6);
    for (n, line) in tx.written.iter().enumerate() {
        if n % 2 == 0 {
            assert_eq!(line, &b"LED ON\r\n".to_vec());
        } else {
            assert_eq!(line, &b"LED OFF\r\n".to_vec());
        }
    }
}

#[test]
fn step_reports_the_level_the_pin_must_take() {
    let mut tx = FailingWriter;
    let mut b = Blinker::new();
    let (first, _) = b.step(&mut tx);
    let (second, _) = b.step(&mut tx);
    assert_eq!(first, Level::High);
    assert_eq!(second, Level::Low);
}
