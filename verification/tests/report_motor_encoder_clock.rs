use mover_controller::clock::LoopClock;
use mover_controller::encoder::EdgeCounter;
use mover_controller::motor::{MotorDirection, PinWrite};
use mover_controller::report::status_report;

#[test]
fn report_lists_values_after_their_labels() {
    let report = status_report(b"1000", b"800", b"0", b"12.5", b"-3", b"40", b"0");
    assert_eq!(report, b"kp:1000 ki:800 kd:0 sa:12.5 sb:-3 ta:40 tb:0\r\n".to_vec());
}

#[test]
fn report_of_empty_texts_is_just_labels() {
    let report = status_report(b"", b"", b"", b"", b"", b"", b"");
    assert_eq!(report, b"kp: ki: kd: sa: sb: ta: tb:\r\n".to_vec());
}

#[test]
fn reversing_swaps_directions() {
    assert_eq!(!MotorDirection::Forward, MotorDirection::Reverse);
    assert_eq!(!MotorDirection::Reverse, MotorDirection::Forward);
    assert_eq!(!!MotorDirection::Forward, MotorDirection::Forward);
}

#[test]
fn forward_drives_first_pin_high_then_second_low() {
    assert_eq!(
        MotorDirection::Forward.pin_writes(),
        [PinWrite { pin: 0, high: true }, PinWrite { pin: 1, high: false }]
    );
}

#[test]
fn reverse_drives_second_pin_high_then_first_low() {
    assert_eq!(
        MotorDirection::Reverse.pin_writes(),
        [PinWrite { pin: 1, high: true }, PinWrite { pin: 0, high: false }]
    );
}

#[test]
fn edges_are_counted_until_taken() {
    let mut counter = EdgeCounter::new();
    counter.record(true, false);
    counter.record(true, true);
    counter.record(false, false);
    counter.record(false, true);
    assert_eq!(counter.count(), 4);
    assert_eq!(counter.take(), 4);
    assert_eq!(counter.take(), 0);
    counter.record(true, true);
    assert_eq!(counter.take(), 2);
}

#[test]
fn first_tick_measures_nothing() {
    let mut clock = LoopClock::new();
    assert_eq!(clock.tick(5_000), 0);
    assert_eq!(clock.tick(15_000), 10_000);
    assert_eq!(clock.tick(15_500), 500);
}

#[test]
fn ticks_at_reading_zero_keep_clock_unstarted() {
    let mut clock = LoopClock::new();
    assert_eq!(clock.tick(0), 0);
    assert_eq!(clock.tick(700), 0);
    assert_eq!(clock.tick(1_000), 300);
}
