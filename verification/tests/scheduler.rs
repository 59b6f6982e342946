use parity_orchestrator::scheduler::{trace_reveal_due, Scheduler, UNITS_PER_SECOND};

const SECOND: u64 = UNITS_PER_SECOND;

#[test]
fn units_are_nanoseconds() {
    assert_eq!(UNITS_PER_SECOND, 1_000_000_000);
}

#[test]
fn new_scheduler_counts_from_now() {
    let s = Scheduler::new(30, 17);
    assert_eq!(s.interval, 30 * SECOND);
    assert_eq!(s.last_publish, 17);
}

#[test]
fn no_publish_before_the_interval() {
    let start = 5 * SECOND;
    let mut s = Scheduler::new(30, start);
    for passed in [0, 1, SECOND, 29 * SECOND, 30 * SECOND - 1] {
        assert!(!s.tick(start + passed), "after {}", passed);
        assert_eq!(s.last_publish, start);
    }
}

#[test]
fn exactly_one_publish_at_the_interval() {
    let start = 5 * SECOND;
    let mut s = Scheduler::new(30, start);
    assert!(s.tick(start + 30 * SECOND));
    assert_eq!(s.last_publish, start + 30 * SECOND);
    assert!(!s.tick(start + 30 * SECOND));
    assert!(!s.tick(start + 31 * SECOND));
    assert!(!s.tick(start + 60 * SECOND - 1));
    assert!(s.tick(start + 60 * SECOND));
}

#[test]
fn late_tick_publishes_once_without_catching_up() {
    let mut s = Scheduler::new(30, 0);
    assert!(s.tick(100 * SECOND));
    assert_eq!(s.last_publish, 100 * SECOND);
    assert!(!s.tick(101 * SECOND));
    assert!(!s.tick(129 * SECOND));
    assert!(s.tick(130 * SECOND));
}

#[test]
fn clock_that_runs_backwards_counts_as_no_time() {
    let mut s = Scheduler::new(30, 100 * SECOND);
    assert!(!s.tick(0));
    assert_eq!(s.last_publish, 100 * SECOND);
}

#[test]
fn zero_interval_is_always_due() {
    let mut s = Scheduler::new(0, 10);
    assert!(s.tick(10));
    assert!(s.tick(10));
}

#[test]
fn longest_interval_fits() {
    let s = Scheduler::new(u16::MAX, 0);
    assert_eq!(s.interval, 65535 * SECOND);
}

#[test]
fn trace_is_revealed_every_so_many_whole_seconds() {
    assert!(!trace_reveal_due(10, 0, 10 * SECOND - 1));
    assert!(trace_reveal_due(10, 0, 10 * SECOND));
    assert!(trace_reveal_due(10, SECOND, 12 * SECOND));
    assert!(!trace_reveal_due(10, 5 * SECOND, 0));
    assert!(trace_reveal_due(1, 0, SECOND));
}

#[test]
fn trace_is_never_revealed_when_switched_off() {
    assert!(!trace_reveal_due(0, 0, 0));
    assert!(!trace_reveal_due(0, 0, u64::MAX));
}
