use stable_fun::Counter;
use stable_fun::CounterError;

#[test]
fn a_new_counter_stands_at_zero() {
    assert_eq!(Counter::initialize().count, 0);
}

#[test]
fn increment_adds_exactly_one() {
    let mut counter = Counter::initialize();
    assert_eq!(counter.increment(), Ok(()));
    assert_eq!(counter.count, 1);
    counter.set(41);
    assert_eq!(counter.increment(), Ok(()));
    assert_eq!(counter.count, 42);
    counter.set(254);
    assert_eq!(counter.increment(), Ok(()));
    assert_eq!(counter.count, 255);
}

#[test]
fn decrement_takes_exactly_one() {
    let mut counter = Counter { count: 255 };
    assert_eq!(counter.decrement(), Ok(()));
    assert_eq!(counter.count, 254);
    counter.set(1);
    assert_eq!(counter.decrement(), Ok(()));
    assert_eq!(counter.count, 0);
}

#[test]
fn increment_stops_at_the_upper_bound() {
    let mut counter = Counter { count: 255 };
    assert_eq!(counter.increment(), Err(CounterError::Overflow));
    assert_eq!(counter.count, 255);
    assert_eq!(counter.increment(), Err(CounterError::Overflow));
    assert_eq!(counter.count, 255);
}

#[test]
fn decrement_stops_at_zero() {
    let mut counter = Counter::initialize();
    assert_eq!(counter.decrement(), Err(CounterError::Underflow));
    assert_eq!(counter.count, 0);
}

#[test]
fn set_puts_any_value() {
    let mut counter = Counter::initialize();
    for value in [0u8, 1, 128, 255] {
        counter.set(value);
        assert_eq!(counter.count, value);
    }
}

#[test]
fn a_step_up_and_a_step_down_cancel() {
    for start in [0u8, 1, 100, 254] {
        let mut counter = Counter { count: start };
        assert_eq!(counter.increment(), Ok(()));
        assert_eq!(counter.decrement(), Ok(()));
        assert_eq!(counter.count, start);
    }
}

#[test]
fn every_count_is_reached_by_steps() {
    let mut counter = Counter::initialize();
    for expected in 1..=255u8 {
        assert!(counter.increment().is_ok());
        assert_eq!(counter.count, expected);
    }
    assert!(counter.increment().is_err());
}
