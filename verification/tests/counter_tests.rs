use counter_demo::counter::Counter;

#[test]
fn new_counter_reports_initial_text() {
    let c = Counter::new(10000);
    assert_eq!(c.as_text(), "10000");
}

#[test]
fn increment_steps_the_text() {
    let mut c = Counter::new(10000);
    c.increment();
    assert_eq!(c.as_text(), "10001");
}

#[test]
fn increments_accumulate() {
    let mut c = Counter::new(0);
    for _ in 0..250 {
        c.increment();
    }
    assert_eq!(c.as_text(), "250");
}

#[test]
fn counter_crosses_digit_boundaries() {
    let mut c = Counter::new(99);
    c.increment();
    assert_eq!(c.as_text(), "100");
}
