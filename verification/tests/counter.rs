use heaterctl::Counter;

#[test]
fn counter_counts_up_to_limit_and_saturates() {
    let mut c = Counter::new(3);
    assert!(!c.is_reach_limit());
    c.count(true);
    assert!(!c.is_reach_limit());
    c.count(true);
    assert!(!c.is_reach_limit());
    c.count(true);
    assert!(c.is_reach_limit());
    // saturated: further positive observations keep it at the limit
    c.count(true);
    assert!(c.is_reach_limit());
}

#[test]
fn counter_resets_on_single_false_observation() {
    let mut c = Counter::new(5);
    for _ in 0..4 {
        c.count(true);
    }
    assert!(!c.is_reach_limit());
    c.count(false);
    // the run starts over: four more trues are not enough
    for _ in 0..4 {
        c.count(true);
    }
    assert!(!c.is_reach_limit());
    c.count(true);
    assert!(c.is_reach_limit());
}

#[test]
fn counter_reach_reported_by_count_return() {
    let mut c = Counter::new(2);
    assert!(!c.count(true).is_reach_limit());
    assert!(c.count(true).is_reach_limit());
}

#[test]
fn counter_reset_clears_the_count() {
    let mut c = Counter::new(2);
    c.count(true);
    c.count(true);
    assert!(c.is_reach_limit());
    c.reset();
    assert!(!c.is_reach_limit());
    c.count(true);
    assert!(!c.is_reach_limit());
    c.count(true);
    assert!(c.is_reach_limit());
}

#[test]
fn counter_with_zero_limit_is_immediately_satisfied() {
    let mut c = Counter::new(0);
    assert!(c.is_reach_limit());
    c.count(true);
    assert!(c.is_reach_limit());
    c.count(false);
    assert!(c.is_reach_limit());
}
