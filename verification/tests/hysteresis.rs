use heaterctl::HeaterControl;

#[test]
fn heater_turns_on_exactly_on_the_hundredth_cold_cycle() {
    let mut hc = HeaterControl::new();
    for cycle in 1..=99 {
        hc.control(33000);
        assert!(!hc.is_on(), "heater on too early, cycle {cycle}");
    }
    hc.control(33000);
    assert!(hc.is_on(), "heater must turn on on the hundredth cycle");
    // and it stays on while the temperature stays cold
    for _ in 0..50 {
        hc.control(33000);
        assert!(hc.is_on());
    }
}

#[test]
fn heater_turns_off_exactly_on_the_twentieth_hot_cycle() {
    let mut hc = HeaterControl::new();
    for _ in 0..100 {
        hc.control(33000);
    }
    assert!(hc.is_on());
    for cycle in 1..=19 {
        hc.control(35500);
        assert!(hc.is_on(), "heater off too early, cycle {cycle}");
    }
    hc.control(35500);
    assert!(!hc.is_on(), "heater must turn off on the twentieth cycle");
    for _ in 0..50 {
        hc.control(35500);
        assert!(!hc.is_on());
    }
}

#[test]
fn oscillation_across_the_deadband_never_triggers_a_transition() {
    // 34.50 and 35.50 alternate every cycle: whichever counter is being
    // fed sees its condition fail every other cycle and never completes
    // a run, so the actuator never moves
    let mut hc = HeaterControl::new();
    for i in 0..200 {
        hc.control(if i % 2 == 0 { 34500 } else { 35500 });
        assert!(!hc.is_on());
    }

    // same while the heater is on
    let mut hc = HeaterControl::new();
    for _ in 0..100 {
        hc.control(33000);
    }
    assert!(hc.is_on());
    for i in 0..200 {
        hc.control(if i % 2 == 0 { 34500 } else { 35500 });
        assert!(hc.is_on());
    }
}

#[test]
fn temperatures_inside_the_deadband_change_nothing() {
    let mut hc = HeaterControl::new();
    for _ in 0..500 {
        hc.control(34500);
        assert!(!hc.is_on());
    }
    // interrupted cold runs never complete either
    for _ in 0..10 {
        for _ in 0..99 {
            hc.control(33000);
        }
        hc.control(34200);
        assert!(!hc.is_on());
    }
}
