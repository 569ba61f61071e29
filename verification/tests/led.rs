use heaterctl::led::set_led;
use heaterctl::{LedBlinker, LedStatus, SharedStateStore};

#[test]
fn stop_keeps_the_led_dark() {
    let mut bl = LedBlinker::new();
    for _ in 0..100 {
        assert!(!bl.step(LedStatus::Stop));
    }
}

#[test]
fn heating_blinks_with_a_one_second_period() {
    let mut bl = LedBlinker::new();
    // 50 ticks lit, 50 ticks dark, at 10 ms per tick
    for cycle in 0..3 {
        for tick in 0..50 {
            assert!(bl.step(LedStatus::Heating), "cycle {cycle} tick {tick}");
        }
        for tick in 0..50 {
            assert!(!bl.step(LedStatus::Heating), "cycle {cycle} tick {tick}");
        }
    }
}

#[test]
fn saturating_blinks_with_a_two_second_period() {
    let mut bl = LedBlinker::new();
    for _ in 0..100 {
        assert!(bl.step(LedStatus::Saturating));
    }
    for _ in 0..100 {
        assert!(!bl.step(LedStatus::Saturating));
    }
    for _ in 0..100 {
        assert!(bl.step(LedStatus::Saturating));
    }
}

#[test]
fn error_blinks_fast() {
    let mut bl = LedBlinker::new();
    for _ in 0..10 {
        assert!(bl.step(LedStatus::Error));
    }
    for _ in 0..10 {
        assert!(!bl.step(LedStatus::Error));
    }
}

#[test]
fn a_status_change_is_adopted_at_the_next_dark_rollover() {
    let mut bl = LedBlinker::new();
    // adopt the heating pattern and run half of its lit phase
    for _ in 0..25 {
        assert!(bl.step(LedStatus::Heating));
    }
    // the pattern only changes when the budget is spent and the LED is
    // dark: finish the lit phase and the dark phase on the old pattern
    for _ in 0..25 {
        assert!(bl.step(LedStatus::Error));
    }
    for _ in 0..50 {
        assert!(!bl.step(LedStatus::Error));
    }
    // now the error pattern is adopted
    for _ in 0..10 {
        assert!(bl.step(LedStatus::Error));
    }
    for _ in 0..10 {
        assert!(!bl.step(LedStatus::Error));
    }
}

#[test]
fn set_led_updates_only_the_led_status() {
    let mut store = SharedStateStore::new();
    store.write_temperatures(1000, 2000, 3000);
    set_led(&mut store, LedStatus::Heating);
    assert_eq!(store.led_status(), LedStatus::Heating);
    assert_eq!(store.heater1_temp(), 1000);
    assert_eq!(store.heater2_temp(), 2000);
    assert_eq!(store.cpu_temp(), 3000);
}
