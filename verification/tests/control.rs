use heaterctl::{
    controller_cycle, current_status, current_status_string, errcode, ErrorCode, ErrorDetector,
    HeaterControl, LedStatus, SharedStateStore, State,
};

#[test]
fn a_latched_fault_forces_error_and_heater_off_forever() {
    let mut hc = HeaterControl::new();
    let mut det = ErrorDetector::new();
    let mut store = SharedStateStore::new();

    store.write_temperatures(46000, 0, 0);
    // before the fault latches the machine saturates: 46.00 degrees is
    // far above the turn-on threshold
    for cycle in 1..=39 {
        let on = controller_cycle(&mut hc, &mut det, &mut store);
        assert!(!on);
        assert_eq!(current_status(&store), State::Saturating, "cycle {cycle}");
    }
    // the overheat fault latches on the fortieth cycle and the mode goes
    // to Error in that same cycle, heater off
    let on = controller_cycle(&mut hc, &mut det, &mut store);
    assert!(!on);
    assert_eq!(current_status(&store), State::Error);
    assert!(matches!(errcode(&store), ErrorCode::Heater1OverHeatError { .. }));
    assert_eq!(store.led_status(), LedStatus::Error);

    // from then on: Error and heater off on every cycle, whatever the
    // temperature reads
    for temp in [20000, 33000, -15000, 46000, 0] {
        store.write_temperatures(temp, 0, 0);
        for _ in 0..30 {
            let on = controller_cycle(&mut hc, &mut det, &mut store);
            assert!(!on);
            assert_eq!(current_status(&store), State::Error);
            assert_ne!(errcode(&store), ErrorCode::NoError);
        }
    }
}

#[test]
fn cold_cycles_drive_saturating_then_heating() {
    let mut hc = HeaterControl::new();
    let mut det = ErrorDetector::new();
    let mut store = SharedStateStore::new();

    assert_eq!(current_status(&store), State::Initializing);
    store.write_temperatures(33000, 0, 0);
    for cycle in 1..=99 {
        let on = controller_cycle(&mut hc, &mut det, &mut store);
        assert!(!on, "heater on too early, cycle {cycle}");
        assert_eq!(current_status(&store), State::Saturating);
        assert_eq!(store.led_status(), LedStatus::Saturating);
    }
    let on = controller_cycle(&mut hc, &mut det, &mut store);
    assert!(on);
    assert_eq!(current_status(&store), State::Heating);
    assert_eq!(store.led_status(), LedStatus::Heating);
    assert_eq!(errcode(&store), ErrorCode::NoError);
}

#[test]
fn store_starts_initializing_with_no_fault() {
    let store = SharedStateStore::new();
    assert_eq!(current_status(&store), State::Initializing);
    assert_eq!(errcode(&store), ErrorCode::NoError);
    assert_eq!(store.led_status(), LedStatus::Stop);
    assert_eq!(store.heater1_temp(), 0);
    assert_eq!(store.heater2_temp(), 0);
    assert_eq!(store.cpu_temp(), 0);
}

#[test]
fn status_names_for_every_mode() {
    assert_eq!(current_status_string(State::Initializing), "Initializing");
    assert_eq!(current_status_string(State::Heating), "Heating");
    assert_eq!(current_status_string(State::Saturating), "Saturating");
    assert_eq!(current_status_string(State::Error), "Error");
}

#[test]
fn disconnect_reading_latches_its_own_fault_through_the_cycle() {
    let mut hc = HeaterControl::new();
    let mut det = ErrorDetector::new();
    let mut store = SharedStateStore::new();

    store.write_temperatures(-15000, 0, 0);
    for _ in 0..19 {
        controller_cycle(&mut hc, &mut det, &mut store);
        assert_eq!(errcode(&store), ErrorCode::NoError);
    }
    controller_cycle(&mut hc, &mut det, &mut store);
    match errcode(&store) {
        ErrorCode::Heater1ThermistorDisconnectError { errcode, message } => {
            assert_eq!(errcode, 2);
            assert_eq!(message, "Heater1 thermistor disconnected error.");
        }
        other => panic!("expected the disconnect fault, got {other:?}"),
    }
    assert_eq!(current_status(&store), State::Error);
}
