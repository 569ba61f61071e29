use heaterctl::controller::detect_error;
use heaterctl::{ErrorCode, ErrorDetector};

#[test]
fn overheat_latches_exactly_on_the_fortieth_cycle() {
    let mut det = ErrorDetector::new();
    for cycle in 1..=39 {
        det.heater_overheat(46000);
        det.heater_thermistor_disconnect(46000);
        assert_eq!(det.errcode(), ErrorCode::NoError, "latched too early, cycle {cycle}");
    }
    det.heater_overheat(46000);
    match det.errcode() {
        ErrorCode::Heater1OverHeatError { errcode, message } => {
            assert_eq!(errcode, 1);
            assert_eq!(message, "Heater1 overheat error.");
        }
        other => panic!("expected the overheat fault, got {other:?}"),
    }
}

#[test]
fn overheat_stays_latched_after_a_return_to_normal() {
    let mut det = ErrorDetector::new();
    for _ in 0..40 {
        det.heater_overheat(46000);
        det.heater_thermistor_disconnect(46000);
    }
    for _ in 0..100 {
        det.heater_overheat(20000);
        det.heater_thermistor_disconnect(20000);
        assert!(matches!(
            det.errcode(),
            ErrorCode::Heater1OverHeatError { .. }
        ));
    }
}

#[test]
fn disconnect_latches_exactly_on_the_twentieth_cycle() {
    let mut det = ErrorDetector::new();
    for cycle in 1..=19 {
        det.heater_overheat(-15000);
        det.heater_thermistor_disconnect(-15000);
        assert_eq!(det.errcode(), ErrorCode::NoError, "latched too early, cycle {cycle}");
    }
    det.heater_overheat(-15000);
    det.heater_thermistor_disconnect(-15000);
    match det.errcode() {
        ErrorCode::Heater1ThermistorDisconnectError { errcode, message } => {
            assert_eq!(errcode, 2);
            assert_eq!(message, "Heater1 thermistor disconnected error.");
        }
        other => panic!("expected the disconnect fault, got {other:?}"),
    }
}

#[test]
fn disconnect_overwrites_an_earlier_overheat() {
    let mut det = ErrorDetector::new();
    for _ in 0..40 {
        det.heater_overheat(46000);
        det.heater_thermistor_disconnect(46000);
    }
    assert!(matches!(det.errcode(), ErrorCode::Heater1OverHeatError { .. }));
    for _ in 0..20 {
        det.heater_overheat(-15000);
        det.heater_thermistor_disconnect(-15000);
    }
    assert!(matches!(
        det.errcode(),
        ErrorCode::Heater1ThermistorDisconnectError { .. }
    ));
}

#[test]
fn detect_error_reports_whether_a_fault_is_latched() {
    let mut det = ErrorDetector::new();
    for _ in 0..39 {
        assert!(!detect_error(&mut det, 46000));
    }
    assert!(detect_error(&mut det, 46000));
    assert!(detect_error(&mut det, 20000));
}

#[test]
fn interrupted_overheat_runs_never_latch() {
    let mut det = ErrorDetector::new();
    for _ in 0..10 {
        for _ in 0..39 {
            det.heater_overheat(46000);
        }
        det.heater_overheat(44000);
    }
    assert_eq!(det.errcode(), ErrorCode::NoError);
}
