use heaterctl::{
    controller_cycle, current_status, heater1_tempareture, thermometer_cycle, ErrorDetector,
    HeaterControl, SharedStateStore, State, Thermometer, TemperatureCurve,
};

/// Drives both cycles on their real cadence — sampling every 20 ms,
/// control every 50 ms — over a ramp from the cold end of the table up to
/// code 1910 (33.86 degrees), then holds it.
#[test]
fn ramp_to_warm_turns_the_heater_on_on_the_hundredth_control_cycle() {
    let curve = TemperatureCurve::new();
    let mut h1 = Thermometer::new(22);
    let mut h2 = Thermometer::new(22);
    let mut hc = HeaterControl::new();
    let mut det = ErrorDetector::new();
    let mut store = SharedStateStore::new();

    assert_eq!(current_status(&store), State::Initializing);

    let mut control_cycles = 0;
    let mut heater_on = false;
    for t in (10..=6000).step_by(10) {
        if t % 20 == 0 {
            let sample = t / 20;
            let code = u16::min(1910, sample * 40);
            thermometer_cycle(&mut h1, &mut h2, &curve, code, code, 876, &mut store);
        }
        if t % 50 == 0 {
            heater_on = controller_cycle(&mut hc, &mut det, &mut store);
            control_cycles += 1;
            if control_cycles < 100 {
                assert!(!heater_on, "heater on too early, control cycle {control_cycles}");
                assert_eq!(current_status(&store), State::Saturating);
            } else {
                assert!(heater_on, "heater off at control cycle {control_cycles}");
                assert_eq!(current_status(&store), State::Heating);
            }
        }
    }
    assert_eq!(control_cycles, 120);
    assert!(heater_on);

    // after five seconds on the held code the smoothed reading has
    // settled on the table value of code 1910: 33.86 degrees
    assert_eq!(heater1_tempareture(&store), 3386);
}
