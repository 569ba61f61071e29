use heaterctl::thermometer::{convert_to_celsius, get_tempareture_from_table, to_hundredths};
use heaterctl::{Thermometer, TemperatureCurve};

#[test]
fn curve_is_exact_on_bucket_boundaries() {
    let curve = TemperatureCurve::new();
    // at a code that is a multiple of ten the table entry comes back
    // exactly, in milli-degrees: entry * 10
    assert_eq!(get_tempareture_from_table(&curve, 0), -73000);
    assert_eq!(get_tempareture_from_table(&curve, 10), -73000);
    assert_eq!(get_tempareture_from_table(&curve, 20), -64400);
    assert_eq!(get_tempareture_from_table(&curve, 100), -41050);
    assert_eq!(get_tempareture_from_table(&curve, 1910), 33860);
    assert_eq!(get_tempareture_from_table(&curve, 4090), 327670);
}

#[test]
fn curve_interpolates_inside_a_bucket() {
    let curve = TemperatureCurve::new();
    // halfway between entries 1 (-73.00) and 2 (-64.40):
    // -73000 + (-64400 - -73000) * 5 / 10
    assert_eq!(get_tempareture_from_table(&curve, 15), -68700);
    // one step into the bucket of entry 191 (33.86 .. 34.13)
    assert_eq!(get_tempareture_from_table(&curve, 1911), 33887);
}

#[test]
fn curve_clips_codes_to_the_12bit_range() {
    let curve = TemperatureCurve::new();
    let at_max = get_tempareture_from_table(&curve, 4095);
    assert_eq!(get_tempareture_from_table(&curve, 4096), at_max);
    assert_eq!(get_tempareture_from_table(&curve, u16::MAX), at_max);
}

#[test]
fn smoother_first_sample_takes_alpha_weight() {
    let curve = TemperatureCurve::new();
    let mut th = Thermometer::new(22);
    // state starts at 0.00: first sample contributes alpha of its value
    // code 1910 converts to 33860; (22 * 33860 + 78 * 0) / 100 = 7449
    let t = th.calc_next(&curve, 1910);
    assert_eq!(t, 7449);
}

#[test]
fn smoother_converges_to_a_held_input() {
    let curve = TemperatureCurve::new();
    let mut th = Thermometer::new(22);
    let mut last = 0;
    for _ in 0..250 {
        last = th.calc_next(&curve, 1910);
    }
    // the held input converts to 33860; the integer filter settles within
    // 99 / 22 = 4 milli-degrees below it
    assert!((33856..=33860).contains(&last), "smoothed value {last}");
}

#[test]
fn smoother_rounds_the_average_towards_minus_infinity() {
    let curve = TemperatureCurve::new();
    let mut th = Thermometer::new(22);
    // code 0 converts to -73000: (22 * -73000) / 100 = -16060 exactly;
    // a second cold sample gives (22 * -73000 + 78 * -16060) / 100,
    // which is -28586.8 and floors to -28587
    assert_eq!(th.calc_next(&curve, 0), -16060);
    assert_eq!(th.calc_next(&curve, 0), -28587);
}

#[test]
fn cpu_conversion_matches_the_reference_formula() {
    // raw 876 reads 705_761_718 nV, 238_282 nV below the 0.706 V anchor:
    // floor(-238282 / 1721) = -139, and 27.000 - (-0.139) = 27.139 degrees
    assert_eq!(convert_to_celsius(876), 27139);
    // raw 891 reads above the anchor and lands below 27 degrees
    assert_eq!(convert_to_celsius(891), 20117);
}

#[test]
fn read_boundary_rounds_to_the_nearest_hundredth() {
    assert_eq!(to_hundredths(35555), 3556);
    assert_eq!(to_hundredths(33854), 3385);
    assert_eq!(to_hundredths(33855), 3386);
    assert_eq!(to_hundredths(5), 1);
    assert_eq!(to_hundredths(4), 0);
    // negative temperatures keep their sign through this boundary
    assert_eq!(to_hundredths(-4), 0);
    assert_eq!(to_hundredths(-6), -1);
    assert_eq!(to_hundredths(-35), -3);
    assert_eq!(to_hundredths(-20000), -2000);
    assert_eq!(to_hundredths(-73000), -7300);
}
