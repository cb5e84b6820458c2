use vivarium_core::metrics::{
    calibration_scaled_milli, die_temp_millicelsius, display_metrics, ADC_MAX,
};

#[test]
fn die_temp_for_raw_745() {
    // raw = 745: voltage = 745 * 3.3 / 4096 V; temperature =
    // 27.0 - (voltage - 0.706) / 0.001721, about 88.46 C.
    assert_eq!(die_temp_millicelsius(745), 88_464);
}

#[test]
fn die_temp_matches_the_floating_point_formula() {
    for raw in [0u16, 100, 745, 876, 877, 2048, 4095] {
        let voltage = raw as f64 * 3.3 / 4096.0;
        let celsius = 27.0 - (voltage - 0.706) / 0.001721;
        let milli = die_temp_millicelsius(raw) as f64 / 1000.0;
        assert!((milli - celsius).abs() < 0.01, "raw {}: {} vs {}", raw, milli, celsius);
    }
}

#[test]
fn die_temp_at_the_sensor_offset() {
    // Around 0.706 V (raw 876/877) the formula crosses its reference
    // point; both sides stay near 27 C.
    assert_eq!(die_temp_millicelsius(876), 27_138);
    assert_eq!(die_temp_millicelsius(877), 26_671);
}

#[test]
fn die_temp_extremes_stay_in_range() {
    assert_eq!(die_temp_millicelsius(0), 437_226);
    assert_eq!(die_temp_millicelsius(ADC_MAX), -1_479_794);
}

#[test]
fn calibration_scale_of_127_is_exactly_one() {
    // (127 + 1) / 128 = 1.0, i.e. one thousand thousandths.
    assert_eq!(calibration_scaled_milli(127), 1000);
}

#[test]
fn calibration_scale_truncates() {
    // (0 + 1) * 1000 / 128 = 7.8125 truncated.
    assert_eq!(calibration_scaled_milli(0), 7);
    // (4094 + 1) * 1000 / 128 = 31992.1875 truncated.
    assert_eq!(calibration_scaled_milli(4094), 31_992);
}

#[test]
fn display_metrics_combines_both_conversions() {
    let r = display_metrics(745, 127);
    assert_eq!(r.die_temp_milli, 88_464);
    assert_eq!(r.calibration_scale_milli, 1000);
}
