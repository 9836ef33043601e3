use pulse_oximeter::spo2::{saturation_of_averages, smooth_saturation, SpO2Detector};

#[test]
fn new_saturation_detector_knows_nothing() {
    let d = SpO2Detector::new();
    assert_eq!(d.spo2(), 0);
}

#[test]
fn absent_finger_reads_zero_saturation_forever() {
    let mut d = SpO2Detector::new();
    for i in 0..5000u32 {
        let red = (i * 7919) % 1000;
        let ir = (i * 104729) % 1000;
        assert_eq!(d.process_sample(red, ir), 0);
    }
    assert_eq!(d.spo2(), 0);
}

#[test]
fn one_weak_channel_is_enough_to_skip_a_sample() {
    let mut d = SpO2Detector::new();
    for _ in 0..300 {
        assert_eq!(d.process_sample(999, 50000), 0);
        assert_eq!(d.process_sample(50000, 999), 0);
    }
}

#[test]
fn skipped_samples_do_not_count_toward_the_window() {
    let mut d = SpO2Detector::new();
    for _ in 0..99 {
        assert_eq!(d.process_sample(50000, 50000), 0);
        assert_eq!(d.process_sample(0, 0), 0);
    }
    assert_eq!(d.process_sample(50000, 50000), 87);
}

#[test]
fn window_closes_at_one_hundred_samples() {
    let mut d = SpO2Detector::new();
    for _ in 0..99 {
        assert_eq!(d.process_sample(50000, 50000), 0);
    }
    assert_eq!(d.process_sample(50000, 50000), 87);
}

#[test]
fn constant_channels_keep_the_first_estimate() {
    let mut d = SpO2Detector::new();
    for _ in 0..100 {
        d.process_sample(50000, 50000);
    }
    assert_eq!(d.spo2(), 87);
    for _ in 0..400 {
        assert_eq!(d.process_sample(50000, 50000), 87);
    }
}

#[test]
fn flat_reflectance_is_smoothed_toward_one_hundred() {
    let mut d = SpO2Detector::new();
    let mut closes = Vec::new();
    for i in 0..500u32 {
        let ir = if i % 2 == 0 { 50000 } else { 52000 };
        let v = d.process_sample(50000, ir);
        if i % 100 == 99 {
            closes.push(v);
        }
    }
    assert_eq!(closes, vec![87, 90, 92, 94, 95]);
}

#[test]
fn equal_pulsation_reads_lower_than_flat_reflectance() {
    let mut d = SpO2Detector::new();
    let mut closes = Vec::new();
    for i in 0..300u32 {
        let red = if i % 2 == 0 { 50000 } else { 51000 };
        let ir = if i % 2 == 0 { 50000 } else { 52000 };
        let v = d.process_sample(red, ir);
        if i % 100 == 99 {
            closes.push(v);
        }
    }
    assert_eq!(closes, vec![87, 89, 90]);
}

#[test]
fn strong_reflectance_pulsation_pulls_the_value_down() {
    let mut d = SpO2Detector::new();
    let mut closes = Vec::new();
    for i in 0..300u32 {
        let red = if i % 2 == 0 { 50000 } else { 54000 };
        let ir = if i % 2 == 0 { 50000 } else { 52000 };
        let v = d.process_sample(red, ir);
        if i % 100 == 99 {
            closes.push(v);
        }
    }
    assert_eq!(closes, vec![86, 82, 79]);
}

#[test]
fn calibration_line() {
    // 104 - 17 R, with fitted constants
    assert_eq!(saturation_of_averages(100, 50000, 100, 50000), Some(87));
    assert_eq!(saturation_of_averages(50, 50000, 100, 50000), Some(95));
    assert_eq!(saturation_of_averages(150, 50000, 100, 50000), Some(78));
    assert_eq!(saturation_of_averages(2000, 50000, 1000, 40000), Some(76));
    assert_eq!(saturation_of_averages(500, 50000, 1000, 50000), Some(95));
}

#[test]
fn estimate_is_held_to_seventy_and_one_hundred() {
    assert_eq!(saturation_of_averages(0, 50000, 100, 50000), Some(100));
    assert_eq!(saturation_of_averages(1000, 50000, 100, 50000), Some(70));
    assert_eq!(saturation_of_averages(u64::MAX, 1, 1, 1), Some(70));
}

#[test]
fn zero_infrared_steady_average_gives_no_estimate() {
    assert_eq!(saturation_of_averages(100, 50000, 100, 0), None);
}

#[test]
fn zero_reflectance_steady_average_gives_no_estimate() {
    assert_eq!(saturation_of_averages(100, 0, 100, 50000), None);
}

#[test]
fn zero_infrared_pulsation_gives_no_estimate() {
    assert_eq!(saturation_of_averages(100, 50000, 0, 50000), None);
}

#[test]
fn vanishing_infrared_ratio_gives_no_estimate() {
    assert_eq!(saturation_of_averages(100, 50000, 10, 50000), None);
}

#[test]
fn degenerate_window_keeps_value_and_starts_anew() {
    let mut d = SpO2Detector::new();
    for _ in 0..100 {
        d.process_sample(50000, 50000);
    }
    assert_eq!(d.spo2(), 87);
    // the filters have settled: this window has no pulsatile infrared part
    for _ in 0..100 {
        assert_eq!(d.process_sample(50000, 50000), 87);
    }
    // the next window starts from empty sums: it closes after 100 samples
    for i in 0..100u32 {
        let ir = if i % 2 == 0 { 50000 } else { 52000 };
        let v = d.process_sample(50000, ir);
        if i < 99 {
            assert_eq!(v, 87);
        } else {
            assert_eq!(v, 90);
        }
    }
}

#[test]
fn smoothing_weights_three_to_one() {
    assert_eq!(smooth_saturation(0, 87), 87);
    assert_eq!(smooth_saturation(87, 100), 90);
    assert_eq!(smooth_saturation(100, 70), 92);
    assert_eq!(smooth_saturation(97, 100), 97);
    assert_eq!(smooth_saturation(98, 100), 98);
}

#[test]
fn signal_quality_needs_both_channels_above_five_thousand() {
    let d = SpO2Detector::new();
    assert!(d.get_signal_quality(5001, 5001));
    assert!(!d.get_signal_quality(5000, 5001));
    assert!(!d.get_signal_quality(5001, 5000));
    assert!(!d.get_signal_quality(0, 0));
    assert!(d.get_signal_quality(u32::MAX, u32::MAX));
}

#[test]
fn largest_magnitudes_are_taken_on_both_channels() {
    let mut d = SpO2Detector::new();
    for i in 0..1000u32 {
        let red = if i % 3 == 0 { u32::MAX } else { 1000 };
        let ir = if i % 5 == 0 { 1000 } else { u32::MAX };
        let v = d.process_sample(red, ir);
        assert!(v == 0 || (v >= 70 && v <= 100));
    }
}
