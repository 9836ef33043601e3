use pulse_oximeter::heart_rate::HeartRateDetector;
use pulse_oximeter::monitor::{PulseOximeter, Reading, Sample};
use pulse_oximeter::spo2::SpO2Detector;

fn pulse_train(from: u32, to: u32) -> Vec<Sample> {
    let mut samples = Vec::new();
    for i in from..to {
        samples.push(Sample { red: 40000, ir: if i % 100 == 50 { 60000 } else { 50000 } });
    }
    samples
}

#[test]
fn new_oximeter_reads_zero() {
    let o = PulseOximeter::new();
    assert_eq!(o.reading(), Reading { bpm: 0, spo2: 0 });
    assert_eq!(o.time_ms(), 0);
    assert_eq!(o.get_signal_range(), 0);
}

#[test]
fn empty_batch_changes_nothing() {
    let mut o = PulseOximeter::new();
    assert_eq!(o.process_batch(&[]), Reading { bpm: 0, spo2: 0 });
    assert_eq!(o.time_ms(), 0);
    o.process_batch(&pulse_train(0, 300));
    let before = o.reading();
    assert_eq!(o.process_batch(&[]), before);
    assert_eq!(o.time_ms(), 3000);
}

#[test]
fn clock_advances_ten_ms_per_sample() {
    let mut o = PulseOximeter::new();
    o.process_sample(Sample { red: 0, ir: 0 });
    assert_eq!(o.time_ms(), 10);
    o.process_sample(Sample { red: 50000, ir: 50000 });
    assert_eq!(o.time_ms(), 20);
    o.process_batch(&pulse_train(0, 16));
    assert_eq!(o.time_ms(), 180);
}

#[test]
fn absent_finger_reads_zero_for_both() {
    let mut o = PulseOximeter::new();
    let mut batch = Vec::new();
    for i in 0..16u32 {
        batch.push(Sample { red: (i * 61) % 1000, ir: 999 - i });
    }
    for _ in 0..500 {
        assert_eq!(o.process_batch(&batch), Reading { bpm: 0, spo2: 0 });
    }
    assert_eq!(o.time_ms(), 80000);
    assert_eq!(o.get_signal_range(), 0);
}

#[test]
fn both_estimates_from_one_stream() {
    let mut o = PulseOximeter::new();
    let mut closes = Vec::new();
    for k in 0..7u32 {
        closes.push(o.process_batch(&pulse_train(k * 100, (k + 1) * 100)));
    }
    assert_eq!(
        closes,
        vec![
            Reading { bpm: 0, spo2: 87 },
            Reading { bpm: 0, spo2: 90 },
            Reading { bpm: 60, spo2: 92 },
            Reading { bpm: 60, spo2: 94 },
            Reading { bpm: 60, spo2: 95 },
            Reading { bpm: 60, spo2: 96 },
            Reading { bpm: 60, spo2: 97 },
        ]
    );
    assert_eq!(o.time_ms(), 7000);
    assert_eq!(o.get_signal_range(), 9986);
}

#[test]
fn batches_are_the_samples_in_turn() {
    let samples = pulse_train(0, 1000);
    let mut whole = PulseOximeter::new();
    let at_once = whole.process_batch(&samples);
    let mut pieces = PulseOximeter::new();
    let mut last = pieces.reading();
    for chunk in samples.chunks(16) {
        last = pieces.process_batch(chunk);
    }
    let mut single = PulseOximeter::new();
    let mut one = single.reading();
    for s in samples.iter() {
        one = single.process_sample(*s);
    }
    assert_eq!(at_once, last);
    assert_eq!(at_once, one);
    assert_eq!(whole.time_ms(), pieces.time_ms());
    assert_eq!(whole.get_signal_range(), single.get_signal_range());
}

#[test]
fn oximeter_agrees_with_its_estimators() {
    let samples = pulse_train(0, 1200);
    let mut o = PulseOximeter::new();
    let mut h = HeartRateDetector::new();
    let mut d = SpO2Detector::new();
    let mut t: u32 = 0;
    for s in samples.iter() {
        let r = o.process_sample(*s);
        let bpm = h.process_sample(s.ir, t);
        let spo2 = d.process_sample(s.red, s.ir);
        t += 10;
        assert_eq!(r, Reading { bpm, spo2 });
    }
    assert_eq!(o.get_signal_range(), h.get_signal_range());
}

#[test]
fn stale_rate_is_forgotten_at_one_thousand_samples() {
    let mut o = PulseOximeter::new();
    o.process_batch(&pulse_train(0, 999));
    o.reset_if_no_signal();
    assert_eq!(o.reading().bpm, 60);
    o.process_batch(&pulse_train(999, 1000));
    let spo2 = o.reading().spo2;
    o.reset_if_no_signal();
    assert_eq!(o.reading(), Reading { bpm: 0, spo2 });
    assert_eq!(o.time_ms(), 10000);
}

#[test]
fn same_stream_same_readings() {
    let samples = pulse_train(0, 777);
    let mut a = PulseOximeter::new();
    let mut b = PulseOximeter::new();
    for s in samples.iter() {
        assert_eq!(a.process_sample(*s), b.process_sample(*s));
    }
}

#[test]
fn signal_quality_is_that_of_the_saturation_estimator() {
    let o = PulseOximeter::new();
    assert!(o.get_signal_quality(5001, 5001));
    assert!(!o.get_signal_quality(5001, 5000));
    assert!(!o.get_signal_quality(5000, 5001));
}
