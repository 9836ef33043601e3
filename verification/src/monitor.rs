//! Both estimators on one stream of sample pairs, with a logical clock that
//! advances by a fixed time per sample.

use vstd::prelude::*;
use crate::heart_rate::{HeartRateDetector, HeartRateState, FINGER_THRESHOLD};
use crate::spo2::{SpO2Detector, SaturationState, QUALITY_THRESHOLD};

verus! {

/// Time between two samples, in milliseconds.
pub const SAMPLE_PERIOD_MS: u32 = 10;

/// One pair of magnitudes from the sensor.
#[derive(Clone, Copy, Debug, PartialEq, Eq)]
pub struct Sample {
    /// Reflectance magnitude.
    pub red: u32,
    /// Infrared magnitude.
    pub ir: u32,
}

/// The two estimates; zero stands for unknown.
#[derive(Clone, Copy, Debug, PartialEq, Eq)]
pub struct Reading {
    /// Heart rate in beats per minute.
    pub bpm: u32,
    /// Saturation in percent.
    pub spo2: u32,
}

/// What a pulse oximeter knows.
pub struct OximeterState {
    /// State of the heart-rate estimator.
    pub heart: HeartRateState,
    /// State of the saturation estimator.
    pub saturation: SaturationState,
    /// The logical clock, in milliseconds.
    pub time_ms: int,
}

impl OximeterState {
    /// The state of a new oximeter.
    pub open spec fn initial() -> Self {
        OximeterState {
            heart: HeartRateState::initial(),
            saturation: SaturationState::initial(),
            time_ms: 0,
        }
    }

    /// Both estimators are well-formed, and the clock has advanced by one
    /// period at least for every sample that the heart-rate estimator counted.
    pub open spec fn wf(self) -> bool {
        &&& self.heart.wf()
        &&& self.saturation.wf()
        &&& 0 <= self.time_ms <= u32::MAX
        &&& self.heart.samples_count * SAMPLE_PERIOD_MS <= self.time_ms
    }

    /// The two estimates.
    pub open spec fn reading(self) -> (int, int) {
        (self.heart.bpm, self.saturation.spo2)
    }

    /// The state after one sample pair: the heart-rate estimator takes the
    /// infrared magnitude at the clock's time, the saturation estimator takes
    /// the pair, and the clock advances by one period.
    pub open spec fn step(self, sample: Sample) -> Self {
        OximeterState {
            heart: self.heart.step(sample.ir as int, self.time_ms),
            saturation: self.saturation.step(sample.red as int, sample.ir as int),
            time_ms: self.time_ms + SAMPLE_PERIOD_MS,
        }
    }

    /// The state after the sample pairs `samples` were taken in turn.
    pub open spec fn feed(self, samples: Seq<Sample>) -> Self
        decreases samples.len(),
    {
        if samples.len() == 0 {
            self
        } else {
            self.feed(samples.drop_last()).step(samples.last())
        }
    }

    /// The state after a staleness check of the heart rate.
    pub open spec fn refreshed(self) -> Self {
        OximeterState { heart: self.heart.refreshed(), ..self }
    }
}

/// A heart-rate and a saturation estimator fed from one stream.
pub struct PulseOximeter {
    heart: HeartRateDetector,
    saturation: SpO2Detector,
    time_ms: u32,
}

impl View for PulseOximeter {
    type V = OximeterState;

    closed spec fn view(&self) -> OximeterState {
        OximeterState { heart: self.heart@, saturation: self.saturation@, time_ms: self.time_ms as int }
    }
}

impl PulseOximeter {
    /// What the oximeter keeps true of itself; see `lemma_wf_view`.
    pub closed spec fn wf(&self) -> bool {
        &&& self@.wf()
        &&& self.heart.wf()
        &&& self.saturation.wf()
    }

    /// A well-formed oximeter has a well-formed state.
    pub proof fn lemma_wf_view(&self)
        requires
            self.wf(),
        ensures
            self@.wf(),
    {
    }

    /// A new oximeter: nothing seen, clock at zero.
    pub fn new() -> (r: Self)
        ensures
            r.wf(),
            r@ == OximeterState::initial(),
    {
        PulseOximeter { heart: HeartRateDetector::new(), saturation: SpO2Detector::new(), time_ms: 0 }
    }

    /// The logical clock, in milliseconds.
    pub fn time_ms(&self) -> (r: u32)
        ensures
            r == self@.time_ms,
    {
        self.time_ms
    }

    /// The two estimates as they stand.
    pub fn reading(&self) -> (r: Reading)
        ensures
            (r.bpm as int, r.spo2 as int) == self@.reading(),
    {
        Reading { bpm: self.heart.bpm(), spo2: self.saturation.spo2() }
    }

    /// Width of the range that the heart-rate estimator tracks.
    pub fn get_signal_range(&self) -> (r: u32)
        ensures
            r == self@.heart.signal_range(),
    {
        self.heart.get_signal_range()
    }

    /// Whether both raw magnitudes are strong enough for the saturation to
    /// count as reliable.
    pub fn get_signal_quality(&self, red: u32, ir: u32) -> (r: bool)
        ensures
            r == (red > QUALITY_THRESHOLD && ir > QUALITY_THRESHOLD),
    {
        self.saturation.get_signal_quality(red, ir)
    }

    /// Forgets the heart rate if the estimator's sample count is a positive
    /// multiple of its staleness period.
    pub fn reset_if_no_signal(&mut self)
        requires
            old(self).wf(),
        ensures
            final(self).wf(),
            final(self)@ == old(self)@.refreshed(),
    {
        self.heart.reset_if_no_signal();
    }

    /// Takes one sample pair through both estimators and advances the clock.
    pub fn process_sample(&mut self, sample: Sample) -> (r: Reading)
        requires
            old(self).wf(),
            old(self)@.time_ms + SAMPLE_PERIOD_MS <= u32::MAX,
        ensures
            final(self).wf(),
            final(self)@ == old(self)@.step(sample),
            (r.bpm as int, r.spo2 as int) == final(self)@.reading(),
    {
        let bpm: u32 = self.heart.process_sample(sample.ir, self.time_ms);
        let spo2: u32 = self.saturation.process_sample(sample.red, sample.ir);
        self.time_ms = self.time_ms + SAMPLE_PERIOD_MS;
        proof {
            self.heart.lemma_wf_view();
            self.saturation.lemma_wf_view();
        }
        Reading { bpm, spo2 }
    }

    /// Takes a batch of sample pairs, in order, and returns the estimates
    /// after the last of them.
    pub fn process_batch(&mut self, samples: &[Sample]) -> (r: Reading)
        requires
            old(self).wf(),
            old(self)@.time_ms + SAMPLE_PERIOD_MS * samples@.len() <= u32::MAX,
        ensures
            final(self).wf(),
            final(self)@ == old(self)@.feed(samples@),
            (r.bpm as int, r.spo2 as int) == final(self)@.reading(),
    {
        let ghost start = self@;
        let n: usize = samples.len();
        let mut i: usize = 0;
        while i < n
            invariant
                0 <= i <= n,
                n == samples@.len(),
                self.wf(),
                self@ == start.feed(samples@.take(i as int)),
                self@.time_ms == start.time_ms + SAMPLE_PERIOD_MS * i,
                start.time_ms + SAMPLE_PERIOD_MS * n <= u32::MAX,
            decreases n - i,
        {
            proof {
                assert(samples@.take(i + 1).drop_last() =~= samples@.take(i as int));
            }
            let _ = self.process_sample(samples[i]);
            i = i + 1;
        }
        proof {
            assert(samples@.take(n as int) =~= samples@);
        }
        self.reading()
    }
}

/// A sample pair keeps a well-formed state well-formed, as long as the clock
/// can advance.
pub proof fn lemma_step_keeps_wf(s: OximeterState, sample: Sample)
    requires
        s.wf(),
        s.time_ms + SAMPLE_PERIOD_MS <= u32::MAX,
    ensures
        s.step(sample).wf(),
{
    crate::heart_rate::lemma_step_keeps_wf(s.heart, sample.ir, s.time_ms as u32);
    crate::spo2::lemma_step_keeps_wf(s.saturation, sample.red, sample.ir);
}

/// The clock advances by one period per sample, finger or not.
pub proof fn lemma_clock_counts_samples(s: OximeterState, samples: Seq<Sample>)
    ensures
        s.feed(samples).time_ms == s.time_ms + SAMPLE_PERIOD_MS * samples.len(),
    decreases samples.len(),
{
    if samples.len() > 0 {
        lemma_clock_counts_samples(s, samples.drop_last());
    }
}

/// Finger absent: while no magnitude reaches `FINGER_THRESHOLD`, both
/// estimators stay as they were and only the clock moves.
pub proof fn lemma_absent_finger_moves_only_clock(s: OximeterState, samples: Seq<Sample>)
    requires
        forall|i: int|
            0 <= i < samples.len() ==> (#[trigger] samples[i]).red < FINGER_THRESHOLD && samples[i].ir
                < FINGER_THRESHOLD,
    ensures
        s.feed(samples).heart == s.heart,
        s.feed(samples).saturation == s.saturation,
    decreases samples.len(),
{
    if samples.len() > 0 {
        lemma_absent_finger_moves_only_clock(s, samples.drop_last());
    }
}

/// Finger absent from the start: a new oximeter that never sees a magnitude of
/// `FINGER_THRESHOLD` or more reports zero for both estimates, however long
/// the stream.
pub proof fn lemma_absent_finger_reads_zero(samples: Seq<Sample>)
    requires
        forall|i: int|
            0 <= i < samples.len() ==> (#[trigger] samples[i]).red < FINGER_THRESHOLD && samples[i].ir
                < FINGER_THRESHOLD,
    ensures
        OximeterState::initial().feed(samples).reading() == (0int, 0int),
{
    lemma_absent_finger_moves_only_clock(OximeterState::initial(), samples);
}

} // verus!
