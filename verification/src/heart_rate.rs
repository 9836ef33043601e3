//! Heart-rate estimation from a stream of infrared magnitudes.

use vstd::prelude::*;
use crate::filter::{BaselineRemover, Smoothing, filter_output, next_memory, memory_in_range,
    lemma_magnitudes_stay_magnitudes};

verus! {

/// Number of filtered magnitudes that are kept.
pub const WINDOW_LEN: usize = 8;

/// A magnitude below this means that no finger rests on the sensor.
pub const FINGER_THRESHOLD: u32 = 1000;

/// Number of samples after which the range of the signal is tracked.
pub const WARM_UP_SAMPLES: u64 = 100;

/// The tracked range starts anew at every multiple of this sample count.
pub const RANGE_RESET_PERIOD: u64 = 500;

/// The least range that peak detection works with.
pub const RANGE_FLOOR: u32 = 1000;

/// Least time between two peaks, in milliseconds, that counts as a beat.
pub const MIN_INTERVAL_MS: u32 = 400;

/// Greatest time between two peaks, in milliseconds, that counts as a beat.
pub const MAX_INTERVAL_MS: u32 = 1500;

/// Least rate, in beats per minute, that is reported.
pub const MIN_BPM: u32 = 40;

/// Greatest rate, in beats per minute, that is reported.
pub const MAX_BPM: u32 = 180;

/// The rate is forgotten at every multiple of this sample count.
pub const STALE_PERIOD: u64 = 1000;

/// Milliseconds in a minute.
pub const MS_PER_MINUTE: u32 = 60000;

/// A filtered value with its negative part cut off.
pub open spec fn rectified(v: int) -> int {
    if v > 0 {
        v
    } else {
        0
    }
}

/// Time from the peak at `last` to `now`; zero where `now` is the earlier.
pub open spec fn elapsed(last: int, now: int) -> int {
    if now >= last {
        now - last
    } else {
        0
    }
}

/// The rate that the time between the last peak and this one stands for, where
/// there was a last peak (`last > 0`) and both the time and the rate are
/// among those of a heart.
pub open spec fn interval_bpm(last: int, now: int) -> Option<int> {
    let gap = elapsed(last, now);
    if last > 0 && MIN_INTERVAL_MS <= gap <= MAX_INTERVAL_MS && MIN_BPM <= MS_PER_MINUTE as int / gap
        <= MAX_BPM {
        Some(MS_PER_MINUTE as int / gap)
    } else {
        None
    }
}

/// The smoothed rate after a new measurement: the measurement itself where no
/// rate was known, else two parts of the old rate to three of the new.
pub open spec fn blended_bpm(bpm: int, instant: int) -> int {
    if bpm == 0 {
        instant
    } else {
        (bpm * 2 + instant * 3) / 5
    }
}

/// Whether `bpm` is a rate that the estimator reports: unknown, or that of a
/// heart.
pub open spec fn bpm_in_range(bpm: int) -> bool {
    bpm == 0 || MIN_BPM <= bpm <= MAX_BPM
}

/// Width of the range that peak detection works with: that of the tracked
/// range, but `RANGE_FLOOR` at least.
pub open spec fn detection_range(min_ir: int, max_ir: int) -> int {
    if max_ir - min_ir > RANGE_FLOOR {
        max_ir - min_ir
    } else {
        RANGE_FLOOR as int
    }
}

/// What a magnitude must exceed to be a peak: a fifth of the range above the
/// minimum.
pub open spec fn peak_threshold(min_ir: int, max_ir: int) -> int {
    min_ir + detection_range(min_ir, max_ir) / 5
}

/// By how much a peak must stand above its neighbours: a tenth of the range.
pub open spec fn peak_margin(min_ir: int, max_ir: int) -> int {
    detection_range(min_ir, max_ir) / 10
}

/// Whether `current` is a peak between `prev` and `next` on the tracked range
/// from `min_ir` to `max_ir`: above the threshold, and above both neighbours
/// by the margin at least.
pub open spec fn peak_among(current: int, prev: int, next: int, min_ir: int, max_ir: int) -> bool {
    &&& current > peak_threshold(min_ir, max_ir)
    &&& current > prev
    &&& current > next
    &&& current >= prev + peak_margin(min_ir, max_ir)
    &&& current >= next + peak_margin(min_ir, max_ir)
}

/// What a heart-rate estimator knows.
pub struct HeartRateState {
    /// The last filtered magnitudes, in a ring.
    pub window: Seq<u32>,
    /// The slot of the ring that is written next.
    pub index: int,
    /// Time of the last peak; zero for none.
    pub last_peak_time: int,
    /// The smoothed rate; zero for unknown.
    pub bpm: int,
    /// Least filtered magnitude on the current horizon.
    pub min_ir: int,
    /// Greatest filtered magnitude on the current horizon.
    pub max_ir: int,
    /// Number of samples taken with a finger present.
    pub samples_count: int,
    /// Memory of the baseline filter.
    pub memory: int,
}

impl HeartRateState {
    /// The state of a new estimator.
    pub open spec fn initial() -> Self {
        HeartRateState {
            window: Seq::new(WINDOW_LEN as nat, |i: int| 0u32),
            index: 0,
            last_peak_time: 0,
            bpm: 0,
            min_ir: u32::MAX as int,
            max_ir: 0,
            samples_count: 0,
            memory: 0,
        }
    }

    /// The ring has its fixed length, the rate is unknown or that of a heart,
    /// and every number is one that the estimator can hold.
    pub open spec fn wf(self) -> bool {
        &&& self.window.len() == WINDOW_LEN
        &&& 0 <= self.index < WINDOW_LEN
        &&& 0 <= self.last_peak_time <= u32::MAX
        &&& bpm_in_range(self.bpm)
        &&& 0 <= self.min_ir <= u32::MAX
        &&& 0 <= self.max_ir <= u32::MAX
        &&& 0 <= self.samples_count
        &&& 0 <= self.memory
        &&& memory_in_range(Smoothing::Slow, self.memory)
    }

    /// Width of the tracked range; zero before a range is known.
    pub open spec fn signal_range(self) -> int {
        if self.max_ir > self.min_ir {
            self.max_ir - self.min_ir
        } else {
            0
        }
    }

    /// The filtered, rectified magnitude that the input `ir` gives.
    pub open spec fn filtered(self, ir: int) -> int {
        rectified(filter_output(Smoothing::Slow, self.memory, ir))
    }

    /// The state after the magnitude `ir` was counted, filtered, taken into the
    /// tracked range and written to the ring.
    pub open spec fn absorb(self, ir: int) -> Self {
        let count = self.samples_count + 1;
        let v = self.filtered(ir);
        let tracking = count > WARM_UP_SAMPLES;
        let restart = count % (RANGE_RESET_PERIOD as int) == 0;
        HeartRateState {
            window: self.window.update(self.index, v as u32),
            index: (self.index + 1) % (WINDOW_LEN as int),
            min_ir: if !tracking {
                self.min_ir
            } else if restart || v < self.min_ir {
                v
            } else {
                self.min_ir
            },
            max_ir: if !tracking {
                self.max_ir
            } else if restart || v > self.max_ir {
                v
            } else {
                self.max_ir
            },
            samples_count: count,
            memory: next_memory(Smoothing::Slow, self.memory, ir),
            ..self
        }
    }

    /// The slot before `center` in the ring.
    pub open spec fn slot_before(center: int) -> int {
        (center + WINDOW_LEN - 1) % (WINDOW_LEN as int)
    }

    /// The slot after `center` in the ring.
    pub open spec fn slot_after(center: int) -> int {
        (center + 1) % (WINDOW_LEN as int)
    }

    /// Whether the magnitude in the slot `center` is a peak among its two
    /// neighbours in the ring.
    pub open spec fn peak_at(self, center: int) -> bool {
        peak_among(
            self.window[center] as int,
            self.window[Self::slot_before(center)] as int,
            self.window[Self::slot_after(center)] as int,
            self.min_ir,
            self.max_ir,
        )
    }

    /// The state after a peak at the time `now`.
    pub open spec fn with_peak(self, now: int) -> Self {
        HeartRateState {
            last_peak_time: now,
            bpm: match interval_bpm(self.last_peak_time, now) {
                Some(instant) => blended_bpm(self.bpm, instant),
                None => self.bpm,
            },
            ..self
        }
    }

    /// The state after the sample `ir`, taken at the time `now`.
    pub open spec fn step(self, ir: int, now: int) -> Self {
        if ir < FINGER_THRESHOLD {
            self
        } else {
            let taken = self.absorb(ir);
            if taken.samples_count >= WINDOW_LEN && taken.peak_at(self.index) {
                taken.with_peak(now)
            } else {
                taken
            }
        }
    }

    /// Whether the sample count is a positive multiple of `STALE_PERIOD`.
    pub open spec fn at_stale_point(self) -> bool {
        self.samples_count > 0 && self.samples_count % (STALE_PERIOD as int) == 0
    }

    /// The state after the samples `inputs`, each a magnitude and its time,
    /// were taken in turn.
    pub open spec fn run(self, inputs: Seq<(u32, u32)>) -> Self
        decreases inputs.len(),
    {
        if inputs.len() == 0 {
            self
        } else {
            self.run(inputs.drop_last()).step(inputs.last().0 as int, inputs.last().1 as int)
        }
    }

    /// The state after a staleness check.
    pub open spec fn refreshed(self) -> Self {
        if self.at_stale_point() {
            HeartRateState { bpm: 0, ..self }
        } else {
            self
        }
    }
}

/// The rate that the time between two peaks stands for, if it is that of a
/// heart.
pub fn rate_of_interval(last_peak_time: u32, now: u32) -> (r: Option<u32>)
    ensures
        r.is_some() == interval_bpm(last_peak_time as int, now as int).is_some(),
        r.is_some() ==> r.unwrap() == interval_bpm(last_peak_time as int, now as int).unwrap(),
{
    if last_peak_time == 0 {
        return None;
    }
    let gap: u32 = now.saturating_sub(last_peak_time);
    if gap < MIN_INTERVAL_MS || gap > MAX_INTERVAL_MS {
        return None;
    }
    let instant: u32 = MS_PER_MINUTE / gap;
    if instant >= MIN_BPM && instant <= MAX_BPM {
        Some(instant)
    } else {
        None
    }
}

/// Whether `current` is a peak between its neighbours `prev` and `next` on the
/// tracked range from `min_ir` to `max_ir`.
pub fn is_peak(current: u32, prev: u32, next: u32, min_ir: u32, max_ir: u32) -> (r: bool)
    ensures
        r == peak_among(current as int, prev as int, next as int, min_ir as int, max_ir as int),
{
    let range: u64 = if max_ir > min_ir && max_ir - min_ir > RANGE_FLOOR {
        (max_ir - min_ir) as u64
    } else {
        RANGE_FLOOR as u64
    };
    let threshold: u64 = min_ir as u64 + range / 5;
    let margin: u64 = range / 10;
    let current: u64 = current as u64;
    current > threshold && current > prev as u64 && current > next as u64 && current >= prev as u64
        + margin && current >= next as u64 + margin
}

/// Blends a new measurement into the smoothed rate.
pub fn blend_rate(bpm: u32, instant: u32) -> (r: u32)
    ensures
        r == blended_bpm(bpm as int, instant as int),
{
    if bpm == 0 {
        instant
    } else {
        ((bpm as u64 * 2 + instant as u64 * 3) / 5) as u32
    }
}

/// Estimates the heart rate from infrared magnitudes and their times.
pub struct HeartRateDetector {
    samples: [u32; 8],
    index: usize,
    last_peak_time: u32,
    bpm: u32,
    min_ir: u32,
    max_ir: u32,
    samples_count: u64,
    filter: BaselineRemover,
}

impl View for HeartRateDetector {
    type V = HeartRateState;

    closed spec fn view(&self) -> HeartRateState {
        HeartRateState {
            window: self.samples@,
            index: self.index as int,
            last_peak_time: self.last_peak_time as int,
            bpm: self.bpm as int,
            min_ir: self.min_ir as int,
            max_ir: self.max_ir as int,
            samples_count: self.samples_count as int,
            memory: self.filter.memory(),
        }
    }
}

impl HeartRateDetector {
    /// What the estimator keeps true of itself; see `lemma_wf_view`.
    pub closed spec fn wf(&self) -> bool {
        &&& self@.wf()
        &&& self.filter.smoothing() == Smoothing::Slow
    }

    /// A well-formed estimator has a well-formed state, and its count fits.
    pub proof fn lemma_wf_view(&self)
        requires
            self.wf(),
        ensures
            self@.wf(),
            self@.samples_count <= u64::MAX,
    {
    }

    /// A new estimator: nothing seen, rate unknown.
    pub fn new() -> (r: Self)
        ensures
            r.wf(),
            r@ == HeartRateState::initial(),
    {
        let r = HeartRateDetector {
            samples: [0; 8],
            index: 0,
            last_peak_time: 0,
            bpm: 0,
            min_ir: u32::MAX,
            max_ir: 0,
            samples_count: 0,
            filter: BaselineRemover::new(Smoothing::Slow),
        };
        assert(r@.window =~= HeartRateState::initial().window);
        r
    }

    /// The smoothed rate in beats per minute; zero for unknown.
    pub fn bpm(&self) -> (r: u32)
        ensures
            r == self@.bpm,
    {
        self.bpm
    }

    /// Time of the last peak, in milliseconds; zero for none.
    pub fn last_peak_time(&self) -> (r: u32)
        ensures
            r == self@.last_peak_time,
    {
        self.last_peak_time
    }

    /// Number of samples taken with a finger present.
    pub fn samples_count(&self) -> (r: u64)
        ensures
            r == self@.samples_count,
    {
        self.samples_count
    }

    /// Width of the tracked range; zero before a range is known.
    pub fn get_signal_range(&self) -> (r: u32)
        ensures
            r == self@.signal_range(),
    {
        if self.max_ir > self.min_ir {
            self.max_ir - self.min_ir
        } else {
            0
        }
    }

    /// Forgets the rate if the sample count is a positive multiple of
    /// `STALE_PERIOD`; changes nothing else, and nothing at any other count.
    pub fn reset_if_no_signal(&mut self)
        requires
            old(self).wf(),
        ensures
            final(self).wf(),
            final(self)@ == old(self)@.refreshed(),
            old(self)@.at_stale_point() ==> final(self)@.bpm == 0,
            !old(self)@.at_stale_point() ==> final(self)@ == old(self)@,
    {
        if self.samples_count > 0 && self.samples_count % STALE_PERIOD == 0 {
            self.bpm = 0;
        }
    }

    /// Takes the infrared magnitude `ir_value`, measured at `current_time`
    /// milliseconds, and returns the smoothed rate; zero for unknown.
    pub fn process_sample(&mut self, ir_value: u32, current_time: u32) -> (bpm: u32)
        requires
            old(self).wf(),
            old(self)@.samples_count < u64::MAX,
        ensures
            final(self).wf(),
            final(self)@ == old(self)@.step(ir_value as int, current_time as int),
            bpm == final(self)@.bpm,
            bpm_in_range(bpm as int),
            ir_value < FINGER_THRESHOLD ==> final(self)@ == old(self)@,
    {
        if ir_value < FINGER_THRESHOLD {
            return self.bpm;
        }
        proof {
            lemma_magnitudes_stay_magnitudes(Smoothing::Slow, self.filter.memory(), ir_value as int);
        }
        self.samples_count = self.samples_count + 1;
        let filtered: i64 = self.filter.step(ir_value as i64);
        let v: u32 = if filtered > 0 {
            filtered as u32
        } else {
            0
        };
        if self.samples_count > WARM_UP_SAMPLES {
            if self.samples_count % RANGE_RESET_PERIOD == 0 {
                self.min_ir = v;
                self.max_ir = v;
            } else {
                if v < self.min_ir {
                    self.min_ir = v;
                }
                if v > self.max_ir {
                    self.max_ir = v;
                }
            }
        }
        let center: usize = self.index;
        self.samples[center] = v;
        self.index = (center + 1) % WINDOW_LEN;
        let prev: u32 = self.samples[(center + WINDOW_LEN - 1) % WINDOW_LEN];
        let next: u32 = self.samples[(center + 1) % WINDOW_LEN];
        if self.samples_count >= WINDOW_LEN as u64 && is_peak(v, prev, next, self.min_ir, self.max_ir) {
            match rate_of_interval(self.last_peak_time, current_time) {
                Some(instant) => {
                    self.bpm = blend_rate(self.bpm, instant);
                },
                None => {},
            }
            self.last_peak_time = current_time;
        }
        self.bpm
    }
}

/// A sample keeps a well-formed state well-formed; so the rate stays unknown
/// or between `MIN_BPM` and `MAX_BPM`, and the ring keeps its length.
pub proof fn lemma_step_keeps_wf(s: HeartRateState, ir: u32, now: u32)
    requires
        s.wf(),
    ensures
        s.step(ir as int, now as int).wf(),
{
    lemma_magnitudes_stay_magnitudes(Smoothing::Slow, s.memory, ir as int);
}

/// A time between peaks counts as a beat exactly when there was a peak before
/// and the time lies between `MIN_INTERVAL_MS` and `MAX_INTERVAL_MS`; the
/// rate is then 60000 over the time, and lies between 40 and 150.
pub proof fn lemma_interval_bpm_bounds(last: int, now: int)
    ensures
        interval_bpm(last, now).is_some() <==> (last > 0 && MIN_INTERVAL_MS <= elapsed(last, now)
            <= MAX_INTERVAL_MS),
        interval_bpm(last, now).is_some() ==> interval_bpm(last, now).unwrap() == 60000int / elapsed(
            last,
            now,
        ) && 40 <= interval_bpm(last, now).unwrap() <= 150,
{
    let gap = elapsed(last, now);
    if MIN_INTERVAL_MS <= gap <= MAX_INTERVAL_MS {
        assert(40 <= 60000int / gap <= 150) by (nonlinear_arith)
            requires
                400 <= gap <= 1500,
        ;
    }
}

/// Blending puts a known rate between what it was and the new measurement.
pub proof fn lemma_blend_lies_between(bpm: int, instant: int)
    requires
        bpm != 0,
    ensures
        bpm <= instant ==> bpm <= blended_bpm(bpm, instant) <= instant,
        bpm >= instant ==> instant <= blended_bpm(bpm, instant) <= bpm,
{
}

/// A sample whose time is less than `MIN_INTERVAL_MS` or more than
/// `MAX_INTERVAL_MS` after the last peak, or that has no peak before it,
/// leaves the rate as it was, peak or not.
pub proof fn lemma_rejected_interval_keeps_bpm(s: HeartRateState, ir: int, now: int)
    requires
        s.last_peak_time <= 0 || elapsed(s.last_peak_time, now) < MIN_INTERVAL_MS || elapsed(
            s.last_peak_time,
            now,
        ) > MAX_INTERVAL_MS,
    ensures
        s.step(ir, now).bpm == s.bpm,
{
}

/// Every peak is remembered with its time, whether or not the time since the
/// peak before it counted as a beat; a sample that is no peak leaves the rate
/// and the time of the last peak as they were.
pub proof fn lemma_peak_time_follows_peaks(s: HeartRateState, ir: int, now: int)
    requires
        ir >= FINGER_THRESHOLD,
    ensures
        ({
            let taken = s.absorb(ir);
            let peak = taken.samples_count >= WINDOW_LEN && taken.peak_at(s.index);
            &&& peak ==> s.step(ir, now).last_peak_time == now
            &&& !peak ==> s.step(ir, now).last_peak_time == s.last_peak_time && s.step(ir, now).bpm
                == s.bpm
        }),
{
}

/// Without a finger nothing moves: samples all below `FINGER_THRESHOLD` leave
/// any state as it was, however many they are.
pub proof fn lemma_absent_finger_changes_nothing(s: HeartRateState, inputs: Seq<(u32, u32)>)
    requires
        forall|i: int| 0 <= i < inputs.len() ==> (#[trigger] inputs[i]).0 < FINGER_THRESHOLD,
    ensures
        s.run(inputs) == s,
    decreases inputs.len(),
{
    if inputs.len() > 0 {
        lemma_absent_finger_changes_nothing(s, inputs.drop_last());
    }
}

/// A new estimator that only ever sees samples below `FINGER_THRESHOLD` keeps
/// reporting the rate zero.
pub proof fn lemma_absent_finger_reads_zero(inputs: Seq<(u32, u32)>)
    requires
        forall|i: int| 0 <= i < inputs.len() ==> (#[trigger] inputs[i]).0 < FINGER_THRESHOLD,
    ensures
        HeartRateState::initial().run(inputs).bpm == 0,
{
    lemma_absent_finger_changes_nothing(HeartRateState::initial(), inputs);
}

/// The staleness check forgets the rate at the positive multiples of
/// `STALE_PERIOD` and at no other count, and touches nothing but the rate.
pub proof fn lemma_refresh_only_at_multiples(s: HeartRateState)
    ensures
        s.refreshed().bpm == 0 <==> (s.bpm == 0 || (s.samples_count > 0 && s.samples_count % 1000
            == 0)),
        s.refreshed().bpm != 0 ==> s.refreshed().bpm == s.bpm,
        s.refreshed() == (HeartRateState { bpm: s.refreshed().bpm, ..s }),
{
}

} // verus!
