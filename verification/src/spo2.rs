//! Blood-oxygen saturation from the ratio of the pulsatile to the steady part
//! of reflectance and infrared light.

use vstd::prelude::*;
use crate::filter::{BaselineRemover, Smoothing, filter_output, next_memory, memory_in_range,
    lemma_magnitudes_stay_magnitudes, INPUT_LIMIT};
use crate::heart_rate::FINGER_THRESHOLD;

verus! {

/// Number of samples in one window.
pub const WINDOW_SAMPLES: u32 = 100;

/// Both channels must exceed this for the estimate to count as reliable.
pub const QUALITY_THRESHOLD: u32 = 5000;

/// Factor that keeps three decimal places of a ratio in an integer.
pub const RATIO_SCALE: u32 = 1000;

/// Saturation, times `RATIO_SCALE`, at a ratio of zero. A fitted constant.
pub const CALIBRATION_OFFSET: u32 = 104000;

/// Saturation lost per unit of the ratio. A fitted constant.
pub const CALIBRATION_SLOPE: u32 = 17;

/// Least saturation, in percent, that is reported.
pub const MIN_SPO2: u32 = 70;

/// Greatest saturation, in percent, that is reported.
pub const MAX_SPO2: u32 = 100;

/// Size of a filtered value, whatever its sign.
pub open spec fn magnitude(v: int) -> int {
    if v >= 0 {
        v
    } else {
        -v
    }
}

/// Pulsatile part over steady part of one channel, times `RATIO_SCALE`.
pub open spec fn scaled_ratio(ac_avg: int, dc_avg: int) -> int {
    (ac_avg * RATIO_SCALE) / dc_avg
}

/// Whether the averages of a window allow an estimate: no divisor is zero.
pub open spec fn window_usable(red_dc_avg: int, ir_ac_avg: int, ir_dc_avg: int) -> bool {
    &&& red_dc_avg > 0
    &&& ir_dc_avg > 0
    &&& ir_ac_avg > 0
    &&& scaled_ratio(ir_ac_avg, ir_dc_avg) > 0
}

/// The ratio of the two channels' ratios, times `RATIO_SCALE`.
pub open spec fn ratio_of_ratios(red_ac_avg: int, red_dc_avg: int, ir_ac_avg: int, ir_dc_avg: int) -> int {
    (scaled_ratio(red_ac_avg, red_dc_avg) * RATIO_SCALE) / scaled_ratio(ir_ac_avg, ir_dc_avg)
}

/// A value held to the reported range.
pub open spec fn clamped(percent: int) -> int {
    if percent < MIN_SPO2 {
        MIN_SPO2 as int
    } else if percent > MAX_SPO2 {
        MAX_SPO2 as int
    } else {
        percent
    }
}

/// Saturation in percent for the ratio `r`, by the fitted line, held to the
/// reported range.
pub open spec fn calibrated(r: int) -> int {
    clamped((CALIBRATION_OFFSET - CALIBRATION_SLOPE * r) / (RATIO_SCALE as int))
}

/// The saturation that the averages of one window stand for, if they allow
/// one.
pub open spec fn window_saturation(red_ac_avg: int, red_dc_avg: int, ir_ac_avg: int, ir_dc_avg: int) -> Option<int> {
    if window_usable(red_dc_avg, ir_ac_avg, ir_dc_avg) {
        Some(calibrated(ratio_of_ratios(red_ac_avg, red_dc_avg, ir_ac_avg, ir_dc_avg)))
    } else {
        None
    }
}

/// The smoothed saturation after a new window: the new value itself where
/// none was known, else three parts of the old value to one of the new.
pub open spec fn smoothed_spo2(old_value: int, new_value: int) -> int {
    if old_value == 0 {
        new_value
    } else {
        (old_value * 3 + new_value) / 4
    }
}

/// Whether `percent` is a saturation that the estimator reports: unknown, or
/// within the reported range.
pub open spec fn spo2_in_range(percent: int) -> bool {
    percent == 0 || MIN_SPO2 <= percent <= MAX_SPO2
}

/// What a saturation estimator knows.
pub struct SaturationState {
    /// Sum of the sizes of the filtered reflectance values of this window.
    pub red_ac_sum: int,
    /// Sum of the sizes of the filtered infrared values of this window.
    pub ir_ac_sum: int,
    /// Sum of the raw reflectance values of this window.
    pub red_dc_sum: int,
    /// Sum of the raw infrared values of this window.
    pub ir_dc_sum: int,
    /// Number of samples in this window so far.
    pub sample_count: int,
    /// Memory of the reflectance channel's baseline filter.
    pub red_memory: int,
    /// Memory of the infrared channel's baseline filter.
    pub ir_memory: int,
    /// The smoothed saturation in percent; zero for unknown.
    pub spo2: int,
}

impl SaturationState {
    /// The state of a new estimator.
    pub open spec fn initial() -> Self {
        SaturationState {
            red_ac_sum: 0,
            ir_ac_sum: 0,
            red_dc_sum: 0,
            ir_dc_sum: 0,
            sample_count: 0,
            red_memory: 0,
            ir_memory: 0,
            spo2: 0,
        }
    }

    /// Whether `sum` can be the sum of this window's values of one kind.
    pub open spec fn sum_in_range(self, sum: int) -> bool {
        0 <= sum <= self.sample_count * INPUT_LIMIT
    }

    /// The window is not yet full, the saturation is unknown or within the
    /// reported range, and every number is one that the estimator can hold.
    pub open spec fn wf(self) -> bool {
        &&& 0 <= self.sample_count < WINDOW_SAMPLES
        &&& self.sum_in_range(self.red_ac_sum)
        &&& self.sum_in_range(self.ir_ac_sum)
        &&& self.sum_in_range(self.red_dc_sum)
        &&& self.sum_in_range(self.ir_dc_sum)
        &&& 0 <= self.red_memory
        &&& memory_in_range(Smoothing::Fast, self.red_memory)
        &&& 0 <= self.ir_memory
        &&& memory_in_range(Smoothing::Fast, self.ir_memory)
        &&& spo2_in_range(self.spo2)
    }

    /// The state after one sample pair was filtered and added to the sums.
    pub open spec fn accumulate(self, red: int, ir: int) -> Self {
        SaturationState {
            red_ac_sum: self.red_ac_sum + magnitude(filter_output(Smoothing::Fast, self.red_memory, red)),
            ir_ac_sum: self.ir_ac_sum + magnitude(filter_output(Smoothing::Fast, self.ir_memory, ir)),
            red_dc_sum: self.red_dc_sum + red,
            ir_dc_sum: self.ir_dc_sum + ir,
            sample_count: self.sample_count + 1,
            red_memory: next_memory(Smoothing::Fast, self.red_memory, red),
            ir_memory: next_memory(Smoothing::Fast, self.ir_memory, ir),
            ..self
        }
    }

    /// The saturation that the sums of this window stand for, if they allow
    /// one.
    pub open spec fn window_estimate(self) -> Option<int> {
        window_saturation(
            self.red_ac_sum / self.sample_count,
            self.red_dc_sum / self.sample_count,
            self.ir_ac_sum / self.sample_count,
            self.ir_dc_sum / self.sample_count,
        )
    }

    /// The state after the window was closed: the estimate, if there is one,
    /// is blended into the saturation, and sums and count start anew.
    pub open spec fn close_window(self) -> Self {
        SaturationState {
            red_ac_sum: 0,
            ir_ac_sum: 0,
            red_dc_sum: 0,
            ir_dc_sum: 0,
            sample_count: 0,
            spo2: match self.window_estimate() {
                Some(percent) => smoothed_spo2(self.spo2, percent),
                None => self.spo2,
            },
            ..self
        }
    }

    /// The state after the sample pairs `inputs`, each a reflectance and an
    /// infrared magnitude, were taken in turn.
    pub open spec fn run(self, inputs: Seq<(u32, u32)>) -> Self
        decreases inputs.len(),
    {
        if inputs.len() == 0 {
            self
        } else {
            self.run(inputs.drop_last()).step(inputs.last().0 as int, inputs.last().1 as int)
        }
    }

    /// The state after the sample pair `red`, `ir`.
    pub open spec fn step(self, red: int, ir: int) -> Self {
        if red < FINGER_THRESHOLD || ir < FINGER_THRESHOLD {
            self
        } else {
            let taken = self.accumulate(red, ir);
            if taken.sample_count >= WINDOW_SAMPLES {
                taken.close_window()
            } else {
                taken
            }
        }
    }
}

/// A quotient of a number that is not negative by a positive one lies between
/// zero and that number.
pub proof fn lemma_quotient_bounds(a: int, b: int)
    requires
        a >= 0,
        b > 0,
    ensures
        0 <= a / b <= a,
{
    assert(0 <= a / b <= a) by (nonlinear_arith)
        requires
            a >= 0,
            b > 0,
    ;
}

/// The saturation in percent that the averages of one window stand for:
/// `None` where a divisor would be zero.
pub fn saturation_of_averages(red_ac_avg: u64, red_dc_avg: u64, ir_ac_avg: u64, ir_dc_avg: u64) -> (r: Option<u32>)
    ensures
        r.is_some() == window_saturation(red_ac_avg as int, red_dc_avg as int, ir_ac_avg as int, ir_dc_avg as int).is_some(),
        r.is_some() ==> r.unwrap() == window_saturation(
            red_ac_avg as int,
            red_dc_avg as int,
            ir_ac_avg as int,
            ir_dc_avg as int,
        ).unwrap(),
        r.is_some() ==> MIN_SPO2 <= r.unwrap() <= MAX_SPO2,
{
    if red_dc_avg == 0 || ir_dc_avg == 0 || ir_ac_avg == 0 {
        return None;
    }
    let scale: u128 = RATIO_SCALE as u128;
    let red_ratio: u128 = (red_ac_avg as u128 * scale) / (red_dc_avg as u128);
    let ir_ratio: u128 = (ir_ac_avg as u128 * scale) / (ir_dc_avg as u128);
    if ir_ratio == 0 {
        return None;
    }
    proof {
        lemma_quotient_bounds(red_ac_avg as int * 1000, red_dc_avg as int);
        lemma_quotient_bounds(red_ratio as int * 1000, ir_ratio as int);
    }
    let r: u128 = (red_ratio * scale) / ir_ratio;
    let loss: u128 = CALIBRATION_SLOPE as u128 * r;
    let offset: u128 = CALIBRATION_OFFSET as u128;
    if loss > offset {
        Some(MIN_SPO2)
    } else {
        let percent: u128 = (offset - loss) / scale;
        if percent < MIN_SPO2 as u128 {
            Some(MIN_SPO2)
        } else if percent > MAX_SPO2 as u128 {
            Some(MAX_SPO2)
        } else {
            Some(percent as u32)
        }
    }
}

/// Blends the estimate of a new window into the smoothed saturation.
pub fn smooth_saturation(old_value: u32, new_value: u32) -> (r: u32)
    ensures
        r == smoothed_spo2(old_value as int, new_value as int),
{
    if old_value == 0 {
        new_value
    } else {
        ((old_value as u64 * 3 + new_value as u64) / 4) as u32
    }
}

/// Estimates the blood-oxygen saturation from pairs of reflectance and
/// infrared magnitudes.
pub struct SpO2Detector {
    red_ac_sum: u64,
    ir_ac_sum: u64,
    red_dc_sum: u64,
    ir_dc_sum: u64,
    sample_count: u32,
    red_dc_filter: BaselineRemover,
    ir_dc_filter: BaselineRemover,
    spo2_value: u32,
}

impl View for SpO2Detector {
    type V = SaturationState;

    closed spec fn view(&self) -> SaturationState {
        SaturationState {
            red_ac_sum: self.red_ac_sum as int,
            ir_ac_sum: self.ir_ac_sum as int,
            red_dc_sum: self.red_dc_sum as int,
            ir_dc_sum: self.ir_dc_sum as int,
            sample_count: self.sample_count as int,
            red_memory: self.red_dc_filter.memory(),
            ir_memory: self.ir_dc_filter.memory(),
            spo2: self.spo2_value as int,
        }
    }
}

impl SpO2Detector {
    /// What the estimator keeps true of itself; see `lemma_wf_view`.
    pub closed spec fn wf(&self) -> bool {
        &&& self@.wf()
        &&& self.red_dc_filter.smoothing() == Smoothing::Fast
        &&& self.ir_dc_filter.smoothing() == Smoothing::Fast
    }

    /// A well-formed estimator has a well-formed state.
    pub proof fn lemma_wf_view(&self)
        requires
            self.wf(),
        ensures
            self@.wf(),
    {
    }

    /// A new estimator: empty window, saturation unknown.
    pub fn new() -> (r: Self)
        ensures
            r.wf(),
            r@ == SaturationState::initial(),
    {
        SpO2Detector {
            red_ac_sum: 0,
            ir_ac_sum: 0,
            red_dc_sum: 0,
            ir_dc_sum: 0,
            sample_count: 0,
            red_dc_filter: BaselineRemover::new(Smoothing::Fast),
            ir_dc_filter: BaselineRemover::new(Smoothing::Fast),
            spo2_value: 0,
        }
    }

    /// The smoothed saturation in percent; zero for unknown.
    pub fn spo2(&self) -> (r: u32)
        ensures
            r == self@.spo2,
    {
        self.spo2_value
    }

    /// Whether both raw magnitudes are strong enough for the estimate to count
    /// as reliable.
    pub fn get_signal_quality(&self, red: u32, ir: u32) -> (r: bool)
        ensures
            r == (red > QUALITY_THRESHOLD && ir > QUALITY_THRESHOLD),
    {
        red > QUALITY_THRESHOLD && ir > QUALITY_THRESHOLD
    }

    /// Takes one pair of magnitudes and returns the smoothed saturation in
    /// percent; zero for unknown.
    pub fn process_sample(&mut self, red: u32, ir: u32) -> (spo2: u32)
        requires
            old(self).wf(),
        ensures
            final(self).wf(),
            final(self)@ == old(self)@.step(red as int, ir as int),
            spo2 == final(self)@.spo2,
            spo2_in_range(spo2 as int),
            red < FINGER_THRESHOLD || ir < FINGER_THRESHOLD ==> final(self)@ == old(self)@,
    {
        if red < FINGER_THRESHOLD || ir < FINGER_THRESHOLD {
            return self.spo2_value;
        }
        proof {
            lemma_magnitudes_stay_magnitudes(Smoothing::Fast, self.red_dc_filter.memory(), red as int);
            lemma_magnitudes_stay_magnitudes(Smoothing::Fast, self.ir_dc_filter.memory(), ir as int);
        }
        let red_ac: i64 = self.red_dc_filter.step(red as i64);
        let ir_ac: i64 = self.ir_dc_filter.step(ir as i64);
        let red_size: u64 = if red_ac >= 0 { red_ac as u64 } else { (-red_ac) as u64 };
        let ir_size: u64 = if ir_ac >= 0 { ir_ac as u64 } else { (-ir_ac) as u64 };
        self.red_ac_sum = self.red_ac_sum + red_size;
        self.ir_ac_sum = self.ir_ac_sum + ir_size;
        self.red_dc_sum = self.red_dc_sum + red as u64;
        self.ir_dc_sum = self.ir_dc_sum + ir as u64;
        self.sample_count = self.sample_count + 1;
        if self.sample_count >= WINDOW_SAMPLES {
            let count: u64 = self.sample_count as u64;
            let estimate = saturation_of_averages(
                self.red_ac_sum / count,
                self.red_dc_sum / count,
                self.ir_ac_sum / count,
                self.ir_dc_sum / count,
            );
            match estimate {
                Some(percent) => {
                    self.spo2_value = smooth_saturation(self.spo2_value, percent);
                },
                None => {},
            }
            self.red_ac_sum = 0;
            self.ir_ac_sum = 0;
            self.red_dc_sum = 0;
            self.ir_dc_sum = 0;
            self.sample_count = 0;
        }
        self.spo2_value
    }
}

/// A sample pair keeps a well-formed state well-formed; so the saturation
/// stays unknown or between `MIN_SPO2` and `MAX_SPO2`.
pub proof fn lemma_step_keeps_wf(s: SaturationState, red: u32, ir: u32)
    requires
        s.wf(),
    ensures
        s.step(red as int, ir as int).wf(),
{
    lemma_magnitudes_stay_magnitudes(Smoothing::Fast, s.red_memory, red as int);
    lemma_magnitudes_stay_magnitudes(Smoothing::Fast, s.ir_memory, ir as int);
}

/// The estimate of a window, where there is one, lies between `MIN_SPO2` and
/// `MAX_SPO2`.
pub proof fn lemma_window_saturation_in_range(red_ac_avg: int, red_dc_avg: int, ir_ac_avg: int, ir_dc_avg: int)
    ensures
        match window_saturation(red_ac_avg, red_dc_avg, ir_ac_avg, ir_dc_avg) {
            Some(percent) => MIN_SPO2 <= percent <= MAX_SPO2,
            None => true,
        },
{
}

/// Smoothing moves a known saturation toward the new value and never past it.
pub proof fn lemma_smoothing_moves_toward(old_value: int, new_value: int)
    requires
        old_value != 0,
    ensures
        old_value <= new_value ==> old_value <= smoothed_spo2(old_value, new_value) <= new_value,
        old_value >= new_value ==> old_value >= smoothed_spo2(old_value, new_value) >= new_value,
        new_value - old_value >= 4 ==> smoothed_spo2(old_value, new_value) > old_value,
        old_value - new_value >= 1 ==> smoothed_spo2(old_value, new_value) < old_value,
{
}

/// A window whose reflectance has no pulsatile part, while the infrared
/// averages allow an estimate, stands for the greatest saturation.
pub proof fn lemma_flat_reflectance_reads_full(red_dc_avg: int, ir_ac_avg: int, ir_dc_avg: int)
    requires
        window_usable(red_dc_avg, ir_ac_avg, ir_dc_avg),
    ensures
        ratio_of_ratios(0, red_dc_avg, ir_ac_avg, ir_dc_avg) == 0,
        window_saturation(0, red_dc_avg, ir_ac_avg, ir_dc_avg) == Some(MAX_SPO2 as int),
{
    let ir_ratio = scaled_ratio(ir_ac_avg, ir_dc_avg);
    assert(0int / red_dc_avg == 0) by (nonlinear_arith)
        requires
            red_dc_avg > 0,
    ;
    assert(0int / ir_ratio == 0) by (nonlinear_arith)
        requires
            ir_ratio > 0,
    ;
}

/// A window with a steady average of zero on either channel, or with no
/// pulsatile infrared part, gives no estimate: closing it leaves the
/// saturation as it was, and still empties the four sums and the count.
pub proof fn lemma_degenerate_window_keeps_value(s: SaturationState)
    requires
        s.sample_count > 0,
        s.ir_dc_sum / s.sample_count <= 0 || s.red_dc_sum / s.sample_count <= 0 || s.ir_ac_sum
            / s.sample_count <= 0,
    ensures
        s.close_window().spo2 == s.spo2,
        s.close_window().red_ac_sum == 0,
        s.close_window().ir_ac_sum == 0,
        s.close_window().red_dc_sum == 0,
        s.close_window().ir_dc_sum == 0,
        s.close_window().sample_count == 0,
{
}

/// A window closes with every hundredth sample pair that is taken: the count
/// goes from zero to ninety-nine and starts again.
pub proof fn lemma_window_closes_when_full(s: SaturationState, red: int, ir: int)
    requires
        s.wf(),
        red >= FINGER_THRESHOLD,
        ir >= FINGER_THRESHOLD,
    ensures
        s.step(red, ir).sample_count == (s.sample_count + 1) % (WINDOW_SAMPLES as int),
        s.sample_count + 1 < WINDOW_SAMPLES ==> s.step(red, ir) == s.accumulate(red, ir),
        s.sample_count + 1 == WINDOW_SAMPLES ==> s.step(red, ir) == s.accumulate(
            red,
            ir,
        ).close_window(),
{
}

/// Every closed window starts the next one empty, whatever its estimate, and
/// leaves the filters as they were.
pub proof fn lemma_close_window_empties_sums(s: SaturationState)
    ensures
        s.close_window() == (SaturationState {
            spo2: s.close_window().spo2,
            red_memory: s.red_memory,
            ir_memory: s.ir_memory,
            ..SaturationState::initial()
        }),
{
}

/// Without a finger nothing moves: sample pairs with a magnitude below
/// `FINGER_THRESHOLD` leave any state as it was, however many they are.
pub proof fn lemma_absent_finger_changes_nothing(s: SaturationState, inputs: Seq<(u32, u32)>)
    requires
        forall|i: int|
            0 <= i < inputs.len() ==> (#[trigger] inputs[i]).0 < FINGER_THRESHOLD || inputs[i].1
                < FINGER_THRESHOLD,
    ensures
        s.run(inputs) == s,
    decreases inputs.len(),
{
    if inputs.len() > 0 {
        lemma_absent_finger_changes_nothing(s, inputs.drop_last());
    }
}

/// A new estimator that only ever sees magnitudes below `FINGER_THRESHOLD`
/// keeps reporting the saturation zero.
pub proof fn lemma_absent_finger_reads_zero(inputs: Seq<(u32, u32)>)
    requires
        forall|i: int|
            0 <= i < inputs.len() ==> (#[trigger] inputs[i]).0 < FINGER_THRESHOLD && inputs[i].1
                < FINGER_THRESHOLD,
    ensures
        SaturationState::initial().run(inputs).spo2 == 0,
{
    lemma_absent_finger_changes_nothing(SaturationState::initial(), inputs);
}

} // verus!
