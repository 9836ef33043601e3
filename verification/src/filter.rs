//! Single-pole adaptive high-pass filter in fixed-point integer arithmetic.

use vstd::prelude::*;

verus! {

/// Largest magnitude, in either direction, that the filter takes as one input.
/// Every `u32` and every `i32` lies within it.
pub const INPUT_LIMIT: i64 = 0x1_0000_0000;

/// The coefficient profile of a filter: how much of its memory survives a step.
#[derive(Clone, Copy, Debug, PartialEq, Eq, Structural)]
pub enum Smoothing {
    /// `31/32`: slow response, used on the heart-rate channel.
    Slow,
    /// `15/16`: faster response, used on the saturation channels.
    Fast,
}

impl Smoothing {
    /// Numerator of the coefficient.
    pub open spec fn numerator(self) -> int {
        match self {
            Smoothing::Slow => 31,
            Smoothing::Fast => 15,
        }
    }

    /// Denominator of the coefficient.
    pub open spec fn denominator(self) -> int {
        match self {
            Smoothing::Slow => 32,
            Smoothing::Fast => 16,
        }
    }
}

/// Quotient of `a` by a positive `b`, rounded toward zero.
pub open spec fn quotient_toward_zero(a: int, b: int) -> int {
    if a >= 0 {
        a / b
    } else {
        -((-a) / b)
    }
}

/// The part of the memory `w` that survives one step.
pub open spec fn retained(smoothing: Smoothing, w: int) -> int {
    quotient_toward_zero(smoothing.numerator() * w, smoothing.denominator())
}

/// Filter memory after the input `x` is fed to a filter whose memory is `w`.
pub open spec fn next_memory(smoothing: Smoothing, w: int, x: int) -> int {
    x + retained(smoothing, w)
}

/// What the filter hands out for the input `x` when its memory is `w`: the
/// change of its memory.
pub open spec fn filter_output(smoothing: Smoothing, w: int, x: int) -> int {
    next_memory(smoothing, w, x) - w
}

/// Whether `w` is a memory that a filter of this profile can hold.
pub open spec fn memory_in_range(smoothing: Smoothing, w: int) -> bool {
    -smoothing.denominator() * INPUT_LIMIT <= w <= smoothing.denominator() * INPUT_LIMIT
}

/// Whether `x` is an input that a filter takes.
pub open spec fn input_in_range(x: int) -> bool {
    -INPUT_LIMIT <= x <= INPUT_LIMIT
}

/// Removes the slowly moving offset from a stream of magnitudes.
pub struct BaselineRemover {
    w: i64,
    smoothing: Smoothing,
}

impl BaselineRemover {
    /// The filter's memory.
    pub closed spec fn memory(&self) -> int {
        self.w as int
    }

    /// The filter's coefficient profile.
    pub closed spec fn smoothing(&self) -> Smoothing {
        self.smoothing
    }

    /// The memory stays within the range that its profile allows.
    pub open spec fn wf(&self) -> bool {
        memory_in_range(self.smoothing(), self.memory())
    }

    /// A filter with empty memory.
    pub fn new(smoothing: Smoothing) -> (r: Self)
        ensures
            r.wf(),
            r.memory() == 0,
            r.smoothing() == smoothing,
    {
        BaselineRemover { w: 0, smoothing }
    }

    /// The memory, as a number.
    pub fn state(&self) -> (w: i64)
        ensures
            w == self.memory(),
    {
        self.w
    }

    /// Feeds one input; returns the change of the memory.
    pub fn step(&mut self, x: i64) -> (out: i64)
        requires
            old(self).wf(),
            input_in_range(x as int),
        ensures
            final(self).wf(),
            final(self).smoothing() == old(self).smoothing(),
            final(self).memory() == next_memory(old(self).smoothing(), old(self).memory(), x as int),
            out == filter_output(old(self).smoothing(), old(self).memory(), x as int),
    {
        let kept: i64 = match self.smoothing {
            Smoothing::Slow => (31 * self.w) / 32,
            Smoothing::Fast => (15 * self.w) / 16,
        };
        let w: i64 = x + kept;
        let out: i64 = w - self.w;
        self.w = w;
        out
    }
}

/// Filter memory after `n` further inputs, all equal to `x`, starting from the
/// memory `w`.
pub open spec fn memory_after(smoothing: Smoothing, w: int, x: int, n: nat) -> int
    decreases n,
{
    if n == 0 {
        w
    } else {
        memory_after(smoothing, next_memory(smoothing, w, x), x, (n - 1) as nat)
    }
}

/// The output that follows `n` inputs equal to `x`, for one more such input.
pub open spec fn output_after(smoothing: Smoothing, w: int, x: int, n: nat) -> int {
    filter_output(smoothing, memory_after(smoothing, w, x, n), x)
}

/// Distance of the memory `w` from the far end of the range in which it comes
/// to rest under the constant input `x`.
pub open spec fn distance_to_rest(smoothing: Smoothing, w: int, x: int) -> nat {
    let rest = smoothing.denominator() * x;
    if w <= rest {
        (rest - w) as nat
    } else {
        (w - rest) as nat
    }
}

/// A step keeps the memory within its range, for every input within the limit.
pub proof fn lemma_memory_stays_in_range(smoothing: Smoothing, w: int, x: int)
    requires
        memory_in_range(smoothing, w),
        input_in_range(x),
    ensures
        memory_in_range(smoothing, next_memory(smoothing, w, x)),
{
}

/// On a memory that is not negative, an input that is not negative leaves the
/// memory not negative, and the output is at most the input.
pub proof fn lemma_magnitudes_stay_magnitudes(smoothing: Smoothing, w: int, x: int)
    requires
        w >= 0,
        x >= 0,
    ensures
        next_memory(smoothing, w, x) >= x,
        filter_output(smoothing, w, x) <= x,
        filter_output(smoothing, w, x) >= x - w,
{
}

/// Under a constant input the output never grows and never changes sign: the
/// output of the second of two steps lies between zero and that of the first.
pub proof fn lemma_constant_input_decays(smoothing: Smoothing, w: int, x: int)
    ensures
        ({
            let first = filter_output(smoothing, w, x);
            let second = filter_output(smoothing, next_memory(smoothing, w, x), x);
            (0 <= second <= first) || (first <= second <= 0)
        }),
{
    let next = next_memory(smoothing, w, x);
    if w <= next {
        lemma_retained_is_monotone(smoothing, w, next);
    } else {
        lemma_retained_is_monotone(smoothing, next, w);
    }
}

/// Of a larger memory more survives a step, but never more than the memories
/// differ by.
pub proof fn lemma_retained_is_monotone(smoothing: Smoothing, a: int, b: int)
    requires
        a <= b,
    ensures
        0 <= retained(smoothing, b) - retained(smoothing, a) <= b - a,
{
}

/// One more input takes the memory after `n` inputs one step further.
pub proof fn lemma_memory_after_one_more(smoothing: Smoothing, w: int, x: int, n: nat)
    ensures
        memory_after(smoothing, w, x, n + 1) == next_memory(
            smoothing,
            memory_after(smoothing, w, x, n),
            x,
        ),
    decreases n,
{
    let first = next_memory(smoothing, w, x);
    assert(memory_after(smoothing, w, x, n + 1) == memory_after(smoothing, first, x, n));
    if n > 0 {
        lemma_memory_after_one_more(smoothing, first, x, (n - 1) as nat);
        assert(memory_after(smoothing, w, x, n) == memory_after(smoothing, first, x, (n - 1) as nat));
    } else {
        assert(memory_after(smoothing, first, x, 0) == first);
    }
}

/// Along a run of equal inputs each output lies between zero and the output
/// before it: the size of the output decays, and its sign never turns.
pub proof fn lemma_outputs_shrink(smoothing: Smoothing, w: int, x: int, n: nat)
    ensures
        ({
            let earlier = output_after(smoothing, w, x, n);
            let later = output_after(smoothing, w, x, n + 1);
            (0 <= later <= earlier) || (earlier <= later <= 0)
        }),
{
    lemma_memory_after_one_more(smoothing, w, x, n);
    lemma_constant_input_decays(smoothing, memory_after(smoothing, w, x, n), x);
}

/// Once the output is zero under a constant input, memory and output stay as
/// they are.
pub proof fn lemma_settled_stays_settled(smoothing: Smoothing, w: int, x: int, n: nat)
    requires
        filter_output(smoothing, w, x) == 0,
    ensures
        memory_after(smoothing, w, x, n) == w,
    decreases n,
{
    if n > 0 {
        lemma_settled_stays_settled(smoothing, w, x, (n - 1) as nat);
    }
}

/// Each step under a constant input that has not come to rest moves the memory
/// closer to its rest, by the size of the output.
pub proof fn lemma_step_approaches_rest(smoothing: Smoothing, w: int, x: int)
    ensures
        ({
            let out = filter_output(smoothing, w, x);
            let before = distance_to_rest(smoothing, w, x);
            let after = distance_to_rest(smoothing, next_memory(smoothing, w, x), x);
            if out >= 0 {
                after == before - out
            } else {
                after == before + out
            }
        }),
{
}

/// Steady-state rejection of a constant input: after as many steps as the
/// memory is away from its rest, the output is zero, and stays zero.
pub proof fn lemma_constant_input_settles(smoothing: Smoothing, w: int, x: int, n: nat)
    requires
        n >= distance_to_rest(smoothing, w, x) || filter_output(smoothing, w, x) == 0,
    ensures
        output_after(smoothing, w, x, n) == 0,
    decreases n,
{
    if filter_output(smoothing, w, x) == 0 {
        lemma_settled_stays_settled(smoothing, w, x, n);
    } else {
        lemma_step_approaches_rest(smoothing, w, x);
        if n > 0 {
            lemma_constant_input_settles(smoothing, next_memory(smoothing, w, x), x, (n - 1) as nat);
        }
    }
}

} // verus!
