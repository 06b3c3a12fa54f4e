//! Algorithmic reverberation: a pre-delay line, direct convolution of
//! early reflections against a loaded impulse response, and a tail of
//! parallel damped comb filters followed by all-pass diffusers in
//! series, mixed dry/wet into the output.

use vstd::prelude::*;

use crate::fixed::{sat, spec_clamp, tdiv, FP_ONE, MAX_SAMPLE_RATE, SAMPLE_LIMIT};

verus! {

/// The preset families a reverb can be configured as.
#[derive(Clone, Copy, Debug, PartialEq, Eq, Structural)]
pub enum ReverbType {
    Hall,
    Room,
    Plate,
    Spring,
    Shimmer,
}

/// Longest admitted impulse response, in samples.
pub const MAX_IR_LEN: usize = 65_536;

/// Longest admitted pre-delay, in milliseconds.
pub const MAX_PRE_DELAY_MS: i64 = 1_000;

/// Largest admitted feedback: just below one, scaled by `FP_ONE`.
pub const MAX_FEEDBACK: i64 = 980_000;

/// A comb filter with a one-pole low-pass inside its feedback loop.
#[derive(Clone, Debug)]
pub struct DampedComb {
    pub buf: Vec<i64>,
    pub idx: usize,
    /// Loop feedback, within `[0, MAX_FEEDBACK]`, scaled by `FP_ONE`.
    pub feedback: i64,
    /// Damping of the loop low-pass, within `[0, FP_ONE]`.
    pub damping: i64,
    pub lowpass_state: i64,
}

/// The comb's new low-pass state: `(1 - damping) y + damping s`, for the
/// delayed sample `y` the comb is about to emit.
pub open spec fn spec_comb_lowpass(c: DampedComb) -> int {
    tdiv(
        (FP_ONE - c.damping) * c.buf@[c.idx as int] + c.damping * c.lowpass_state,
        FP_ONE as int,
    )
}

/// What the comb writes back into its delay line on input `x`.
pub open spec fn spec_comb_write(c: DampedComb, x: int) -> int {
    sat(tdiv(spec_comb_lowpass(c) * c.feedback, FP_ONE as int) + x)
}

/// How `c1` relates to `c0` after one sample of input `x`.
pub open spec fn comb_stepped(c0: DampedComb, c1: DampedComb, x: int) -> bool {
    &&& c1.feedback == c0.feedback
    &&& c1.damping == c0.damping
    &&& c1.lowpass_state == spec_comb_lowpass(c0)
    &&& c1.buf@ == c0.buf@.update(c0.idx as int, spec_comb_write(c0, x) as i64)
    &&& c1.idx == if c0.idx + 1 >= c0.buf.len() {
        0usize
    } else {
        (c0.idx + 1) as usize
    }
}

impl DampedComb {
    pub open spec fn wf(&self) -> bool {
        &&& 1 <= self.buf@.len()
        &&& (self.idx as int) < self.buf@.len()
        &&& 0 <= self.feedback <= MAX_FEEDBACK
        &&& 0 <= self.damping <= FP_ONE
        &&& -SAMPLE_LIMIT <= self.lowpass_state <= SAMPLE_LIMIT
        &&& forall|i: int|
            0 <= i < self.buf@.len() ==> -SAMPLE_LIMIT <= #[trigger] self.buf@[i] <= SAMPLE_LIMIT
    }

    /// A comb over a delay line of `len` zeroed samples (at least one).
    fn new(len: usize, feedback: i64, damping: i64) -> (r: Self)
        requires
            1 <= len <= 1_000_000,
        ensures
            r.wf(),
            r.buf@.len() == len,
            r.idx == 0,
            r.lowpass_state == 0,
            r.feedback as int == spec_clamp(feedback as int, 0, MAX_FEEDBACK as int),
            r.damping as int == spec_clamp(damping as int, 0, FP_ONE as int),
            forall|i: int| 0 <= i < len ==> #[trigger] r.buf@[i] == 0,
    {
        let mut buf: Vec<i64> = Vec::new();
        let mut k: usize = 0;
        while k < len
            invariant
                k <= len,
                buf@.len() == k,
                forall|i: int| 0 <= i < k ==> #[trigger] buf@[i] == 0,
            decreases len - k,
        {
            buf.push(0);
            k = k + 1;
        }
        DampedComb {
            buf,
            idx: 0,
            feedback: crate::fixed::clamp_i64(feedback, 0, MAX_FEEDBACK),
            damping: crate::fixed::clamp_i64(damping, 0, FP_ONE),
            lowpass_state: 0,
        }
    }

    /// Emit the delayed sample and feed the damped loop with `x`.
    fn process(&mut self, x: i64) -> (r: i64)
        requires
            old(self).wf(),
            -SAMPLE_LIMIT <= x <= SAMPLE_LIMIT,
        ensures
            comb_stepped(*old(self), *final(self), x as int),
            final(self).wf(),
            r == old(self).buf@[old(self).idx as int],
            -SAMPLE_LIMIT <= r <= SAMPLE_LIMIT,
    {
        let y = self.buf[self.idx];
        proof {
            lemma_mix_bound(
                (FP_ONE - self.damping) as int,
                y as int,
                self.damping as int,
                self.lowpass_state as int,
            );
            assert(-1_000_000_000_000_000 <= (FP_ONE - self.damping) * y <= 1_000_000_000_000_000)
                by (nonlinear_arith)
                requires
                    0 <= FP_ONE - self.damping <= FP_ONE,
                    -SAMPLE_LIMIT <= y <= SAMPLE_LIMIT,
                    FP_ONE == 1_000_000,
                    SAMPLE_LIMIT == 1_000_000_000,
            ;
            assert(-1_000_000_000_000_000 <= self.damping * self.lowpass_state
                <= 1_000_000_000_000_000) by (nonlinear_arith)
                requires
                    0 <= self.damping <= FP_ONE,
                    -SAMPLE_LIMIT <= self.lowpass_state <= SAMPLE_LIMIT,
                    FP_ONE == 1_000_000,
                    SAMPLE_LIMIT == 1_000_000_000,
            ;
        }
        let mixed: i128 = ((FP_ONE - self.damping) as i128) * (y as i128) + (self.damping as i128)
            * (self.lowpass_state as i128);
        let lp: i64 = (if mixed >= 0 {
            mixed / (FP_ONE as i128)
        } else {
            -((-mixed) / (FP_ONE as i128))
        }) as i64;
        proof {
            assert(-1_000_000_000_000_000 <= lp as int * self.feedback as int
                <= 1_000_000_000_000_000) by (nonlinear_arith)
                requires
                    -SAMPLE_LIMIT <= lp <= SAMPLE_LIMIT,
                    0 <= self.feedback <= FP_ONE,
                    SAMPLE_LIMIT == 1_000_000_000,
                    FP_ONE == 1_000_000,
            ;
        }
        let fb = crate::fixed::scale_signed(lp, self.feedback, FP_ONE);
        let write = crate::fixed::saturate(fb + x);
        self.lowpass_state = lp;
        self.buf.set(self.idx, write);
        let n = self.buf.len();
        self.idx = if self.idx + 1 >= n {
            0
        } else {
            self.idx + 1
        };
        y
    }
}

/// An all-pass diffuser.
#[derive(Clone, Debug)]
pub struct Allpass {
    pub buf: Vec<i64>,
    pub idx: usize,
    /// Feedback, within `[0, MAX_FEEDBACK]`, scaled by `FP_ONE`.
    pub feedback: i64,
}

/// The diffuser's output on input `x`: `-x` plus the delayed sample.
pub open spec fn spec_allpass_out(a: Allpass, x: int) -> int {
    sat(-x + a.buf@[a.idx as int])
}

/// What the diffuser writes back: `x` plus the scaled delayed sample.
pub open spec fn spec_allpass_write(a: Allpass, x: int) -> int {
    sat(x + tdiv(a.buf@[a.idx as int] * a.feedback, FP_ONE as int))
}

/// How `a1` relates to `a0` after one sample of input `x`.
pub open spec fn allpass_stepped(a0: Allpass, a1: Allpass, x: int) -> bool {
    &&& a1.feedback == a0.feedback
    &&& a1.buf@ == a0.buf@.update(a0.idx as int, spec_allpass_write(a0, x) as i64)
    &&& a1.idx == if a0.idx + 1 >= a0.buf.len() {
        0usize
    } else {
        (a0.idx + 1) as usize
    }
}

impl Allpass {
    pub open spec fn wf(&self) -> bool {
        &&& 1 <= self.buf@.len()
        &&& (self.idx as int) < self.buf@.len()
        &&& 0 <= self.feedback <= MAX_FEEDBACK
        &&& forall|i: int|
            0 <= i < self.buf@.len() ==> -SAMPLE_LIMIT <= #[trigger] self.buf@[i] <= SAMPLE_LIMIT
    }

    /// A diffuser over a delay line of `len` zeroed samples (at least one).
    fn new(len: usize, feedback: i64) -> (r: Self)
        requires
            1 <= len <= 1_000_000,
        ensures
            r.wf(),
            r.buf@.len() == len,
            r.idx == 0,
            r.feedback as int == spec_clamp(feedback as int, 0, MAX_FEEDBACK as int),
            forall|i: int| 0 <= i < len ==> #[trigger] r.buf@[i] == 0,
    {
        let mut buf: Vec<i64> = Vec::new();
        let mut k: usize = 0;
        while k < len
            invariant
                k <= len,
                buf@.len() == k,
                forall|i: int| 0 <= i < k ==> #[trigger] buf@[i] == 0,
            decreases len - k,
        {
            buf.push(0);
            k = k + 1;
        }
        Allpass { buf, idx: 0, feedback: crate::fixed::clamp_i64(feedback, 0, MAX_FEEDBACK) }
    }

    /// Emit `-x` plus the delayed sample; store `x` plus its echo.
    fn process(&mut self, x: i64) -> (r: i64)
        requires
            old(self).wf(),
            -SAMPLE_LIMIT <= x <= SAMPLE_LIMIT,
        ensures
            allpass_stepped(*old(self), *final(self), x as int),
            final(self).wf(),
            r == spec_allpass_out(*old(self), x as int),
            -SAMPLE_LIMIT <= r <= SAMPLE_LIMIT,
    {
        let bo = self.buf[self.idx];
        let y = crate::fixed::saturate(-x + bo);
        proof {
            assert(-1_000_000_000_000_000 <= bo as int * self.feedback as int
                <= 1_000_000_000_000_000) by (nonlinear_arith)
                requires
                    -SAMPLE_LIMIT <= bo <= SAMPLE_LIMIT,
                    0 <= self.feedback <= FP_ONE,
                    SAMPLE_LIMIT == 1_000_000_000,
                    FP_ONE == 1_000_000,
            ;
        }
        let echo = crate::fixed::scale_signed(bo, self.feedback, FP_ONE);
        let write = crate::fixed::saturate(x + echo);
        self.buf.set(self.idx, write);
        let n = self.buf.len();
        self.idx = if self.idx + 1 >= n {
            0
        } else {
            self.idx + 1
        };
        y
    }
}

/// The reverberator.
#[derive(Clone, Debug)]
pub struct Reverb {
    pub reverb_type: ReverbType,
    /// Dry/wet mix, within `[0, FP_ONE]`: 0 is fully dry, `FP_ONE` fully wet.
    pub dry_wet: i64,
    /// Gain on the early reflections, within `[0, 2 * FP_ONE]`.
    pub early_gain: i64,
    /// Gain on the algorithmic tail, within `[0, 2 * FP_ONE]`.
    pub tail_gain: i64,
    /// Pre-delay, milliseconds, within `[0, MAX_PRE_DELAY_MS]`.
    pub pre_delay_ms: i64,
    /// Sample rate, Hz.
    pub sample_rate: u32,
    /// Impulse response for the early reflections (empty: no early part).
    pub ir: Vec<i64>,
    /// Circular history for the direct convolution.
    pub ir_hist: Vec<i64>,
    pub ir_pos: usize,
    /// Circular pre-delay line.
    pub predelay_buf: Vec<i64>,
    pub predelay_pos: usize,
    /// Parallel combs feeding the tail.
    pub combs: Vec<DampedComb>,
    /// Series all-pass diffusers smoothing the tail.
    pub allpasses: Vec<Allpass>,
}

/// What the pre-delay line emits this sample.
pub open spec fn spec_predelay_out(rv: Reverb) -> int {
    rv.predelay_buf@[rv.predelay_pos as int] as int
}

/// The first `k` terms of the direct convolution of `hist` against `ir`,
/// read backward from `pos` with wraparound.
pub open spec fn spec_conv(ir: Seq<i64>, hist: Seq<i64>, pos: int, k: nat) -> int
    decreases k,
{
    if k == 0 {
        0
    } else {
        let i = k - 1;
        let j = if pos >= i {
            pos - i
        } else {
            pos - i + hist.len()
        };
        spec_conv(ir, hist, pos, (k - 1) as nat) + hist[j] * ir[i]
    }
}

/// The early-reflection sample for the pre-delayed input `d`: the
/// convolution against the impulse response after `d` enters the
/// history; zero when no impulse response is loaded.
pub open spec fn spec_early_raw(rv: Reverb, d: int) -> int {
    if rv.ir@.len() == 0 {
        0
    } else {
        let hist1 = rv.ir_hist@.update(rv.ir_pos as int, d as i64);
        sat(tdiv(spec_conv(rv.ir@, hist1, rv.ir_pos as int, rv.ir@.len()), FP_ONE as int))
    }
}

/// The early reflections scaled by their gain.
pub open spec fn spec_early_out(rv: Reverb, d: int) -> int {
    sat(tdiv(spec_early_raw(rv, d) * rv.early_gain, FP_ONE as int))
}

/// The sum of what the first `k` combs emit this sample.
pub open spec fn spec_comb_outs(combs: Seq<DampedComb>, k: nat) -> int
    decreases k,
{
    if k == 0 {
        0
    } else {
        spec_comb_outs(combs, (k - 1) as nat) + combs[k - 1].buf@[combs[k - 1].idx as int]
    }
}

/// The tail before diffusion: the comb outputs averaged.
pub open spec fn spec_tail_pre(rv: Reverb) -> int {
    if rv.combs@.len() == 0 {
        0
    } else {
        tdiv(spec_comb_outs(rv.combs@, rv.combs@.len()), rv.combs@.len() as int)
    }
}

/// The signal after the first `k` diffusers, starting from `x`.
pub open spec fn spec_allpass_chain(aps: Seq<Allpass>, x: int, k: nat) -> int
    decreases k,
{
    if k == 0 {
        x
    } else {
        spec_allpass_out(aps[k - 1], spec_allpass_chain(aps, x, (k - 1) as nat))
    }
}

/// The algorithmic tail scaled by its gain. The combs' outputs are reads
/// of their delay lines, so the tail this sample does not depend on the
/// sample being fed in.
pub open spec fn spec_tail_out(rv: Reverb) -> int {
    let pre = spec_tail_pre(rv);
    let diffused = spec_allpass_chain(rv.allpasses@, pre, rv.allpasses@.len());
    sat(tdiv(diffused * rv.tail_gain, FP_ONE as int))
}

/// The wet signal: early reflections plus tail.
pub open spec fn spec_wet(rv: Reverb, d: int) -> int {
    sat(spec_early_out(rv, d) + spec_tail_out(rv))
}

/// The reverb output for input `x`:
/// `(1 - dry_wet) x + dry_wet wet`, saturated.
pub open spec fn spec_reverb_out(rv: Reverb, x: int) -> int {
    let wet = spec_wet(rv, spec_predelay_out(rv));
    sat(tdiv((FP_ONE - rv.dry_wet) * x + rv.dry_wet * wet, FP_ONE as int))
}

/// One sample through a circular delay line: emit the oldest sample,
/// store the new one in its place.
fn delay_line_step(buf: &mut Vec<i64>, pos: &mut usize, x: i64) -> (r: i64)
    requires
        1 <= old(buf)@.len(),
        (*old(pos) as int) < old(buf)@.len(),
        -SAMPLE_LIMIT <= x <= SAMPLE_LIMIT,
        forall|i: int|
            0 <= i < old(buf)@.len() ==> -SAMPLE_LIMIT <= #[trigger] old(buf)@[i] <= SAMPLE_LIMIT,
    ensures
        r == old(buf)@[*old(pos) as int],
        -SAMPLE_LIMIT <= r <= SAMPLE_LIMIT,
        final(buf)@ == old(buf)@.update(*old(pos) as int, x),
        *final(pos) == if *old(pos) + 1 >= old(buf)@.len() {
            0usize
        } else {
            (*old(pos) + 1) as usize
        },
        (*final(pos) as int) < final(buf)@.len(),
        forall|i: int|
            0 <= i < final(buf)@.len() ==> -SAMPLE_LIMIT <= #[trigger] final(buf)@[i]
                <= SAMPLE_LIMIT,
{
    let y = buf[*pos];
    buf.set(*pos, x);
    let n = buf.len();
    *pos = if *pos + 1 >= n {
        0
    } else {
        *pos + 1
    };
    y
}

/// The direct convolution of the history against the impulse response,
/// after the new sample enters the history; advances the history head.
fn convolve_step(ir: &Vec<i64>, hist: &mut Vec<i64>, pos: &mut usize, x: i64) -> (r: i64)
    requires
        ir@.len() >= 1,
        ir@.len() <= MAX_IR_LEN,
        old(hist)@.len() == ir@.len(),
        (*old(pos) as int) < old(hist)@.len(),
        -SAMPLE_LIMIT <= x <= SAMPLE_LIMIT,
        forall|i: int| 0 <= i < ir@.len() ==> -FP_ONE <= #[trigger] ir@[i] <= FP_ONE,
        forall|i: int|
            0 <= i < old(hist)@.len() ==> -SAMPLE_LIMIT <= #[trigger] old(hist)@[i] <= SAMPLE_LIMIT,
    ensures
        final(hist)@ == old(hist)@.update(*old(pos) as int, x),
        r == sat(tdiv(spec_conv(ir@, final(hist)@, *old(pos) as int, ir@.len()), FP_ONE as int)),
        -SAMPLE_LIMIT <= r <= SAMPLE_LIMIT,
        *final(pos) == if *old(pos) + 1 >= old(hist)@.len() {
            0usize
        } else {
            (*old(pos) + 1) as usize
        },
        (*final(pos) as int) < final(hist)@.len(),
        forall|i: int|
            0 <= i < final(hist)@.len() ==> -SAMPLE_LIMIT <= #[trigger] final(hist)@[i]
                <= SAMPLE_LIMIT,
{
    hist.set(*pos, x);
    let n = ir.len();
    let mut acc: i128 = 0;
    let mut i: usize = 0;
    let mut j: usize = *pos;
    while i < n
        invariant
            n == ir@.len(),
            hist@.len() == n,
            1 <= n <= MAX_IR_LEN,
            i <= n,
            (*pos as int) < n,
            j as int == (if *pos as int >= i as int {
                *pos as int - i as int
            } else {
                *pos as int - i as int + n as int
            }),
            acc as int == spec_conv(ir@, hist@, *pos as int, i as nat),
            -(i as int) * 1_000_000_000_000_000 <= acc as int <= (i as int)
                * 1_000_000_000_000_000,
            forall|k: int| 0 <= k < n ==> -FP_ONE <= #[trigger] ir@[k] <= FP_ONE,
            forall|k: int| 0 <= k < n ==> -SAMPLE_LIMIT <= #[trigger] hist@[k] <= SAMPLE_LIMIT,
        decreases n - i,
    {
        let h = hist[j];
        let c = ir[i];
        proof {
            assert(-1_000_000_000_000_000 <= h as int * c as int <= 1_000_000_000_000_000)
                by (nonlinear_arith)
                requires
                    -SAMPLE_LIMIT <= h <= SAMPLE_LIMIT,
                    -FP_ONE <= c <= FP_ONE,
                    SAMPLE_LIMIT == 1_000_000_000,
                    FP_ONE == 1_000_000,
            ;
        }
        acc = acc + (h as i128) * (c as i128);
        i = i + 1;
        j = if j == 0 {
            n - 1
        } else {
            j - 1
        };
    }
    let quot: i128 = if acc >= 0 {
        acc / (FP_ONE as i128)
    } else {
        -((-acc) / (FP_ONE as i128))
    };
    let r: i64 = if quot > SAMPLE_LIMIT as i128 {
        SAMPLE_LIMIT
    } else if quot < -SAMPLE_LIMIT as i128 {
        -SAMPLE_LIMIT
    } else {
        quot as i64
    };
    let m = hist.len();
    *pos = if *pos + 1 >= m {
        0
    } else {
        *pos + 1
    };
    r
}

/// Run one sample through every comb in parallel and average their
/// outputs.
fn comb_mix(combs: &mut Vec<DampedComb>, x: i64) -> (r: i64)
    requires
        old(combs)@.len() <= 16,
        -SAMPLE_LIMIT <= x <= SAMPLE_LIMIT,
        forall|i: int| 0 <= i < old(combs)@.len() ==> (#[trigger] old(combs)@[i]).wf(),
    ensures
        final(combs)@.len() == old(combs)@.len(),
        forall|i: int|
            0 <= i < old(combs)@.len() ==> comb_stepped(
                old(combs)@[i],
                #[trigger] final(combs)@[i],
                x as int,
            ),
        forall|i: int| 0 <= i < final(combs)@.len() ==> (#[trigger] final(combs)@[i]).wf(),
        r == (if old(combs)@.len() == 0 {
            0int
        } else {
            tdiv(spec_comb_outs(old(combs)@, old(combs)@.len()), old(combs)@.len() as int)
        }),
        -SAMPLE_LIMIT <= r <= SAMPLE_LIMIT,
{
    let ghost orig = combs@;
    let n = combs.len();
    let mut sum: i64 = 0;
    let mut i: usize = 0;
    while i < n
        invariant
            n == combs@.len(),
            n == orig.len(),
            n <= 16,
            i <= n,
            -SAMPLE_LIMIT <= x <= SAMPLE_LIMIT,
            sum as int == spec_comb_outs(orig, i as nat),
            -16 * SAMPLE_LIMIT <= sum <= 16 * SAMPLE_LIMIT,
            -(i as int) * SAMPLE_LIMIT <= sum as int <= (i as int) * SAMPLE_LIMIT,
            forall|k: int| i <= k < n ==> combs@[k] == orig[k],
            forall|k: int| 0 <= k < i ==> comb_stepped(orig[k], #[trigger] combs@[k], x as int),
            forall|k: int| 0 <= k < n ==> (#[trigger] combs@[k]).wf(),
        decreases n - i,
    {
        let y = combs[i].process(x);
        proof {
            assert(y == orig[i as int].buf@[orig[i as int].idx as int]);
        }
        sum = sum + y;
        i = i + 1;
    }
    if n == 0 {
        0
    } else {
        proof {
            assert(-SAMPLE_LIMIT <= tdiv(sum as int, n as int) <= SAMPLE_LIMIT)
                by (nonlinear_arith)
                requires
                    1 <= n <= 16,
                    -(n as int) * SAMPLE_LIMIT <= sum as int <= (n as int) * SAMPLE_LIMIT,
            ;
        }
        if sum >= 0 {
            sum / (n as i64)
        } else {
            -((-sum) / (n as i64))
        }
    }
}

/// Run one sample through the diffusers in series.
fn allpass_series(aps: &mut Vec<Allpass>, x: i64) -> (r: i64)
    requires
        old(aps)@.len() <= 16,
        -SAMPLE_LIMIT <= x <= SAMPLE_LIMIT,
        forall|i: int| 0 <= i < old(aps)@.len() ==> (#[trigger] old(aps)@[i]).wf(),
    ensures
        final(aps)@.len() == old(aps)@.len(),
        forall|i: int|
            0 <= i < old(aps)@.len() ==> allpass_stepped(
                old(aps)@[i],
                #[trigger] final(aps)@[i],
                spec_allpass_chain(old(aps)@, x as int, i as nat),
            ),
        forall|i: int| 0 <= i < final(aps)@.len() ==> (#[trigger] final(aps)@[i]).wf(),
        r == spec_allpass_chain(old(aps)@, x as int, old(aps)@.len()),
        -SAMPLE_LIMIT <= r <= SAMPLE_LIMIT,
{
    let ghost orig = aps@;
    let n = aps.len();
    let mut y: i64 = x;
    let mut i: usize = 0;
    while i < n
        invariant
            n == aps@.len(),
            n == orig.len(),
            i <= n,
            y as int == spec_allpass_chain(orig, x as int, i as nat),
            -SAMPLE_LIMIT <= y <= SAMPLE_LIMIT,
            forall|k: int| i <= k < n ==> aps@[k] == orig[k],
            forall|k: int|
                0 <= k < i ==> allpass_stepped(
                    orig[k],
                    #[trigger] aps@[k],
                    spec_allpass_chain(orig, x as int, k as nat),
                ),
            forall|k: int| 0 <= k < n ==> (#[trigger] aps@[k]).wf(),
        decreases n - i,
    {
        y = aps[i].process(y);
        i = i + 1;
    }
    y
}

/// The loop feedback each preset's combs run at.
pub open spec fn spec_preset_feedback(t: ReverbType) -> int {
    match t {
        ReverbType::Room => 720_000,
        ReverbType::Plate => 780_000,
        ReverbType::Spring => 700_000,
        ReverbType::Hall => 800_000,
        ReverbType::Shimmer => 820_000,
    }
}

/// The loop damping each preset's combs run at.
pub open spec fn spec_preset_damping(t: ReverbType) -> int {
    match t {
        ReverbType::Room => 250_000,
        ReverbType::Plate => 350_000,
        ReverbType::Spring => 450_000,
        ReverbType::Hall => 300_000,
        ReverbType::Shimmer => 250_000,
    }
}

/// Each preset's default dry/wet mix.
pub open spec fn spec_preset_dry_wet(t: ReverbType) -> int {
    match t {
        ReverbType::Room => 200_000,
        ReverbType::Plate => 250_000,
        ReverbType::Spring => 220_000,
        ReverbType::Hall => 300_000,
        ReverbType::Shimmer => 350_000,
    }
}

/// Each preset's gain on the early reflections.
pub open spec fn spec_preset_early_gain(t: ReverbType) -> int {
    match t {
        ReverbType::Room => 800_000,
        ReverbType::Plate => 900_000,
        ReverbType::Spring => 850_000,
        ReverbType::Hall => 900_000,
        ReverbType::Shimmer => 900_000,
    }
}

/// Each preset's gain on the tail.
pub open spec fn spec_preset_tail_gain(t: ReverbType) -> int {
    match t {
        ReverbType::Room => 800_000,
        ReverbType::Plate => 950_000,
        ReverbType::Spring => 900_000,
        ReverbType::Hall => 950_000,
        ReverbType::Shimmer => 1_000_000,
    }
}

/// Each preset's pre-delay, milliseconds.
pub open spec fn spec_preset_pre_delay_ms(t: ReverbType) -> int {
    match t {
        ReverbType::Room => 8,
        ReverbType::Plate => 10,
        ReverbType::Spring => 12,
        ReverbType::Hall => 20,
        ReverbType::Shimmer => 25,
    }
}

/// Each preset's comb delays, in tenths of a millisecond.
pub open spec fn spec_comb_tenths(t: ReverbType, i: int) -> int {
    match t {
        ReverbType::Room => {
            if i == 0 { 297 } else if i == 1 { 371 } else if i == 2 { 411 } else { 437 }
        },
        ReverbType::Plate => {
            if i == 0 { 310 } else if i == 1 { 360 } else if i == 2 { 400 } else { 440 }
        },
        ReverbType::Spring => {
            if i == 0 { 250 } else if i == 1 { 310 } else if i == 2 { 340 } else { 380 }
        },
        ReverbType::Hall => {
            if i == 0 { 297 } else if i == 1 { 371 } else if i == 2 { 411 } else { 437 }
        },
        ReverbType::Shimmer => {
            if i == 0 { 297 } else if i == 1 { 371 } else if i == 2 { 411 } else { 437 }
        },
    }
}

/// Each preset's diffuser delays, in tenths of a millisecond.
pub open spec fn spec_ap_tenths(t: ReverbType, i: int) -> int {
    match t {
        ReverbType::Room => if i == 0 { 50 } else { 17 },
        ReverbType::Plate => if i == 0 { 63 } else { 21 },
        ReverbType::Spring => if i == 0 { 71 } else { 23 },
        ReverbType::Hall => if i == 0 { 80 } else { 30 },
        ReverbType::Shimmer => if i == 0 { 80 } else { 30 },
    }
}

/// A delay length in samples for a time in tenths of a millisecond,
/// rounded, and at least one.
pub open spec fn spec_delay_samples(tenths: int, rate: int) -> int {
    let n = (tenths * rate + 5000) / 10000;
    if n < 1 { 1 } else { n }
}

/// A pre-delay length in samples for a time in milliseconds, rounded,
/// and at least one.
pub open spec fn spec_predelay_samples(ms: int, rate: int) -> int {
    let n = (ms * rate + 500) / 1000;
    if n < 1 { 1 } else { n }
}

/// A delay length in samples for a time in tenths of a millisecond.
fn delay_samples(tenths: i64, rate: u32) -> (r: usize)
    requires
        1 <= tenths <= 1000,
        1 <= rate <= MAX_SAMPLE_RATE,
    ensures
        r as int == spec_delay_samples(tenths as int, rate as int),
        1 <= r <= 100_001,
    {
    proof {
        assert(0 <= tenths * rate <= 1_000_000_000) by (nonlinear_arith)
            requires
                1 <= tenths <= 1000,
                1 <= rate <= MAX_SAMPLE_RATE,
        ;
    }
    let n = (tenths * (rate as i64) + 5000) / 10000;
    if n < 1 {
        1
    } else {
        n as usize
    }
}

/// A reverb freshly configured as preset `t`: the preset's mix, gains
/// and pre-delay, four parallel combs and two diffusers at the preset's
/// delay lengths for the reverb's sample rate, and every delay line
/// zeroed and rewound.
pub open spec fn preset_configured(rv: Reverb, t: ReverbType) -> bool {
    &&& rv.reverb_type == t
    &&& rv.dry_wet == spec_preset_dry_wet(t)
    &&& rv.early_gain == spec_preset_early_gain(t)
    &&& rv.tail_gain == spec_preset_tail_gain(t)
    &&& rv.pre_delay_ms == spec_preset_pre_delay_ms(t)
    &&& rv.combs@.len() == 4
    &&& forall|i: int|
        0 <= i < 4 ==> {
            let c = #[trigger] rv.combs@[i];
            c.idx == 0 && c.lowpass_state == 0 && c.feedback == spec_preset_feedback(t)
                && c.damping == spec_preset_damping(t) && c.buf@.len() == spec_delay_samples(
                spec_comb_tenths(t, i),
                rv.sample_rate as int,
            ) && (forall|j: int| 0 <= j < c.buf@.len() ==> #[trigger] c.buf@[j] == 0)
        }
    &&& rv.allpasses@.len() == 2
    &&& forall|i: int|
        0 <= i < 2 ==> {
            let a = #[trigger] rv.allpasses@[i];
            a.idx == 0 && a.feedback == 700_000 && a.buf@.len() == spec_delay_samples(
                spec_ap_tenths(t, i),
                rv.sample_rate as int,
            ) && (forall|j: int| 0 <= j < a.buf@.len() ==> #[trigger] a.buf@[j] == 0)
        }
    &&& rv.predelay_pos == 0
    &&& rv.predelay_buf@.len() == spec_predelay_samples(
        spec_preset_pre_delay_ms(t),
        rv.sample_rate as int,
    )
    &&& forall|j: int| 0 <= j < rv.predelay_buf@.len() ==> #[trigger] rv.predelay_buf@[j] == 0
}

impl Reverb {
    /// Parameter ranges, and every delay line well formed and bounded.
    pub open spec fn wf(&self) -> bool {
        &&& 0 <= self.dry_wet <= FP_ONE
        &&& 0 <= self.early_gain <= 2 * FP_ONE
        &&& 0 <= self.tail_gain <= 2 * FP_ONE
        &&& 0 <= self.pre_delay_ms <= MAX_PRE_DELAY_MS
        &&& 1 <= self.sample_rate <= MAX_SAMPLE_RATE
        &&& self.ir@.len() <= MAX_IR_LEN
        &&& forall|i: int| 0 <= i < self.ir@.len() ==> -FP_ONE <= #[trigger] self.ir@[i] <= FP_ONE
        &&& self.ir_hist@.len() == (if self.ir@.len() == 0 { 1int } else { self.ir@.len() as int })
        &&& (self.ir_pos as int) < self.ir_hist@.len()
        &&& forall|i: int|
            0 <= i < self.ir_hist@.len() ==> -SAMPLE_LIMIT <= #[trigger] self.ir_hist@[i]
                <= SAMPLE_LIMIT
        &&& 1 <= self.predelay_buf@.len() <= 1_000_001
        &&& (self.predelay_pos as int) < self.predelay_buf@.len()
        &&& forall|i: int|
            0 <= i < self.predelay_buf@.len() ==> -SAMPLE_LIMIT <= #[trigger] self.predelay_buf@[i]
                <= SAMPLE_LIMIT
        &&& self.combs@.len() <= 16
        &&& forall|i: int| 0 <= i < self.combs@.len() ==> (#[trigger] self.combs@[i]).wf()
        &&& self.allpasses@.len() <= 16
        &&& forall|i: int| 0 <= i < self.allpasses@.len() ==> (#[trigger] self.allpasses@[i]).wf()
    }

    /// A reverb configured by its preset; the preset fixes the mix,
    /// gains, pre-delay and delay-line lengths.
    pub fn new(sample_rate: u32, reverb_type: ReverbType) -> (r: Self)
        ensures
            r.wf(),
            preset_configured(r, reverb_type),
            r.sample_rate as int == spec_clamp(sample_rate as int, 1, MAX_SAMPLE_RATE as int),
            r.ir@.len() == 0,
    {
        let rate: u32 = if sample_rate < 1 {
            1
        } else if sample_rate > MAX_SAMPLE_RATE {
            MAX_SAMPLE_RATE
        } else {
            sample_rate
        };
        let mut rv = Reverb {
            reverb_type,
            dry_wet: 0,
            early_gain: 0,
            tail_gain: 0,
            pre_delay_ms: 0,
            sample_rate: rate,
            ir: Vec::new(),
            ir_hist: zeroed(1),
            ir_pos: 0,
            predelay_buf: zeroed(1),
            predelay_pos: 0,
            combs: Vec::new(),
            allpasses: Vec::new(),
        };
        rv.configure_by_type(reverb_type);
        rv.rebuild_predelay();
        rv
    }

    /// Set the preset's mix, gains and pre-delay, and rebuild the comb
    /// and diffuser delay lines at the preset's lengths.
    fn configure_by_type(&mut self, rtype: ReverbType)
        requires
            1 <= old(self).sample_rate <= MAX_SAMPLE_RATE,
        ensures
            *final(self) == (Reverb {
                dry_wet: spec_preset_dry_wet(rtype) as i64,
                early_gain: spec_preset_early_gain(rtype) as i64,
                tail_gain: spec_preset_tail_gain(rtype) as i64,
                pre_delay_ms: spec_preset_pre_delay_ms(rtype) as i64,
                combs: final(self).combs,
                allpasses: final(self).allpasses,
                ..*old(self)
            }),
            final(self).combs@.len() == 4,
            forall|i: int|
                0 <= i < 4 ==> {
                    let c = #[trigger] final(self).combs@[i];
                    c.wf() && c.idx == 0 && c.lowpass_state == 0 && c.feedback
                        == spec_preset_feedback(rtype) && c.damping == spec_preset_damping(rtype)
                        && c.buf@.len() == spec_delay_samples(
                        spec_comb_tenths(rtype, i),
                        old(self).sample_rate as int,
                    ) && (forall|j: int| 0 <= j < c.buf@.len() ==> #[trigger] c.buf@[j] == 0)
                },
            final(self).allpasses@.len() == 2,
            forall|i: int|
                0 <= i < 2 ==> {
                    let a = #[trigger] final(self).allpasses@[i];
                    a.wf() && a.idx == 0 && a.feedback == 700_000 && a.buf@.len()
                        == spec_delay_samples(spec_ap_tenths(rtype, i), old(self).sample_rate as int)
                        && (forall|j: int| 0 <= j < a.buf@.len() ==> #[trigger] a.buf@[j] == 0)
                },
    {
        let (fb, damp): (i64, i64) = match rtype {
            ReverbType::Room => (720_000, 250_000),
            ReverbType::Plate => (780_000, 350_000),
            ReverbType::Spring => (700_000, 450_000),
            ReverbType::Hall => (800_000, 300_000),
            ReverbType::Shimmer => (820_000, 250_000),
        };
        let (c0, c1, c2, c3): (i64, i64, i64, i64) = match rtype {
            ReverbType::Room => (297, 371, 411, 437),
            ReverbType::Plate => (310, 360, 400, 440),
            ReverbType::Spring => (250, 310, 340, 380),
            ReverbType::Hall => (297, 371, 411, 437),
            ReverbType::Shimmer => (297, 371, 411, 437),
        };
        let (a0, a1): (i64, i64) = match rtype {
            ReverbType::Room => (50, 17),
            ReverbType::Plate => (63, 21),
            ReverbType::Spring => (71, 23),
            ReverbType::Hall => (80, 30),
            ReverbType::Shimmer => (80, 30),
        };
        self.dry_wet = match rtype {
            ReverbType::Room => 200_000,
            ReverbType::Plate => 250_000,
            ReverbType::Spring => 220_000,
            ReverbType::Hall => 300_000,
            ReverbType::Shimmer => 350_000,
        };
        self.early_gain = match rtype {
            ReverbType::Room => 800_000,
            ReverbType::Plate => 900_000,
            ReverbType::Spring => 850_000,
            ReverbType::Hall => 900_000,
            ReverbType::Shimmer => 900_000,
        };
        self.tail_gain = match rtype {
            ReverbType::Room => 800_000,
            ReverbType::Plate => 950_000,
            ReverbType::Spring => 900_000,
            ReverbType::Hall => 950_000,
            ReverbType::Shimmer => 1_000_000,
        };
        self.pre_delay_ms = match rtype {
            ReverbType::Room => 8,
            ReverbType::Plate => 10,
            ReverbType::Spring => 12,
            ReverbType::Hall => 20,
            ReverbType::Shimmer => 25,
        };
        let rate = self.sample_rate;
        let mut combs: Vec<DampedComb> = Vec::new();
        combs.push(DampedComb::new(delay_samples(c0, rate), fb, damp));
        combs.push(DampedComb::new(delay_samples(c1, rate), fb, damp));
        combs.push(DampedComb::new(delay_samples(c2, rate), fb, damp));
        combs.push(DampedComb::new(delay_samples(c3, rate), fb, damp));
        self.combs = combs;
        let mut allpasses: Vec<Allpass> = Vec::new();
        allpasses.push(Allpass::new(delay_samples(a0, rate), 700_000));
        allpasses.push(Allpass::new(delay_samples(a1, rate), 700_000));
        self.allpasses = allpasses;
    }

    /// Rebuild the pre-delay line at the current pre-delay length.
    fn rebuild_predelay(&mut self)
        requires
            1 <= old(self).sample_rate <= MAX_SAMPLE_RATE,
            0 <= old(self).pre_delay_ms <= MAX_PRE_DELAY_MS,
        ensures
            *final(self) == (Reverb {
                predelay_buf: final(self).predelay_buf,
                predelay_pos: 0,
                ..*old(self)
            }),
            final(self).predelay_buf@.len() == spec_predelay_samples(
                old(self).pre_delay_ms as int,
                old(self).sample_rate as int,
            ),
            1 <= final(self).predelay_buf@.len() <= 1_000_001,
            forall|i: int|
                0 <= i < final(self).predelay_buf@.len()
                    ==> #[trigger] final(self).predelay_buf@[i] == 0,
    {
        proof {
            assert(0 <= self.pre_delay_ms * self.sample_rate <= 1_000_000_000)
                by (nonlinear_arith)
                requires
                    0 <= self.pre_delay_ms <= MAX_PRE_DELAY_MS,
                    1 <= self.sample_rate <= MAX_SAMPLE_RATE,
            ;
        }
        let n = (self.pre_delay_ms * (self.sample_rate as i64) + 500) / 1000;
        let len: usize = if n < 1 {
            1
        } else {
            n as usize
        };
        self.predelay_buf = zeroed(len);
        self.predelay_pos = 0;
    }

    /// Load (or replace) the impulse response for the early reflections.
    /// Coefficients are clamped to one amplitude unit; anything beyond
    /// `MAX_IR_LEN` samples is dropped. The history is cleared.
    pub fn set_ir(&mut self, ir: Vec<i64>)
        requires
            old(self).wf(),
        ensures
            final(self).wf(),
            final(self).ir@.len() == (if ir@.len() <= MAX_IR_LEN {
                ir@.len() as int
            } else {
                MAX_IR_LEN as int
            }),
            forall|i: int|
                0 <= i < final(self).ir@.len() ==> #[trigger] final(self).ir@[i] as int
                    == spec_clamp(ir@[i] as int, -FP_ONE as int, FP_ONE as int),
            final(self).ir_pos == 0,
            forall|i: int|
                0 <= i < final(self).ir_hist@.len() ==> #[trigger] final(self).ir_hist@[i] == 0,
            *final(self) == (Reverb {
                ir: final(self).ir,
                ir_hist: final(self).ir_hist,
                ir_pos: 0,
                ..*old(self)
            }),
    {
        let n = if ir.len() <= MAX_IR_LEN {
            ir.len()
        } else {
            MAX_IR_LEN
        };
        let mut clamped: Vec<i64> = Vec::new();
        let mut k: usize = 0;
        while k < n
            invariant
                k <= n,
                n <= ir@.len(),
                clamped@.len() == k,
                forall|i: int|
                    0 <= i < k ==> #[trigger] clamped@[i] as int == spec_clamp(
                        ir@[i] as int,
                        -FP_ONE as int,
                        FP_ONE as int,
                    ),
            decreases n - k,
        {
            clamped.push(crate::fixed::clamp_i64(ir[k], -FP_ONE, FP_ONE));
            k = k + 1;
        }
        let hist_len = if n == 0 {
            1
        } else {
            n
        };
        self.ir = clamped;
        self.ir_hist = zeroed(hist_len);
        self.ir_pos = 0;
    }

    /// One sample through the reverb: pre-delay, early reflections, the
    /// comb/all-pass tail, and the dry/wet mix.
    pub fn process(&mut self, input: i64) -> (r: i64)
        requires
            old(self).wf(),
            -SAMPLE_LIMIT <= input <= SAMPLE_LIMIT,
        ensures
            final(self).wf(),
            r == spec_reverb_out(*old(self), input as int),
            -SAMPLE_LIMIT <= r <= SAMPLE_LIMIT,
            final(self).reverb_type == old(self).reverb_type,
            final(self).dry_wet == old(self).dry_wet,
            final(self).early_gain == old(self).early_gain,
            final(self).tail_gain == old(self).tail_gain,
            final(self).pre_delay_ms == old(self).pre_delay_ms,
            final(self).sample_rate == old(self).sample_rate,
            final(self).ir@ == old(self).ir@,
            final(self).predelay_buf@ == old(self).predelay_buf@.update(
                old(self).predelay_pos as int,
                input,
            ),
            old(self).ir@.len() == 0 ==> final(self).ir_hist@ == old(self).ir_hist@
                && final(self).ir_pos == old(self).ir_pos,
            old(self).ir@.len() > 0 ==> final(self).ir_hist@ == old(self).ir_hist@.update(
                old(self).ir_pos as int,
                spec_predelay_out(*old(self)) as i64,
            ),
            final(self).combs@.len() == old(self).combs@.len(),
            forall|i: int|
                0 <= i < old(self).combs@.len() ==> comb_stepped(
                    old(self).combs@[i],
                    #[trigger] final(self).combs@[i],
                    spec_predelay_out(*old(self)),
                ),
            final(self).allpasses@.len() == old(self).allpasses@.len(),
            forall|i: int|
                0 <= i < old(self).allpasses@.len() ==> allpass_stepped(
                    old(self).allpasses@[i],
                    #[trigger] final(self).allpasses@[i],
                    spec_allpass_chain(old(self).allpasses@, spec_tail_pre(*old(self)), i as nat),
                ),
    {
        let delayed = delay_line_step(&mut self.predelay_buf, &mut self.predelay_pos, input);
        let early_raw: i64 = if self.ir.len() == 0 {
            0
        } else {
            convolve_step(&self.ir, &mut self.ir_hist, &mut self.ir_pos, delayed)
        };
        proof {
            assert(-2_000_000_000_000_000 <= early_raw as int * self.early_gain as int
                <= 2_000_000_000_000_000) by (nonlinear_arith)
                requires
                    -SAMPLE_LIMIT <= early_raw <= SAMPLE_LIMIT,
                    0 <= self.early_gain <= 2 * FP_ONE,
                    SAMPLE_LIMIT == 1_000_000_000,
                    FP_ONE == 1_000_000,
            ;
        }
        let early = crate::fixed::saturate(
            crate::fixed::scale_signed(early_raw, self.early_gain, FP_ONE),
        );
        let pre = comb_mix(&mut self.combs, delayed);
        let diffused = allpass_series(&mut self.allpasses, pre);
        proof {
            assert(-2_000_000_000_000_000 <= diffused as int * self.tail_gain as int
                <= 2_000_000_000_000_000) by (nonlinear_arith)
                requires
                    -SAMPLE_LIMIT <= diffused <= SAMPLE_LIMIT,
                    0 <= self.tail_gain <= 2 * FP_ONE,
                    SAMPLE_LIMIT == 1_000_000_000,
                    FP_ONE == 1_000_000,
            ;
        }
        let tail = crate::fixed::saturate(
            crate::fixed::scale_signed(diffused, self.tail_gain, FP_ONE),
        );
        let wet = crate::fixed::saturate(early + tail);
        proof {
            lemma_mix_bound(
                (FP_ONE - self.dry_wet) as int,
                input as int,
                self.dry_wet as int,
                wet as int,
            );
            assert(-1_000_000_000_000_000 <= (FP_ONE - self.dry_wet) * input
                <= 1_000_000_000_000_000) by (nonlinear_arith)
                requires
                    0 <= FP_ONE - self.dry_wet <= FP_ONE,
                    -SAMPLE_LIMIT <= input <= SAMPLE_LIMIT,
                    FP_ONE == 1_000_000,
                    SAMPLE_LIMIT == 1_000_000_000,
            ;
            assert(-1_000_000_000_000_000 <= self.dry_wet * wet <= 1_000_000_000_000_000)
                by (nonlinear_arith)
                requires
                    0 <= self.dry_wet <= FP_ONE,
                    -SAMPLE_LIMIT <= wet <= SAMPLE_LIMIT,
                    FP_ONE == 1_000_000,
                    SAMPLE_LIMIT == 1_000_000_000,
            ;
        }
        let acc: i128 = ((FP_ONE - self.dry_wet) as i128) * (input as i128) + (
        self.dry_wet as i128) * (wet as i128);
        let quot: i128 = if acc >= 0 {
            acc / (FP_ONE as i128)
        } else {
            -((-acc) / (FP_ONE as i128))
        };
        if quot > SAMPLE_LIMIT as i128 {
            SAMPLE_LIMIT
        } else if quot < -SAMPLE_LIMIT as i128 {
            -SAMPLE_LIMIT
        } else {
            quot as i64
        }
    }

    /// Change the preset: reconfigure and rebuild every delay line.
    pub fn set_type(&mut self, rtype: ReverbType)
        requires
            old(self).wf(),
        ensures
            final(self).wf(),
            preset_configured(*final(self), rtype),
            final(self).sample_rate == old(self).sample_rate,
            final(self).ir@ == old(self).ir@,
            final(self).ir_hist@ == old(self).ir_hist@,
            final(self).ir_pos == old(self).ir_pos,
    {
        self.reverb_type = rtype;
        self.configure_by_type(rtype);
        self.rebuild_predelay();
    }

    /// Set the dry/wet mix, clamped into `[0, FP_ONE]`.
    pub fn set_dry_wet(&mut self, v: i64)
        ensures
            *final(self) == (Reverb {
                dry_wet: spec_clamp(v as int, 0, FP_ONE as int) as i64,
                ..*old(self)
            }),
    {
        self.dry_wet = crate::fixed::clamp_i64(v, 0, FP_ONE);
    }

    /// Set the pre-delay (clamped) and rebuild its delay line.
    pub fn set_pre_delay_ms(&mut self, ms: i64)
        requires
            old(self).wf(),
        ensures
            final(self).wf(),
            final(self).pre_delay_ms as int == spec_clamp(ms as int, 0, MAX_PRE_DELAY_MS as int),
            final(self).predelay_buf@.len() == spec_predelay_samples(
                final(self).pre_delay_ms as int,
                old(self).sample_rate as int,
            ),
    {
        self.pre_delay_ms = crate::fixed::clamp_i64(ms, 0, MAX_PRE_DELAY_MS);
        self.rebuild_predelay();
    }

    /// Set every comb's damping, clamped into `[0, FP_ONE]`.
    pub fn set_tail_damping(&mut self, d: i64)
        requires
            old(self).wf(),
        ensures
            final(self).wf(),
            final(self).combs@.len() == old(self).combs@.len(),
            forall|i: int|
                0 <= i < final(self).combs@.len() ==> {
                    let c0 = old(self).combs@[i];
                    let c1 = #[trigger] final(self).combs@[i];
                    c1.buf@ == c0.buf@ && c1.idx == c0.idx && c1.feedback == c0.feedback
                        && c1.lowpass_state == c0.lowpass_state && c1.damping as int == spec_clamp(
                        d as int,
                        0,
                        FP_ONE as int,
                    )
                },
            *final(self) == (Reverb { combs: final(self).combs, ..*old(self) }),
    {
        let ghost orig = self.combs@;
        let v = crate::fixed::clamp_i64(d, 0, FP_ONE);
        let n = self.combs.len();
        let mut i: usize = 0;
        while i < n
            invariant
                n == self.combs@.len(),
                n == orig.len(),
                i <= n,
                0 <= v <= FP_ONE,
                v as int == spec_clamp(d as int, 0, FP_ONE as int),
                *self == (Reverb { combs: self.combs, ..*old(self) }),
                forall|k: int| i <= k < n ==> self.combs@[k] == orig[k],
                forall|k: int|
                    0 <= k < i ==> {
                        let c0 = orig[k];
                        let c1 = #[trigger] self.combs@[k];
                        c1.buf@ == c0.buf@ && c1.idx == c0.idx && c1.feedback == c0.feedback
                            && c1.lowpass_state == c0.lowpass_state && c1.damping == v
                    },
                forall|k: int| 0 <= k < n ==> (#[trigger] self.combs@[k]).wf(),
            decreases n - i,
        {
            let c = &mut self.combs[i];
            c.damping = v;
            i = i + 1;
        }
    }

    pub fn reverb_type(&self) -> (r: ReverbType)
        ensures
            r == self.reverb_type,
    {
        self.reverb_type
    }

    /// The stage's display name.
    pub fn name(&self) -> &'static str {
        "Reverb"
    }
}

/// A zeroed delay line of the given length.
fn zeroed(len: usize) -> (r: Vec<i64>)
    ensures
        r@.len() == len,
        forall|i: int| 0 <= i < len ==> #[trigger] r@[i] == 0,
{
    let mut buf: Vec<i64> = Vec::new();
    let mut k: usize = 0;
    while k < len
        invariant
            k <= len,
            buf@.len() == k,
            forall|i: int| 0 <= i < k ==> #[trigger] buf@[i] == 0,
        decreases len - k,
    {
        buf.push(0);
        k = k + 1;
    }
    buf
}

/// Law: with the mix fully dry, the reverb returns the input unchanged.
pub proof fn lemma_dry_mix_passes_input(rv: Reverb, x: int)
    requires
        rv.wf(),
        rv.dry_wet == 0,
        -SAMPLE_LIMIT <= x <= SAMPLE_LIMIT,
    ensures
        spec_reverb_out(rv, x) == x,
{
    let wet = spec_wet(rv, spec_predelay_out(rv));
    assert((FP_ONE - 0) * x + 0 * wet == FP_ONE * x) by (nonlinear_arith);
    assert(tdiv(FP_ONE * x, FP_ONE as int) == x) by (nonlinear_arith)
        requires
            FP_ONE == 1_000_000,
    ;
}

/// Law: with the mix fully wet and no impulse response loaded, the
/// output is exactly the comb/all-pass tail — it does not depend on the
/// incoming sample at all.
pub proof fn lemma_wet_mix_is_tail(rv: Reverb, x: int)
    requires
        rv.wf(),
        rv.dry_wet == FP_ONE,
        rv.ir@.len() == 0,
        -SAMPLE_LIMIT <= x <= SAMPLE_LIMIT,
    ensures
        spec_reverb_out(rv, x) == spec_tail_out(rv),
{
    let d = spec_predelay_out(rv);
    assert(spec_early_raw(rv, d) == 0);
    assert(tdiv(0 * rv.early_gain, FP_ONE as int) == 0) by (nonlinear_arith);
    let tail = spec_tail_out(rv);
    assert(-SAMPLE_LIMIT <= tail <= SAMPLE_LIMIT);
    assert(spec_wet(rv, d) == tail);
    assert((FP_ONE - FP_ONE) * x + FP_ONE * tail == FP_ONE * tail) by (nonlinear_arith);
    assert(tdiv(FP_ONE * tail, FP_ONE as int) == tail) by (nonlinear_arith)
        requires
            FP_ONE == 1_000_000,
    ;
}

/// The mix of `(1 - damping) y + damping s` stays within the larger of
/// the two magnitudes and its product fits an `i128`.
proof fn lemma_mix_bound(wd: int, y: int, d: int, s: int)
    by (nonlinear_arith)
    requires
        0 <= d <= FP_ONE,
        wd == FP_ONE - d,
        -SAMPLE_LIMIT <= y <= SAMPLE_LIMIT,
        -SAMPLE_LIMIT <= s <= SAMPLE_LIMIT,
    ensures
        -FP_ONE * SAMPLE_LIMIT <= wd * y + d * s <= FP_ONE * SAMPLE_LIMIT,
        -SAMPLE_LIMIT <= tdiv(wd * y + d * s, FP_ONE as int) <= SAMPLE_LIMIT,
{
}

} // verus!
