//! The modular signal chain: one oscillator and an ordered list of
//! processing stages, folded over every sample in chain order.

use vstd::prelude::*;

use crate::adsr::{spec_advance, spec_note_off, spec_note_on, ADSR};
use crate::compressor::{spec_compressor_out, spec_envelope_next, spec_gain_reduction, spec_rms_next, spec_square_micro, Compressor};
use crate::db::spec_linear_to_db;
use crate::fixed::{mul_div, sat, scale, spec_clamp, tdiv, FP_ONE, LEVEL_ONE, SAMPLE_LIMIT};
use crate::filter::{spec_biquad_raw, spec_filter_step, LowPassFilter};
use crate::gain::{spec_gain_out, Gain};
use crate::lfo::{spec_lfo_out, spec_lfo_step, LFO};
use crate::noise::Noise;
use crate::oscillators::{spec_osc_sample, Oscillator};
use crate::reverb::{
    allpass_stepped, comb_stepped, spec_allpass_chain, spec_predelay_out, spec_reverb_out,
    spec_tail_pre, Reverb,
};

verus! {

/// The closed set of processing stages a chain can hold.
#[derive(Clone, Debug)]
pub enum Module {
    Gain(Gain),
    Noise(Noise),
    Lfo(LFO),
    Filter(LowPassFilter),
    Compressor(Compressor),
    Reverb(Reverb),
    Adsr(ADSR),
}

/// The tag that names a stage's kind, for cheap, type-checked lookup.
#[derive(Clone, Copy, Debug, PartialEq, Eq, Structural)]
pub enum ModuleKind {
    Gain,
    Noise,
    Lfo,
    Filter,
    Compressor,
    Reverb,
    Adsr,
}

/// The kind of a stage.
pub open spec fn kind_of(m: Module) -> ModuleKind {
    match m {
        Module::Gain(_) => ModuleKind::Gain,
        Module::Noise(_) => ModuleKind::Noise,
        Module::Lfo(_) => ModuleKind::Lfo,
        Module::Filter(_) => ModuleKind::Filter,
        Module::Compressor(_) => ModuleKind::Compressor,
        Module::Reverb(_) => ModuleKind::Reverb,
        Module::Adsr(_) => ModuleKind::Adsr,
    }
}

/// How one stage's state and output relate to its previous state on one
/// input sample: each arm restates that stage's own contract.
pub open spec fn module_stepped(m0: Module, m1: Module, x: int, r: int) -> bool {
    match (m0, m1) {
        (Module::Gain(g0), Module::Gain(g1)) => g1 == g0 && r == spec_gain_out(g0, x),
        (Module::Noise(n0), Module::Noise(n1)) => n1 == n0 && spec_clamp(
            x - n0.amount,
            -FP_ONE as int,
            FP_ONE as int,
        ) <= r <= spec_clamp(x + n0.amount, -FP_ONE as int, FP_ONE as int),
        (Module::Lfo(l0), Module::Lfo(l1)) => l1 == spec_lfo_step(l0) && r == sat(
            tdiv(x * (FP_ONE + spec_lfo_out(l0)), FP_ONE as int),
        ),
        (Module::Filter(f0), Module::Filter(f1)) => f1 == spec_filter_step(f0, x) && r == sat(
            spec_biquad_raw(f0, x),
        ),
        (Module::Compressor(c0), Module::Compressor(c1)) => r == spec_compressor_out(c0, x)
            && c1.envelope_db == spec_envelope_next(
            c0,
            spec_gain_reduction(c0, spec_linear_to_db(spec_rms_next(c0, x))),
        ) && c1.rms_buffer@ == c0.rms_buffer@.update(
            c0.rms_index as int,
            spec_square_micro(x) as i64,
        ) && c1 == (Compressor {
            rms_buffer: c1.rms_buffer,
            rms_sum: c1.rms_sum,
            rms_index: c1.rms_index,
            envelope_db: c1.envelope_db,
            ..c0
        }),
        (Module::Reverb(v0), Module::Reverb(v1)) => r == spec_reverb_out(v0, x) && v1 == (Reverb {
            ir: v1.ir,
            ir_hist: v1.ir_hist,
            ir_pos: v1.ir_pos,
            predelay_buf: v1.predelay_buf,
            predelay_pos: v1.predelay_pos,
            combs: v1.combs,
            allpasses: v1.allpasses,
            ..v0
        }) && v1.ir@ == v0.ir@ && v1.predelay_buf@ == v0.predelay_buf@.update(
            v0.predelay_pos as int,
            x as i64,
        ) && v1.combs@.len() == v0.combs@.len() && (forall|i: int|
            0 <= i < v0.combs@.len() ==> comb_stepped(
                v0.combs@[i],
                #[trigger] v1.combs@[i],
                spec_predelay_out(v0),
            )) && v1.allpasses@.len() == v0.allpasses@.len() && (forall|i: int|
            0 <= i < v0.allpasses@.len() ==> allpass_stepped(
                v0.allpasses@[i],
                #[trigger] v1.allpasses@[i],
                spec_allpass_chain(v0.allpasses@, spec_tail_pre(v0), i as nat),
            )),
        (Module::Adsr(a0), Module::Adsr(a1)) => a1 == spec_advance(a0) && r == mul_div(
            x,
            a1.level as int,
            LEVEL_ONE as int,
        ),
        _ => false,
    }
}

impl Module {
    /// The stage's invariant, by kind.
    pub open spec fn wf(&self) -> bool {
        match *self {
            Module::Gain(g) => g.wf(),
            Module::Noise(n) => n.wf(),
            Module::Lfo(l) => l.wf(),
            Module::Filter(f) => f.wf(),
            Module::Compressor(c) => c.wf(),
            Module::Reverb(v) => v.wf(),
            Module::Adsr(a) => a.inv(),
        }
    }

    /// The stage's kind tag.
    pub fn kind(&self) -> (r: ModuleKind)
        ensures
            r == kind_of(*self),
    {
        match self {
            Module::Gain(_) => ModuleKind::Gain,
            Module::Noise(_) => ModuleKind::Noise,
            Module::Lfo(_) => ModuleKind::Lfo,
            Module::Filter(_) => ModuleKind::Filter,
            Module::Compressor(_) => ModuleKind::Compressor,
            Module::Reverb(_) => ModuleKind::Reverb,
            Module::Adsr(_) => ModuleKind::Adsr,
        }
    }

    /// One sample through the stage, per `module_stepped`.
    pub fn process(&mut self, input: i64) -> (r: i64)
        requires
            old(self).wf(),
            -SAMPLE_LIMIT <= input <= SAMPLE_LIMIT,
        ensures
            module_stepped(*old(self), *final(self), input as int, r as int),
            final(self).wf(),
            -SAMPLE_LIMIT <= r <= SAMPLE_LIMIT,
    {
        match self {
            Module::Gain(g) => g.process(input),
            Module::Noise(n) => n.process(input),
            Module::Lfo(l) => l.process(input),
            Module::Filter(f) => f.process(input),
            Module::Compressor(c) => c.process(input),
            Module::Reverb(v) => v.process(input),
            Module::Adsr(a) => a.process(input),
        }
    }

    /// The stage's display name.
    pub fn name(&self) -> &'static str {
        match self {
            Module::Gain(g) => g.name(),
            Module::Noise(n) => n.name(),
            Module::Lfo(l) => l.name(),
            Module::Filter(f) => f.name(),
            Module::Compressor(c) => c.name(),
            Module::Reverb(v) => v.name(),
            Module::Adsr(_) => "ADSR",
        }
    }
}

/// How a whole chain's states and output relate to the input sample:
/// some run of intermediate samples connects every stage's step.
pub open spec fn chain_stepped(ms0: Seq<Module>, ms1: Seq<Module>, x0: int, r: int) -> bool {
    exists|vals: Seq<int>|
        {
            &&& vals.len() == ms0.len() + 1
            &&& vals[0] == x0
            &&& vals.last() == r
            &&& ms1.len() == ms0.len()
            &&& forall|i: int|
                0 <= i < ms0.len() ==> module_stepped(
                    ms0[i],
                    ms1[i],
                    #[trigger] vals[i],
                    vals[i + 1],
                )
        }
}

/// One oscillator plus an ordered chain of stages; the order is the
/// literal signal path.
#[derive(Clone, Debug)]
pub struct ModularSynth {
    pub oscillator: Oscillator,
    pub modules: Vec<Module>,
    /// Oscillator output level, within `[0, FP_ONE]`.
    pub amplitude: i64,
}

impl ModularSynth {
    pub open spec fn wf(&self) -> bool {
        &&& self.oscillator.wf()
        &&& 0 <= self.amplitude <= FP_ONE
        &&& self.modules@.len() <= 64
        &&& forall|i: int| 0 <= i < self.modules@.len() ==> (#[trigger] self.modules@[i]).wf()
    }

    /// A chain with no stages and full oscillator level.
    pub fn new(oscillator: Oscillator) -> (r: Self)
        requires
            oscillator.wf(),
        ensures
            r.wf(),
            r.oscillator == oscillator,
            r.modules@.len() == 0,
            r.amplitude == FP_ONE,
    {
        ModularSynth { oscillator, modules: Vec::new(), amplitude: FP_ONE }
    }

    /// Append a stage to the end of the chain; chains are capped at 64
    /// stages and a full chain is left unchanged.
    pub fn add_module(&mut self, module: Module)
        requires
            old(self).wf(),
            module.wf(),
        ensures
            final(self).wf(),
            old(self).modules@.len() < 64 ==> final(self).modules@ == old(self).modules@.push(
                module,
            ),
            old(self).modules@.len() >= 64 ==> *final(self) == *old(self),
            final(self).oscillator == old(self).oscillator,
            final(self).amplitude == old(self).amplitude,
    {
        if self.modules.len() < 64 {
            self.modules.push(module);
        }
    }

    /// One sample: evaluate the oscillator at `phase`, scale it by the
    /// chain's amplitude, and fold it through every stage in order.
    pub fn generate_sample(&mut self, phase: i64) -> (r: i64)
        requires
            old(self).wf(),
            0 <= phase < crate::fixed::PHASE_ONE,
        ensures
            final(self).wf(),
            final(self).oscillator == old(self).oscillator,
            final(self).amplitude == old(self).amplitude,
            chain_stepped(
                old(self).modules@,
                final(self).modules@,
                mul_div(
                    spec_osc_sample(old(self).oscillator, phase as int),
                    old(self).amplitude as int,
                    FP_ONE as int,
                ),
                r as int,
            ),
            -SAMPLE_LIMIT <= r <= SAMPLE_LIMIT,
    {
        let raw = self.oscillator.sample(phase);
        proof {
            crate::fixed::lemma_mul_div_bound(
                raw as int,
                self.amplitude as int,
                FP_ONE as int,
                FP_ONE as int,
            );
        }
        let mut sample = scale(raw, self.amplitude, FP_ONE);
        let ghost x0 = sample as int;
        let ghost orig = self.modules@;
        let ghost mut vals: Seq<int> = seq![sample as int];
        let n = self.modules.len();
        let mut i: usize = 0;
        while i < n
            invariant
                n == self.modules@.len(),
                n == orig.len(),
                i <= n,
                vals.len() == i + 1,
                vals[0] == x0,
                vals.last() == sample as int,
                -SAMPLE_LIMIT <= sample <= SAMPLE_LIMIT,
                self.oscillator == old(self).oscillator,
                self.amplitude == old(self).amplitude,
                forall|k: int| i <= k < n ==> self.modules@[k] == orig[k],
                forall|k: int|
                    0 <= k < i ==> module_stepped(
                        orig[k],
                        self.modules@[k],
                        #[trigger] vals[k],
                        vals[k + 1],
                    ),
                forall|k: int| 0 <= k < n ==> (#[trigger] self.modules@[k]).wf(),
            decreases n - i,
        {
            let out = self.modules[i].process(sample);
            proof {
                vals = vals.push(out as int);
            }
            sample = out;
            i = i + 1;
        }
        proof {
            assert(chain_stepped(orig, self.modules@, x0, sample as int)) by {
                assert(vals.len() == orig.len() + 1 && vals[0] == x0 && vals.last() == sample as int
                    && self.modules@.len() == orig.len() && forall|k: int|
                    0 <= k < orig.len() ==> module_stepped(
                        orig[k],
                        self.modules@[k],
                        #[trigger] vals[k],
                        vals[k + 1],
                    ));
            }
        }
        sample
    }

    /// Start every envelope stage in the chain from its current level.
    pub fn note_on(&mut self)
        requires
            old(self).wf(),
        ensures
            final(self).wf(),
            final(self).oscillator == old(self).oscillator,
            final(self).amplitude == old(self).amplitude,
            final(self).modules@.len() == old(self).modules@.len(),
            forall|i: int|
                0 <= i < old(self).modules@.len() ==> #[trigger] final(self).modules@[i] == (
                match old(self).modules@[i] {
                    Module::Adsr(a) => Module::Adsr(spec_note_on(a)),
                    m => m,
                }),
    {
        let n = self.modules.len();
        let mut i: usize = 0;
        while i < n
            invariant
                n == self.modules@.len(),
                n == old(self).modules@.len(),
                i <= n,
                self.oscillator == old(self).oscillator,
                self.amplitude == old(self).amplitude,
                forall|k: int| i <= k < n ==> self.modules@[k] == old(self).modules@[k],
                forall|k: int|
                    0 <= k < i ==> #[trigger] self.modules@[k] == (match old(self).modules@[k] {
                        Module::Adsr(a) => Module::Adsr(spec_note_on(a)),
                        m => m,
                    }),
                forall|k: int| 0 <= k < n ==> (#[trigger] self.modules@[k]).wf(),
            decreases n - i,
        {
            let m = &mut self.modules[i];
            match m {
                Module::Adsr(a) => {
                    a.note_on();
                },
                _ => {},
            }
            i = i + 1;
        }
    }

    /// Release every envelope stage in the chain.
    pub fn note_off(&mut self)
        requires
            old(self).wf(),
        ensures
            final(self).wf(),
            final(self).oscillator == old(self).oscillator,
            final(self).amplitude == old(self).amplitude,
            final(self).modules@.len() == old(self).modules@.len(),
            forall|i: int|
                0 <= i < old(self).modules@.len() ==> #[trigger] final(self).modules@[i] == (
                match old(self).modules@[i] {
                    Module::Adsr(a) => Module::Adsr(spec_note_off(a)),
                    m => m,
                }),
    {
        let n = self.modules.len();
        let mut i: usize = 0;
        while i < n
            invariant
                n == self.modules@.len(),
                n == old(self).modules@.len(),
                i <= n,
                self.oscillator == old(self).oscillator,
                self.amplitude == old(self).amplitude,
                forall|k: int| i <= k < n ==> self.modules@[k] == old(self).modules@[k],
                forall|k: int|
                    0 <= k < i ==> #[trigger] self.modules@[k] == (match old(self).modules@[k] {
                        Module::Adsr(a) => Module::Adsr(spec_note_off(a)),
                        m => m,
                    }),
                forall|k: int| 0 <= k < n ==> (#[trigger] self.modules@[k]).wf(),
            decreases n - i,
        {
            let m = &mut self.modules[i];
            match m {
                Module::Adsr(a) => {
                    a.note_off();
                },
                _ => {},
            }
            i = i + 1;
        }
    }
}


/// The index of the first stage of kind `k` at or after `i`, or `-1`.
pub open spec fn first_idx(ms: Seq<Module>, k: ModuleKind, i: int) -> int
    decreases ms.len() - i when 0 <= i <= ms.len()
{
    if i >= ms.len() {
        -1
    } else if kind_of(ms[i]) == k {
        i
    } else {
        first_idx(ms, k, i + 1)
    }
}

/// The chain with every stage of kind `k` removed, order kept.
pub open spec fn remove_kind_seq(ms: Seq<Module>, k: ModuleKind) -> Seq<Module>
    decreases ms.len(),
{
    if ms.len() == 0 {
        Seq::empty()
    } else {
        let rest = remove_kind_seq(ms.drop_last(), k);
        if kind_of(ms.last()) == k {
            rest
        } else {
            rest.push(ms.last())
        }
    }
}

/// Removing one stage of kind `k` does not change the kind-filtered chain.
proof fn lemma_remove_kind_skip(ms: Seq<Module>, k: ModuleKind, idx: int)
    requires
        0 <= idx < ms.len(),
        kind_of(ms[idx]) == k,
    ensures
        remove_kind_seq(ms.remove(idx), k) == remove_kind_seq(ms, k),
    decreases ms.len(),
{
    if idx == ms.len() - 1 {
        assert(ms.remove(idx) =~= ms.drop_last());
    } else {
        assert(ms.remove(idx).drop_last() =~= ms.drop_last().remove(idx));
        assert(ms.remove(idx).last() == ms.last());
        lemma_remove_kind_skip(ms.drop_last(), k, idx);
    }
}

/// A chain with no stage of kind `k` is its own kind-filtered chain.
proof fn lemma_remove_kind_identity(ms: Seq<Module>, k: ModuleKind)
    requires
        forall|i: int| 0 <= i < ms.len() ==> kind_of(#[trigger] ms[i]) != k,
    ensures
        remove_kind_seq(ms, k) == ms,
    decreases ms.len(),
{
    if ms.len() > 0 {
        lemma_remove_kind_identity(ms.drop_last(), k);
        assert(remove_kind_seq(ms, k) =~= ms);
    }
}

/// What setting the first gain stage to `v` (clamped) does to a chain.
pub open spec fn gain_set(ms0: Seq<Module>, ms1: Seq<Module>, v: int) -> bool {
    let idx = first_idx(ms0, ModuleKind::Gain, 0);
    if idx == -1 {
        ms1 == ms0
    } else {
        ms1 == ms0.update(
            idx,
            Module::Gain(
                Gain {
                    gain_db: crate::fixed::spec_clamp(
                        v,
                        -crate::db::MAX_DB_MILLI as int,
                        crate::db::MAX_DB_MILLI as int,
                    ) as i64,
                },
            ),
        )
    }
}

/// What setting the first noise stage to `v` (clamped) does to a chain.
pub open spec fn noise_set(ms0: Seq<Module>, ms1: Seq<Module>, v: int) -> bool {
    let idx = first_idx(ms0, ModuleKind::Noise, 0);
    if idx == -1 {
        ms1 == ms0
    } else {
        ms1 == ms0.update(
            idx,
            Module::Noise(Noise { amount: crate::fixed::spec_clamp(v, 0, FP_ONE as int) as i64 }),
        )
    }
}

impl ModularSynth {
    /// The index of the first stage of kind `k`, if any.
    pub fn first_of_kind(&self, k: ModuleKind) -> (r: Option<usize>)
        ensures
            r is Some ==> first_idx(self.modules@, k, 0) == r.unwrap() && 0 <= r.unwrap()
                < self.modules@.len() && kind_of(self.modules@[r.unwrap() as int]) == k,
            r is None ==> first_idx(self.modules@, k, 0) == -1 && (forall|j: int|
                0 <= j < self.modules@.len() ==> kind_of(#[trigger] self.modules@[j]) != k),
    {
        let n = self.modules.len();
        let mut i: usize = 0;
        while i < n
            invariant
                n == self.modules@.len(),
                i <= n,
                first_idx(self.modules@, k, 0) == first_idx(self.modules@, k, i as int),
            decreases n - i,
        {
            if self.modules[i].kind() == k {
                return Some(i);
            }
            i = i + 1;
        }
        proof {
            lemma_first_idx_none(self.modules@, k, 0);
        }
        None
    }

    /// Whether any stage of kind `k` is in the chain.
    pub fn has_kind(&self, k: ModuleKind) -> (r: bool)
        ensures
            r == (first_idx(self.modules@, k, 0) >= 0),
    {
        let found = self.first_of_kind(k);
        found.is_some()
    }

    /// Remove every stage of kind `k`, keeping the order of the rest.
    pub fn remove_kind(&mut self, k: ModuleKind)
        requires
            old(self).wf(),
        ensures
            final(self).wf(),
            final(self).modules@ == remove_kind_seq(old(self).modules@, k),
            final(self).oscillator == old(self).oscillator,
            final(self).amplitude == old(self).amplitude,
    {
        let ghost orig = self.modules@;
        let mut found = self.first_of_kind(k);
        while found.is_some()
            invariant
                remove_kind_seq(self.modules@, k) == remove_kind_seq(orig, k),
                self.modules@.len() <= orig.len(),
                self.oscillator == old(self).oscillator,
                self.amplitude == old(self).amplitude,
                forall|i: int| 0 <= i < self.modules@.len() ==> (#[trigger] self.modules@[i]).wf(),
                found is Some ==> 0 <= found.unwrap() < self.modules@.len() && kind_of(
                    self.modules@[found.unwrap() as int],
                ) == k,
                found is None ==> forall|i: int|
                    0 <= i < self.modules@.len() ==> kind_of(#[trigger] self.modules@[i]) != k,
            decreases self.modules@.len(),
        {
            let ix = found.unwrap();
            proof {
                lemma_remove_kind_skip(self.modules@, k, ix as int);
            }
            self.modules.remove(ix);
            found = self.first_of_kind(k);
        }
        proof {
            lemma_remove_kind_identity(self.modules@, k);
        }
    }

    /// Set the first gain stage's gain, in milli-dB; without a gain
    /// stage the chain is unchanged.
    pub fn set_gain_db(&mut self, v: i64)
        requires
            old(self).wf(),
        ensures
            final(self).wf(),
            gain_set(old(self).modules@, final(self).modules@, v as int),
            final(self).oscillator == old(self).oscillator,
            final(self).amplitude == old(self).amplitude,
    {
        let found = self.first_of_kind(ModuleKind::Gain);
        if let Some(ix) = found {
            let g = Gain::new(v);
            self.modules.set(ix, Module::Gain(g));
        }
    }

    /// The first gain stage's gain in milli-dB, or `default` without one.
    pub fn gain_db_or(&self, default: i64) -> (r: i64)
        ensures
            ({
                let idx = first_idx(self.modules@, ModuleKind::Gain, 0);
                if idx == -1 {
                    r == default
                } else {
                    self.modules@[idx] matches Module::Gain(g) && r == g.gain_db
                }
            }),
    {
        let found = self.first_of_kind(ModuleKind::Gain);
        if let Some(ix) = found {
            match &self.modules[ix] {
                Module::Gain(g) => g.get_gain(),
                _ => default,
            }
        } else {
            default
        }
    }

    /// Set the first noise stage's amount; without one, no change.
    pub fn set_noise_amount(&mut self, v: i64)
        requires
            old(self).wf(),
        ensures
            final(self).wf(),
            noise_set(old(self).modules@, final(self).modules@, v as int),
            final(self).oscillator == old(self).oscillator,
            final(self).amplitude == old(self).amplitude,
    {
        let found = self.first_of_kind(ModuleKind::Noise);
        if let Some(ix) = found {
            let n = Noise::new(v);
            self.modules.set(ix, Module::Noise(n));
        }
    }

    /// The first noise stage's amount, or `default` without one.
    pub fn noise_amount_or(&self, default: i64) -> (r: i64)
        ensures
            ({
                let idx = first_idx(self.modules@, ModuleKind::Noise, 0);
                if idx == -1 {
                    r == default
                } else {
                    self.modules@[idx] matches Module::Noise(n) && r == n.amount
                }
            }),
    {
        let found = self.first_of_kind(ModuleKind::Noise);
        if let Some(ix) = found {
            match &self.modules[ix] {
                Module::Noise(n) => n.get_amount(),
                _ => default,
            }
        } else {
            default
        }
    }

    /// Set the first filter stage's cutoff (clamped below Nyquist, with
    /// coefficients recomputed at once); without one, no change.
    pub fn set_cutoff(&mut self, v: i64)
        requires
            old(self).wf(),
        ensures
            final(self).wf(),
            ({
                let idx = first_idx(old(self).modules@, ModuleKind::Filter, 0);
                if idx == -1 {
                    final(self).modules@ == old(self).modules@
                } else {
                    old(self).modules@[idx] matches Module::Filter(f0) && final(self).modules@
                        == old(self).modules@.update(
                        idx,
                        Module::Filter(
                            crate::filter::spec_calc_coefficients(
                                LowPassFilter {
                                    cutoff_freq: crate::fixed::spec_clamp(
                                        v as int,
                                        1,
                                        500 * f0.sample_rate as int - 1,
                                    ) as i64,
                                    ..f0
                                },
                            ),
                        ),
                    )
                }
            }),
            final(self).oscillator == old(self).oscillator,
            final(self).amplitude == old(self).amplitude,
    {
        let found = self.first_of_kind(ModuleKind::Filter);
        if let Some(ix) = found {
            let m = &mut self.modules[ix];
            match m {
                Module::Filter(f) => {
                    f.set_cutoff_freq(v);
                },
                _ => {},
            }
        }
    }

    /// Set the first filter stage's resonance (clamped, coefficients
    /// recomputed at once); without one, no change.
    pub fn set_resonance(&mut self, v: i64)
        requires
            old(self).wf(),
        ensures
            final(self).wf(),
            ({
                let idx = first_idx(old(self).modules@, ModuleKind::Filter, 0);
                if idx == -1 {
                    final(self).modules@ == old(self).modules@
                } else {
                    old(self).modules@[idx] matches Module::Filter(f0) && final(self).modules@
                        == old(self).modules@.update(
                        idx,
                        Module::Filter(
                            crate::filter::spec_calc_coefficients(
                                LowPassFilter {
                                    resonance: crate::fixed::spec_clamp(
                                        v as int,
                                        crate::filter::MIN_RESONANCE as int,
                                        crate::filter::MAX_RESONANCE as int,
                                    ) as i64,
                                    ..f0
                                },
                            ),
                        ),
                    )
                }
            }),
            final(self).oscillator == old(self).oscillator,
            final(self).amplitude == old(self).amplitude,
    {
        let found = self.first_of_kind(ModuleKind::Filter);
        if let Some(ix) = found {
            let m = &mut self.modules[ix];
            match m {
                Module::Filter(f) => {
                    f.set_resonance(v);
                },
                _ => {},
            }
        }
    }

    /// The first filter stage's cutoff, or `default` without one.
    pub fn cutoff_or(&self, default: i64) -> (r: i64)
        ensures
            ({
                let idx = first_idx(self.modules@, ModuleKind::Filter, 0);
                if idx == -1 {
                    r == default
                } else {
                    self.modules@[idx] matches Module::Filter(f) && r == f.cutoff_freq
                }
            }),
    {
        let found = self.first_of_kind(ModuleKind::Filter);
        if let Some(ix) = found {
            match &self.modules[ix] {
                Module::Filter(f) => f.get_cutoff_freq(),
                _ => default,
            }
        } else {
            default
        }
    }

    /// The first filter stage's resonance, or `default` without one.
    pub fn resonance_or(&self, default: i64) -> (r: i64)
        ensures
            ({
                let idx = first_idx(self.modules@, ModuleKind::Filter, 0);
                if idx == -1 {
                    r == default
                } else {
                    self.modules@[idx] matches Module::Filter(f) && r == f.resonance
                }
            }),
    {
        let found = self.first_of_kind(ModuleKind::Filter);
        if let Some(ix) = found {
            match &self.modules[ix] {
                Module::Filter(f) => f.get_resonance(),
                _ => default,
            }
        } else {
            default
        }
    }

    /// Set the first LFO stage's rate (clamped); without one, no change.
    pub fn set_lfo_freq(&mut self, v: i64)
        requires
            old(self).wf(),
        ensures
            final(self).wf(),
            ({
                let idx = first_idx(old(self).modules@, ModuleKind::Lfo, 0);
                if idx == -1 {
                    final(self).modules@ == old(self).modules@
                } else {
                    old(self).modules@[idx] matches Module::Lfo(l0) && final(self).modules@ == old(
                        self,
                    ).modules@.update(
                        idx,
                        Module::Lfo(
                            LFO {
                                freq: crate::fixed::spec_clamp(
                                    v as int,
                                    0,
                                    crate::lfo::MAX_LFO_FREQ_MILLIHZ as int,
                                ) as i64,
                                ..l0
                            },
                        ),
                    )
                }
            }),
            final(self).oscillator == old(self).oscillator,
            final(self).amplitude == old(self).amplitude,
    {
        let found = self.first_of_kind(ModuleKind::Lfo);
        if let Some(ix) = found {
            let m = &mut self.modules[ix];
            match m {
                Module::Lfo(l) => {
                    l.set_freq(v);
                },
                _ => {},
            }
        }
    }

    /// Set the first LFO stage's waveform; without one, no change.
    pub fn set_lfo_waveform(&mut self, w: crate::lfo::LfoWaveform)
        requires
            old(self).wf(),
        ensures
            final(self).wf(),
            ({
                let idx = first_idx(old(self).modules@, ModuleKind::Lfo, 0);
                if idx == -1 {
                    final(self).modules@ == old(self).modules@
                } else {
                    old(self).modules@[idx] matches Module::Lfo(l0) && final(self).modules@ == old(
                        self,
                    ).modules@.update(idx, Module::Lfo(LFO { waveform: w, ..l0 }))
                }
            }),
            final(self).oscillator == old(self).oscillator,
            final(self).amplitude == old(self).amplitude,
    {
        let found = self.first_of_kind(ModuleKind::Lfo);
        if let Some(ix) = found {
            let m = &mut self.modules[ix];
            match m {
                Module::Lfo(l) => {
                    l.set_waveform(w);
                },
                _ => {},
            }
        }
    }

    /// The first LFO stage's rate, or `default` without one.
    pub fn lfo_freq_or(&self, default: i64) -> (r: i64)
        ensures
            ({
                let idx = first_idx(self.modules@, ModuleKind::Lfo, 0);
                if idx == -1 {
                    r == default
                } else {
                    self.modules@[idx] matches Module::Lfo(l) && r == l.freq
                }
            }),
    {
        let found = self.first_of_kind(ModuleKind::Lfo);
        if let Some(ix) = found {
            match &self.modules[ix] {
                Module::Lfo(l) => l.get_freq(),
                _ => default,
            }
        } else {
            default
        }
    }

    /// The first LFO stage's waveform, or `default` without one.
    pub fn lfo_waveform_or(&self, default: crate::lfo::LfoWaveform) -> (r: crate::lfo::LfoWaveform)
        ensures
            ({
                let idx = first_idx(self.modules@, ModuleKind::Lfo, 0);
                if idx == -1 {
                    r == default
                } else {
                    self.modules@[idx] matches Module::Lfo(l) && r == l.waveform
                }
            }),
    {
        let found = self.first_of_kind(ModuleKind::Lfo);
        if let Some(ix) = found {
            match &self.modules[ix] {
                Module::Lfo(l) => l.get_waveform(),
                _ => default,
            }
        } else {
            default
        }
    }
}

/// A `-1` from `first_idx` means no stage of that kind at or after `i`.
proof fn lemma_first_idx_none(ms: Seq<Module>, k: ModuleKind, i: int)
    requires
        0 <= i <= ms.len(),
        first_idx(ms, k, i) == -1,
    ensures
        forall|j: int| i <= j < ms.len() ==> kind_of(#[trigger] ms[j]) != k,
    decreases ms.len() - i,
{
    if i < ms.len() {
        lemma_first_idx_none(ms, k, i + 1);
    }
}

/// A non-negative `first_idx` points at a stage of that kind.
proof fn lemma_first_idx_some(ms: Seq<Module>, k: ModuleKind, i: int)
    requires
        0 <= i <= ms.len(),
        first_idx(ms, k, i) >= 0,
    ensures
        i <= first_idx(ms, k, i) < ms.len(),
        kind_of(ms[first_idx(ms, k, i)]) == k,
    decreases ms.len() - i,
{
    if i < ms.len() && kind_of(ms[i]) != k {
        lemma_first_idx_some(ms, k, i + 1);
    }
}

} // verus!
