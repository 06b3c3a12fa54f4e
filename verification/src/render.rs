//! The real-time rendering core: for every output frame, every active
//! voice's oscillator phase and envelope advance, the voices are mixed,
//! normalized and duplicated across channels into an interleaved PCM
//! buffer in `[-FP_ONE, FP_ONE]`. The callers own the locking; this
//! code works on one snapshot of the shared state per block.

use vstd::prelude::*;

use crate::adsr::{spec_advance, spec_advance_n, EnvelopeStage};
use crate::fixed::{
    isqrt, mul_div, scale, scale_signed, spec_clamp, spec_isqrt, tdiv, FP_ONE, LEVEL_ONE,
    MAX_SAMPLE_RATE, PHASE_ONE, SAMPLE_LIMIT,
};
use crate::manager::{chain_of, same_variant, SynthType};
use crate::modular::chain_stepped;
use crate::notes::{note_idx, ActiveNote, NoteManager, MAX_VOICES};
use crate::oscillators::spec_osc_sample;

verus! {

/// A render-side table from voice key (the pitch in milli-Hz) to the
/// voice's current oscillator phase; entries appear when a voice is
/// first rendered and are pruned once its envelope finishes.
#[derive(Clone, Debug)]
pub struct PhaseTable {
    pub entries: Vec<(u64, i64)>,
}

/// The index of the entry for `key` at or after `i`, or `-1`.
pub open spec fn entry_idx(s: Seq<(u64, i64)>, key: u64, i: int) -> int
    decreases s.len() - i when 0 <= i <= s.len()
{
    if i >= s.len() {
        -1
    } else if s[i].0 == key {
        i
    } else {
        entry_idx(s, key, i + 1)
    }
}

/// The phase stored for `key`, or zero for a voice not yet rendered.
pub open spec fn spec_phase_of(s: Seq<(u64, i64)>, key: u64) -> int {
    let idx = entry_idx(s, key, 0);
    if idx >= 0 {
        s[idx].1 as int
    } else {
        0
    }
}

/// The table with every entry removed whose voice has finished.
pub open spec fn prune_spec(s: Seq<(u64, i64)>, notes: Seq<ActiveNote>) -> Seq<(u64, i64)>
    decreases s.len(),
{
    if s.len() == 0 {
        Seq::empty()
    } else {
        let rest = prune_spec(s.drop_last(), notes);
        let i = note_idx(notes, s.last().0, 0);
        if i >= 0 && notes[i].adsr.stage == EnvelopeStage::Idle {
            rest
        } else {
            rest.push(s.last())
        }
    }
}

impl PhaseTable {
    /// Every phase within one cycle, every key present at most once.
    pub open spec fn wf(&self) -> bool {
        &&& self.entries@.len() <= MAX_VOICES
        &&& forall|i: int|
            0 <= i < self.entries@.len() ==> 0 <= (#[trigger] self.entries@[i]).1 < PHASE_ONE
        &&& forall|i: int, j: int|
            0 <= i < j < self.entries@.len() ==> #[trigger] self.entries@[i].0
                != #[trigger] self.entries@[j].0
    }

    /// An empty phase table.
    pub fn new() -> (r: Self)
        ensures
            r.wf(),
            r.entries@.len() == 0,
    {
        PhaseTable { entries: Vec::new() }
    }

    /// The phase stored for `key`, or zero for a voice not yet rendered.
    pub fn phase_of(&self, key: u64) -> (r: i64)
        requires
            self.wf(),
        ensures
            r == spec_phase_of(self.entries@, key),
            0 <= r < PHASE_ONE,
    {
        let n = self.entries.len();
        let mut i: usize = 0;
        while i < n
            invariant
                n == self.entries@.len(),
                i <= n,
                entry_idx(self.entries@, key, 0) == entry_idx(self.entries@, key, i as int),
                forall|a: int|
                    0 <= a < n ==> 0 <= (#[trigger] self.entries@[a]).1 < PHASE_ONE,
            decreases n - i,
        {
            let e = self.entries[i];
            if e.0 == key {
                return e.1;
            }
            i = i + 1;
        }
        0
    }

    /// Store the phase for `key`, creating the entry on first use; a
    /// full table ignores keys it does not already hold.
    pub fn set_phase(&mut self, key: u64, phase: i64)
        requires
            old(self).wf(),
            0 <= phase < PHASE_ONE,
        ensures
            final(self).wf(),
            spec_phase_of(final(self).entries@, key) == phase || (entry_idx(
                old(self).entries@,
                key,
                0,
            ) == -1 && old(self).entries@.len() >= MAX_VOICES && final(self).entries@ == old(
                self,
            ).entries@),
    {
        let n = self.entries.len();
        let mut i: usize = 0;
        while i < n
            invariant
                old(self).wf(),
                0 <= phase < PHASE_ONE,
                self.entries@ == old(self).entries@,
                n == self.entries@.len(),
                i <= n,
                entry_idx(self.entries@, key, 0) == entry_idx(self.entries@, key, i as int),
            decreases n - i,
        {
            let e = self.entries[i];
            if e.0 == key {
                self.entries.set(i, (key, phase));
                proof {
                    lemma_entry_idx_update_stable(
                        old(self).entries@,
                        key,
                        i as int,
                        (key, phase),
                        0,
                    );
                    assert(entry_idx(self.entries@, key, 0) == i);
                    assert forall|a: int, b: int|
                        0 <= a < b < self.entries@.len() implies #[trigger] self.entries@[a].0
                        != #[trigger] self.entries@[b].0 by {
                        assert(self.entries@[a].0 == old(self).entries@[a].0);
                        assert(self.entries@[b].0 == old(self).entries@[b].0);
                    }
                }
                return ;
            }
            i = i + 1;
        }
        proof {
            lemma_entry_idx_none(self.entries@, key, 0);
        }
        if self.entries.len() < MAX_VOICES {
            proof {
                lemma_entry_idx_push(self.entries@, key, (key, phase), 0);
            }
            self.entries.push((key, phase));
        }
    }

    /// Drop the entries of voices whose envelopes have finished.
    pub fn prune_finished(&mut self, notes: &NoteManager)
        requires
            old(self).wf(),
        ensures
            final(self).wf(),
            final(self).entries@ == prune_spec(old(self).entries@, notes.notes@),
    {
        let ghost orig = self.entries@;
        let mut kept: Vec<(u64, i64)> = Vec::new();
        let n = self.entries.len();
        let mut i: usize = 0;
        while i < n
            invariant
                n == self.entries@.len(),
                self.entries@ == orig,
                i <= n,
                kept@ == prune_spec(orig.subrange(0, i as int), notes.notes@),
                kept@.len() <= i,
                forall|a: int|
                    0 <= a < kept@.len() ==> 0 <= (#[trigger] kept@[a]).1 < PHASE_ONE,
                forall|a: int, b: int|
                    0 <= a < b < kept@.len() ==> #[trigger] kept@[a].0 != #[trigger] kept@[b].0,
                forall|a: int|
                    0 <= a < kept@.len() ==> exists|b: int|
                        0 <= b < i && orig[b] == #[trigger] kept@[a],
                forall|a: int| 0 <= a < n ==> 0 <= (#[trigger] orig[a]).1 < PHASE_ONE,
                forall|a: int, b: int|
                    0 <= a < b < n ==> #[trigger] orig[a].0 != #[trigger] orig[b].0,
                n <= MAX_VOICES,
            decreases n - i,
        {
            proof {
                assert(orig.subrange(0, i + 1).drop_last() =~= orig.subrange(0, i as int));
            }
            let e = self.entries[i];
            let found = notes.find_note(e.0);
            let finished = match found {
                Some(ix) => {
                    let stage_done = notes.notes[ix].is_finished();
                    stage_done
                },
                None => false,
            };
            if !finished {
                proof {
                    lemma_kept_entry_fresh(kept@, orig, e, i as int);
                }
                kept.push(e);
            }
            i = i + 1;
        }
        proof {
            assert(orig.subrange(0, n as int) =~= orig);
        }
        self.entries = kept;
    }
}

/// A kept entry came from the scanned prefix, so an entry from beyond
/// it cannot collide with any kept key.
proof fn lemma_kept_entry_fresh(
    kept: Seq<(u64, i64)>,
    orig: Seq<(u64, i64)>,
    e: (u64, i64),
    i: int,
)
    requires
        0 <= i < orig.len(),
        e == orig[i],
        forall|a: int|
            0 <= a < kept.len() ==> exists|b: int| 0 <= b < i && orig[b] == #[trigger] kept[a],
        forall|a: int, b: int|
            0 <= a < b < orig.len() ==> #[trigger] orig[a].0 != #[trigger] orig[b].0,
    ensures
        forall|a: int| 0 <= a < kept.len() ==> (#[trigger] kept[a]).0 != e.0,
{
    assert forall|a: int| 0 <= a < kept.len() implies (#[trigger] kept[a]).0 != e.0 by {
        let b = choose|b: int| 0 <= b < i && orig[b] == kept[a];
        assert(orig[b].0 != orig[i].0);
    }
}

/// A `-1` from `entry_idx` means the key is nowhere at or after `i`.
proof fn lemma_entry_idx_none(s: Seq<(u64, i64)>, key: u64, i: int)
    requires
        0 <= i <= s.len(),
        entry_idx(s, key, i) == -1,
    ensures
        forall|j: int| i <= j < s.len() ==> (#[trigger] s[j]).0 != key,
    decreases s.len() - i,
{
    if i < s.len() {
        lemma_entry_idx_none(s, key, i + 1);
    }
}

/// A key found nowhere in `s` is found exactly at the end of `s.push`.
proof fn lemma_entry_idx_push(s: Seq<(u64, i64)>, key: u64, e: (u64, i64), i: int)
    requires
        0 <= i <= s.len(),
        entry_idx(s, key, i) == -1,
        e.0 == key,
    ensures
        entry_idx(s.push(e), key, i) == s.len(),
    decreases s.len() - i,
{
    if i < s.len() {
        lemma_entry_idx_push(s, key, e, i + 1);
    }
}

/// An update that keeps the key does not move `entry_idx`.
proof fn lemma_entry_idx_update_stable(
    s: Seq<(u64, i64)>,
    key: u64,
    j: int,
    v: (u64, i64),
    i: int,
)
    requires
        0 <= i <= s.len(),
        0 <= j < s.len(),
        v.0 == s[j].0,
    ensures
        entry_idx(s.update(j, v), key, i) == entry_idx(s, key, i),
    decreases s.len() - i,
{
    if i < s.len() {
        lemma_entry_idx_update_stable(s, key, j, v, i + 1);
    }
}

/// One voice's phase advance for one sample: `freq / sample_rate` of a
/// cycle, wrapped into one cycle.
pub open spec fn spec_phase_step(phase: int, freq: int, rate: int) -> int {
    (phase + (freq * 1000 / rate) % (PHASE_ONE as int)) % (PHASE_ONE as int)
}

/// The phase increment for one sample, wrapped into one cycle.
fn phase_step(phase: i64, freq: u64, rate: u32) -> (r: i64)
    requires
        0 <= phase < PHASE_ONE,
        1 <= rate <= MAX_SAMPLE_RATE,
    ensures
        r == spec_phase_step(phase as int, freq as int, rate as int),
        0 <= r < PHASE_ONE,
{
    let wide: u128 = (freq as u128) * 1000 / (rate as u128);
    let inc: i64 = (wide % (PHASE_ONE as u128)) as i64;
    (phase + inc) % PHASE_ONE
}

/// The sum of a run of voice contributions.
pub open spec fn sum_seq(s: Seq<int>) -> int
    decreases s.len(),
{
    if s.len() == 0 {
        0
    } else {
        sum_seq(s.drop_last()) + s.last()
    }
}

/// The value one frame writes for a voice-sum `mix` over `n` voices:
/// normalized by the square root of the voice count when several sound,
/// boosted by 1.5, and clamped into one amplitude unit.
pub open spec fn spec_frame_value(mix: int, n: int) -> int {
    let normalized = if n > 1 {
        tdiv(mix * FP_ONE, spec_isqrt(n * FP_ONE * FP_ONE))
    } else {
        mix
    };
    spec_clamp(tdiv(normalized * 1_500_000, FP_ONE as int), -FP_ONE as int, FP_ONE as int)
}

/// What storing phase `ph` for `key` leaves in the table: the phase is
/// stored, unless the key was new and the table already full.
pub open spec fn phase_written(p0: Seq<(u64, i64)>, p1: Seq<(u64, i64)>, key: u64, ph: int) -> bool {
    spec_phase_of(p1, key) == ph || (entry_idx(p0, key, 0) == -1 && p0.len() >= MAX_VOICES && p1
        == p0)
}

/// One voice's share of one frame: the synthesizer chain steps once at
/// the voice's stored phase, the voice's envelope advances one sample,
/// the chain output scaled by the new envelope level is the voice's
/// contribution to the mix, and the voice's phase advances one step.
pub open spec fn voice_stepped(
    n0: ActiveNote,
    n1: ActiveNote,
    s0: SynthType,
    s1: SynthType,
    p0: Seq<(u64, i64)>,
    p1: Seq<(u64, i64)>,
    rate: int,
    share: int,
) -> bool {
    let phase = spec_phase_of(p0, n0.frequency);
    &&& n1 == (ActiveNote { adsr: crate::adsr::spec_advance(n0.adsr), ..n0 })
    &&& same_variant(s0, s1)
    &&& chain_of(s1).oscillator == chain_of(s0).oscillator
    &&& chain_of(s1).amplitude == chain_of(s0).amplitude
    &&& exists|osc_out: int|
        #[trigger] chain_stepped(
            chain_of(s0).modules@,
            chain_of(s1).modules@,
            mul_div(
                spec_osc_sample(chain_of(s0).oscillator, phase),
                chain_of(s0).amplitude as int,
                FP_ONE as int,
            ),
            osc_out,
        ) && share == mul_div(osc_out, crate::adsr::spec_advance(n0.adsr).level as int, LEVEL_ONE as int)
    &&& phase_written(p0, p1, n0.frequency, spec_phase_step(phase, n0.frequency as int, rate))
}

/// One whole frame: a pass over the voices in table order, threading
/// the synthesizer chain and the phase table through voice by voice;
/// the written value is the normalized, boosted, clamped mix of the
/// voices' contributions.
pub open spec fn frame_stepped(
    notes0: Seq<ActiveNote>,
    notes1: Seq<ActiveNote>,
    s0: SynthType,
    s1: SynthType,
    p0: Seq<(u64, i64)>,
    p1: Seq<(u64, i64)>,
    rate: int,
    value: int,
) -> bool {
    exists|synths: Seq<SynthType>, ptabs: Seq<Seq<(u64, i64)>>, contribs: Seq<int>|
        #![trigger synths.len(), ptabs.len(), contribs.len()]
        {
            &&& synths.len() == notes0.len() + 1
            &&& ptabs.len() == notes0.len() + 1
            &&& contribs.len() == notes0.len()
            &&& synths[0] == s0
            &&& synths.last() == s1
            &&& ptabs[0] == p0
            &&& ptabs.last() == p1
            &&& notes1.len() == notes0.len()
            &&& (forall|i: int|
                0 <= i < notes0.len() ==> #[trigger] voice_stepped(
                    notes0[i],
                    notes1[i],
                    synths[i],
                    synths[i + 1],
                    ptabs[i],
                    ptabs[i + 1],
                    rate,
                    contribs[i],
                ))
            &&& value == spec_frame_value(sum_seq(contribs), notes0.len() as int)
        }
}

/// One frame's pass over every voice, per `voice_stepped`; returns the
/// sum of the voices' contributions.
fn mix_voices(
    notes: &mut NoteManager,
    synth: &mut SynthType,
    phases: &mut PhaseTable,
    sample_rate: u32,
) -> (mix: i64)
    requires
        old(notes).wf(),
        old(synth).wf(),
        old(phases).wf(),
        1 <= sample_rate <= MAX_SAMPLE_RATE,
    ensures
        final(notes).wf(),
        final(synth).wf(),
        final(phases).wf(),
        final(notes).notes@.len() == old(notes).notes@.len(),
        forall|k: int|
            0 <= k < old(notes).notes@.len() ==> #[trigger] final(notes).notes@[k] == (ActiveNote {
                adsr: spec_advance(old(notes).notes@[k].adsr),
                ..old(notes).notes@[k]
            }),
        -(old(notes).notes@.len() as int) * SAMPLE_LIMIT <= mix as int <= (old(
            notes,
        ).notes@.len() as int) * SAMPLE_LIMIT,
        (exists|synths: Seq<SynthType>, ptabs: Seq<Seq<(u64, i64)>>, contribs: Seq<int>|
            #![trigger synths.len(), ptabs.len(), contribs.len()]
            {
                &&& synths.len() == old(notes).notes@.len() + 1
                &&& ptabs.len() == old(notes).notes@.len() + 1
                &&& contribs.len() == old(notes).notes@.len()
                &&& synths[0] == *old(synth)
                &&& synths.last() == *final(synth)
                &&& ptabs[0] == old(phases).entries@
                &&& ptabs.last() == final(phases).entries@
                &&& (forall|i: int|
                    0 <= i < old(notes).notes@.len() ==> #[trigger] voice_stepped(
                        old(notes).notes@[i],
                        final(notes).notes@[i],
                        synths[i],
                        synths[i + 1],
                        ptabs[i],
                        ptabs[i + 1],
                        sample_rate as int,
                        contribs[i],
                    ))
                &&& mix as int == sum_seq(contribs)
            }),
{
    let ghost base = notes.notes@;
    let voice_count = notes.note_count();
    let ghost mut synths_tr: Seq<SynthType> = seq![*synth];
    let ghost mut ptabs_tr: Seq<Seq<(u64, i64)>> = seq![phases.entries@];
    let ghost mut contribs: Seq<int> = Seq::empty();
    let mut mix: i64 = 0;
    let mut i: usize = 0;
    while i < voice_count
        invariant
            notes.wf(),
            synth.wf(),
            phases.wf(),
            voice_count == notes.notes@.len(),
            voice_count == base.len(),
            voice_count <= MAX_VOICES,
            1 <= sample_rate <= MAX_SAMPLE_RATE,
            i <= voice_count,
            synths_tr.len() == i + 1,
            ptabs_tr.len() == i + 1,
            contribs.len() == i as int,
            synths_tr[0] == *old(synth),
            synths_tr.last() == *synth,
            ptabs_tr[0] == old(phases).entries@,
            ptabs_tr.last() == phases.entries@,
            mix as int == sum_seq(contribs),
            -(i as int) * SAMPLE_LIMIT <= mix as int <= (i as int) * SAMPLE_LIMIT,
            forall|k: int| i <= k < voice_count ==> #[trigger] notes.notes@[k] == base[k],
            forall|k: int|
                0 <= k < i ==> #[trigger] notes.notes@[k] == (ActiveNote {
                    adsr: spec_advance(base[k].adsr),
                    ..base[k]
                }),
            forall|k: int|
                0 <= k < i ==> #[trigger] voice_stepped(
                    base[k],
                    notes.notes@[k],
                    synths_tr[k],
                    synths_tr[k + 1],
                    ptabs_tr[k],
                    ptabs_tr[k + 1],
                    sample_rate as int,
                    contribs[k],
                ),
        decreases voice_count - i,
    {
        let ghost pre_synth = *synth;
        let ghost pre_ptab = phases.entries@;
        let ghost pre_contribs = contribs;
        let freq = notes.notes[i].frequency;
        let phase = phases.phase_of(freq);
        let osc = synth.generate_sample(phase);
        let amp = notes.notes[i].get_amplitude();
        proof {
            crate::fixed::lemma_mul_div_bound(
                osc as int,
                amp as int,
                LEVEL_ONE as int,
                SAMPLE_LIMIT as int,
            );
            assert(tdiv(SAMPLE_LIMIT as int * amp as int, LEVEL_ONE as int) <= SAMPLE_LIMIT)
                by (nonlinear_arith)
                requires
                    0 <= amp <= LEVEL_ONE,
                    SAMPLE_LIMIT == 1_000_000_000,
                    LEVEL_ONE == 1_000_000_000,
            ;
        }
        let contribution = scale(osc, amp, LEVEL_ONE);
        mix = mix + contribution;
        let next_phase = phase_step(phase, freq, sample_rate);
        phases.set_phase(freq, next_phase);
        proof {
            assert(chain_stepped(
                chain_of(pre_synth).modules@,
                chain_of(*synth).modules@,
                mul_div(
                    spec_osc_sample(chain_of(pre_synth).oscillator, phase as int),
                    chain_of(pre_synth).amplitude as int,
                    FP_ONE as int,
                ),
                osc as int,
            ));
            assert(voice_stepped(
                base[i as int],
                notes.notes@[i as int],
                pre_synth,
                *synth,
                pre_ptab,
                phases.entries@,
                sample_rate as int,
                contribution as int,
            ));
            synths_tr = synths_tr.push(*synth);
            ptabs_tr = ptabs_tr.push(phases.entries@);
            contribs = contribs.push(contribution as int);
            assert(contribs.drop_last() =~= pre_contribs);
            assert(sum_seq(contribs) == sum_seq(pre_contribs) + contribution);
        }
        i = i + 1;
    }
    mix
}

/// Fill an interleaved PCM buffer in place: one block of frames, every
/// channel carrying the same mono mix. Per frame, every voice advances
/// its oscillator phase and its envelope by exactly one sample, the
/// chain steps once per voice at that voice's stored phase, the scaled
/// voices are summed, and the mix is normalized by the square root of
/// the voice count, boosted by 1.5, and clamped into one amplitude
/// unit — frame by frame per `frame_stepped`, witnessed by the run of
/// intermediate states. The voice set itself is neither grown nor
/// shrunk here.
pub fn render_block(
    notes: &mut NoteManager,
    synth: &mut SynthType,
    phases: &mut PhaseTable,
    channels: usize,
    sample_rate: u32,
    out: &mut Vec<i64>,
)
    requires
        old(notes).wf(),
        old(synth).wf(),
        old(phases).wf(),
        1 <= channels,
        1 <= sample_rate <= MAX_SAMPLE_RATE,
        old(out)@.len() as int % (channels as int) == 0,
        old(out)@.len() <= 1_000_000,
    ensures
        final(notes).wf(),
        final(synth).wf(),
        final(phases).wf(),
        final(out)@.len() == old(out)@.len(),
        forall|k: int| 0 <= k < final(out)@.len() ==> -FP_ONE <= #[trigger] final(out)@[k] <= FP_ONE,
        forall|f: int, c: int|
            0 <= f < old(out)@.len() as int / (channels as int) && 0 <= c < channels
                ==> #[trigger] final(out)@[f * channels + c] == final(out)@[f * channels],
        final(notes).notes@.len() == old(notes).notes@.len(),
        forall|i: int|
            0 <= i < old(notes).notes@.len() ==> {
                let n0 = old(notes).notes@[i];
                let n1 = #[trigger] final(notes).notes@[i];
                n1.frequency == n0.frequency && n1.is_released == n0.is_released && n1.adsr
                    == spec_advance_n(n0.adsr, (old(out)@.len() as int / (channels as int)) as nat)
            },
        (exists|
            frame_values: Seq<int>,
            notes_tr: Seq<Seq<ActiveNote>>,
            synth_tr: Seq<SynthType>,
            ptab_tr: Seq<Seq<(u64, i64)>>,
        |
            #![trigger frame_values.len(), notes_tr.len(), synth_tr.len(), ptab_tr.len()]
            {
                let frames = old(out)@.len() as int / (channels as int);
                &&& frame_values.len() == frames
                &&& notes_tr.len() == frames + 1
                &&& synth_tr.len() == frames + 1
                &&& ptab_tr.len() == frames + 1
                &&& notes_tr[0] == old(notes).notes@
                &&& notes_tr.last() == final(notes).notes@
                &&& synth_tr[0] == *old(synth)
                &&& synth_tr.last() == *final(synth)
                &&& ptab_tr[0] == old(phases).entries@
                &&& ptab_tr.last() == final(phases).entries@
                &&& (forall|g: int|
                    0 <= g < frames ==> #[trigger] frame_stepped(
                        notes_tr[g],
                        notes_tr[g + 1],
                        synth_tr[g],
                        synth_tr[g + 1],
                        ptab_tr[g],
                        ptab_tr[g + 1],
                        sample_rate as int,
                        frame_values[g],
                    ))
                &&& (forall|g: int, c: int|
                    0 <= g < frames && 0 <= c < channels ==> #[trigger] final(out)@[g * channels
                        + c] == frame_values[g])
            }),
{
    let total = out.len();
    let frames = total / channels;
    proof {
        assert(frames * channels == total) by (nonlinear_arith)
            requires
                channels >= 1,
                frames == total as int / channels as int,
                total as int % channels as int == 0,
        ;
    }
    let ghost mut frame_values: Seq<int> = Seq::empty();
    let ghost mut notes_tr: Seq<Seq<ActiveNote>> = seq![notes.notes@];
    let ghost mut synth_tr: Seq<SynthType> = seq![*synth];
    let ghost mut ptab_tr: Seq<Seq<(u64, i64)>> = seq![phases.entries@];
    let mut f: usize = 0;
    while f < frames
        invariant
            notes.wf(),
            synth.wf(),
            phases.wf(),
            out@.len() == total,
            total == frames * channels,
            total <= 1_000_000,
            1 <= channels,
            1 <= sample_rate <= MAX_SAMPLE_RATE,
            f <= frames,
            notes.notes@.len() == old(notes).notes@.len(),
            forall|i: int|
                0 <= i < old(notes).notes@.len() ==> {
                    let n0 = old(notes).notes@[i];
                    let n1 = #[trigger] notes.notes@[i];
                    n1.frequency == n0.frequency && n1.is_released == n0.is_released && n1.adsr
                        == spec_advance_n(n0.adsr, f as nat)
                },
            frame_values.len() == f as int,
            notes_tr.len() == f + 1,
            synth_tr.len() == f + 1,
            ptab_tr.len() == f + 1,
            notes_tr[0] == old(notes).notes@,
            notes_tr.last() == notes.notes@,
            synth_tr[0] == *old(synth),
            synth_tr.last() == *synth,
            ptab_tr[0] == old(phases).entries@,
            ptab_tr.last() == phases.entries@,
            forall|g: int|
                0 <= g < f ==> #[trigger] frame_stepped(
                    notes_tr[g],
                    notes_tr[g + 1],
                    synth_tr[g],
                    synth_tr[g + 1],
                    ptab_tr[g],
                    ptab_tr[g + 1],
                    sample_rate as int,
                    frame_values[g],
                ),
            forall|k: int| 0 <= k < f * channels ==> -FP_ONE <= #[trigger] out@[k] <= FP_ONE,
            forall|g: int, c: int|
                0 <= g < f && 0 <= c < channels ==> #[trigger] out@[g * channels + c]
                    == frame_values[g],
        decreases frames - f,
    {
        let ghost base = notes.notes@;
        let ghost frame_synth0 = *synth;
        let ghost frame_ptab0 = phases.entries@;
        let voice_count = notes.note_count();
        let mix = mix_voices(notes, synth, phases, sample_rate);
        proof {
            assert(-1_024_000_000_000 <= mix <= 1_024_000_000_000);
        }
        let mixed: i64 = if voice_count > 1 {
            let scaled_count = (voice_count as i64) * FP_ONE;
            proof {
                assert(0 <= scaled_count * FP_ONE <= 2_000_000_000_000_000_000)
                    by (nonlinear_arith)
                    requires
                        0 <= scaled_count <= 1_024_000_000,
                        FP_ONE == 1_000_000,
                ;
            }
            let root = isqrt(scale(scaled_count, FP_ONE, 1));
            proof {
                assert(root >= FP_ONE) by (nonlinear_arith)
                    requires
                        root >= 0,
                        (root + 1) * (root + 1) > 2_000_000_000_000,
                        FP_ONE == 1_000_000,
                ;
                assert(-1_024_000_000_000 <= tdiv(mix as int * FP_ONE as int, root as int)
                    <= 1_024_000_000_000) by (nonlinear_arith)
                    requires
                        -1_024_000_000_000 <= mix <= 1_024_000_000_000,
                        root >= 1_000_000,
                        FP_ONE == 1_000_000,
                ;
            }
            scale_signed(mix, FP_ONE, root)
        } else {
            mix
        };
        proof {
            assert(-2_000_000_000_000_000_000 <= tdiv(mixed as int * 1_500_000, FP_ONE as int)
                <= 2_000_000_000_000_000_000) by (nonlinear_arith)
                requires
                    -1_024_000_000_000 <= mixed <= 1_024_000_000_000,
                    FP_ONE == 1_000_000,
            ;
        }
        let boosted = scale_signed(mixed, 1_500_000, FP_ONE);
        let value = crate::fixed::clamp_i64(boosted, -FP_ONE, FP_ONE);
        proof {
            let (synths, ptabs, contribs) = choose|
                synths: Seq<SynthType>,
                ptabs: Seq<Seq<(u64, i64)>>,
                contribs: Seq<int>,
            |
                #![trigger synths.len(), ptabs.len(), contribs.len()]
                {
                    &&& synths.len() == base.len() + 1
                    &&& ptabs.len() == base.len() + 1
                    &&& contribs.len() == base.len()
                    &&& synths[0] == frame_synth0
                    &&& synths.last() == *synth
                    &&& ptabs[0] == frame_ptab0
                    &&& ptabs.last() == phases.entries@
                    &&& (forall|i: int|
                        0 <= i < base.len() ==> #[trigger] voice_stepped(
                            base[i],
                            notes.notes@[i],
                            synths[i],
                            synths[i + 1],
                            ptabs[i],
                            ptabs[i + 1],
                            sample_rate as int,
                            contribs[i],
                        ))
                    &&& mix as int == sum_seq(contribs)
                };
            assert(value == spec_frame_value(sum_seq(contribs), base.len() as int));
            assert(frame_stepped(
                base,
                notes.notes@,
                frame_synth0,
                *synth,
                frame_ptab0,
                phases.entries@,
                sample_rate as int,
                value as int,
            ));
        }
        let mut c: usize = 0;
        proof {
            assert((f + 1) * channels <= frames * channels) by (nonlinear_arith)
                requires
                    f < frames,
                    channels >= 1,
            ;
            assert(f * channels + channels == (f + 1) * channels) by (nonlinear_arith);
            assert(f * channels >= 0) by (nonlinear_arith)
                requires
                    f >= 0,
                    channels >= 1,
            ;
            lemma_earlier_frames_below(f as int, channels as int);
        }
        while c < channels
            invariant
                out@.len() == total,
                c <= channels,
                f * channels + channels <= total,
                0 <= f * channels,
                -FP_ONE <= value <= FP_ONE,
                frame_values.len() == f as int,
                forall|g: int, cc: int|
                    0 <= g < f && 0 <= cc < channels ==> #[trigger] (g * channels + cc) < f
                        * channels,
                forall|k: int|
                    0 <= k < f * channels ==> -FP_ONE <= #[trigger] out@[k] <= FP_ONE,
                forall|g: int, cc: int|
                    0 <= g < f && 0 <= cc < channels ==> #[trigger] out@[g * channels + cc]
                        == frame_values[g],
                forall|k: int|
                    f * channels <= k < f * channels + c ==> #[trigger] out@[k] == value,
            decreases channels - c,
        {
            out.set(f * channels + c, value);
            c = c + 1;
        }
        proof {
            lemma_frame_advances(base, notes.notes@, f as nat, old(notes).notes@);
            notes_tr = notes_tr.push(notes.notes@);
            synth_tr = synth_tr.push(*synth);
            ptab_tr = ptab_tr.push(phases.entries@);
            frame_values = frame_values.push(value as int);
            assert(f * channels + channels == (f + 1) * channels) by (nonlinear_arith);
            assert forall|k: int| 0 <= k < (f + 1) * channels implies -FP_ONE <= #[trigger] out@[k]
                <= FP_ONE by {
                if k >= f * channels {
                    assert(out@[k] == value);
                }
            }
            assert forall|g: int, cc: int|
                0 <= g < f + 1 && 0 <= cc < channels implies #[trigger] out@[g * channels + cc]
                == frame_values[g] by {
                if g == f {
                    assert(f * channels <= f * channels + cc < f * channels + channels);
                    assert(out@[g * channels + cc] == value);
                }
            }
        }
        f = f + 1;
    }
    proof {
        assert forall|g: int, c: int|
            0 <= g < frames && 0 <= c < channels implies #[trigger] out@[g * channels + c]
            == out@[g * channels] by {
            assert(out@[g * channels + c] == frame_values[g]);
            assert(out@[g * channels + 0] == frame_values[g]);
        }
    }
}

/// Every slot of an earlier frame lies below the current frame's slots.
proof fn lemma_earlier_frames_below(f: int, channels: int)
    requires
        f >= 0,
        channels >= 1,
    ensures
        forall|g: int, cc: int|
            0 <= g < f && 0 <= cc < channels ==> #[trigger] (g * channels + cc) < f * channels,
{
    assert forall|g: int, cc: int|
        0 <= g < f && 0 <= cc < channels implies #[trigger] (g * channels + cc) < f
        * channels by {
        assert(g * channels + cc < (g + 1) * channels) by (nonlinear_arith)
            requires
                0 <= cc < channels,
        ;
        assert((g + 1) * channels <= f * channels) by (nonlinear_arith)
            requires
                g + 1 <= f,
                channels >= 1,
        ;
    }
}

/// Advancing every voice once more extends `spec_advance_n` by one.
proof fn lemma_frame_advances(
    base: Seq<ActiveNote>,
    now: Seq<ActiveNote>,
    f: nat,
    orig: Seq<ActiveNote>,
)
    requires
        base.len() == now.len(),
        base.len() == orig.len(),
        forall|k: int|
            0 <= k < base.len() ==> (#[trigger] base[k]).adsr == spec_advance_n(
                orig[k].adsr,
                f,
            ),
        forall|k: int|
            0 <= k < now.len() ==> (#[trigger] now[k]).adsr == spec_advance(base[k].adsr),
    ensures
        forall|k: int|
            0 <= k < now.len() ==> (#[trigger] now[k]).adsr == spec_advance_n(
                orig[k].adsr,
                f + 1,
            ),
{
    assert forall|k: int| 0 <= k < now.len() implies (#[trigger] now[k]).adsr == spec_advance_n(
        orig[k].adsr,
        f + 1,
    ) by {
        assert(spec_advance_n(orig[k].adsr, f + 1) == spec_advance(
            spec_advance_n(orig[k].adsr, f),
        ));
    }
}

} // verus!
