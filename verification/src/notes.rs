//! The voice table: one sounding note per frequency, each with its own
//! envelope. A voice is keyed by its exact frequency in milli-Hz, so
//! two distinct pitches can never collide on one voice. A released
//! voice keeps rendering through its release tail and is removed only
//! by the cleanup pass, once its envelope has reached `Idle`.

use vstd::prelude::*;

use crate::adsr::{
    spec_advance, spec_note_off, spec_note_on, ADSR, EnvelopeCurve, EnvelopeStage,
};
use crate::fixed::{spec_clamp, LEVEL_ONE, MAX_SAMPLE_RATE};

verus! {

/// Default per-note attack: 0.1 s, in microseconds.
pub const NOTE_ATTACK_MICROS: i64 = 100_000;

/// Default per-note decay: 0.3 s, in microseconds.
pub const NOTE_DECAY_MICROS: i64 = 300_000;

/// Default per-note sustain level: 0.6, scaled by `LEVEL_ONE`.
pub const NOTE_SUSTAIN_LEVEL: i64 = 600_000_000;

/// Default per-note release: 1 s, in microseconds.
pub const NOTE_RELEASE_MICROS: i64 = 1_000_000;

/// The most voices the table holds at once.
pub const MAX_VOICES: usize = 1_024;

/// The envelope a fresh voice starts from, before its attack is armed.
pub open spec fn default_note_envelope(sample_rate: int) -> ADSR {
    ADSR {
        attack: NOTE_ATTACK_MICROS,
        decay: NOTE_DECAY_MICROS,
        sustain: NOTE_SUSTAIN_LEVEL,
        release: NOTE_RELEASE_MICROS,
        sample_rate: spec_clamp(sample_rate, 1, MAX_SAMPLE_RATE as int) as u32,
        curve: EnvelopeCurve::Linear,
        stage: EnvelopeStage::Idle,
        level: 0,
        step: 0,
    }
}

/// One sounding voice.
#[derive(Clone, Copy, Debug)]
pub struct ActiveNote {
    /// The voice's pitch, milli-Hz, positive.
    pub frequency: u64,
    pub adsr: ADSR,
    /// True once the key is up while the envelope rings out.
    pub is_released: bool,
}

/// The voice a note-on event creates: attack armed from silence.
pub open spec fn spec_new_note(frequency: u64, sample_rate: int) -> ActiveNote {
    ActiveNote {
        frequency,
        adsr: spec_note_on(default_note_envelope(sample_rate)),
        is_released: false,
    }
}

impl ActiveNote {
    pub open spec fn wf(&self) -> bool {
        &&& self.frequency >= 1
        &&& self.adsr.inv()
    }

    /// A fresh voice at the given pitch, envelope already attacking.
    pub fn new(frequency: u64, sample_rate: u32) -> (r: Self)
        requires
            frequency >= 1,
        ensures
            r == spec_new_note(frequency, sample_rate as int),
            r.wf(),
    {
        let mut adsr = ADSR::new(sample_rate);
        adsr.set_attack(NOTE_ATTACK_MICROS);
        adsr.set_decay(NOTE_DECAY_MICROS);
        adsr.set_sustain(NOTE_SUSTAIN_LEVEL);
        adsr.set_release(NOTE_RELEASE_MICROS);
        adsr.note_on();
        ActiveNote { frequency, adsr, is_released: false }
    }

    /// Release the voice: the envelope rings out from its current level.
    pub fn note_off(&mut self)
        requires
            old(self).wf(),
        ensures
            *final(self) == (ActiveNote {
                adsr: spec_note_off(old(self).adsr),
                is_released: true,
                ..*old(self)
            }),
            final(self).wf(),
    {
        self.adsr.note_off();
        self.is_released = true;
    }

    /// Whether the voice's envelope has fully faded out.
    pub fn is_finished(&self) -> (r: bool)
        ensures
            r == (self.adsr.stage == EnvelopeStage::Idle),
    {
        self.adsr.is_finished()
    }

    /// Advance the envelope one sample and return its level.
    pub fn get_amplitude(&mut self) -> (r: i64)
        requires
            old(self).wf(),
        ensures
            *final(self) == (ActiveNote { adsr: spec_advance(old(self).adsr), ..*old(self) }),
            final(self).wf(),
            r == final(self).adsr.level,
            0 <= r <= LEVEL_ONE,
    {
        self.adsr.get_amplitude()
    }

    pub fn get_current_attack(&self) -> (r: i64)
        ensures
            r == self.adsr.attack,
    {
        self.adsr.get_attack()
    }

    pub fn set_current_attack(&mut self, micros: i64)
        requires
            old(self).wf(),
        ensures
            final(self).wf(),
            final(self).adsr.attack as int == spec_clamp(
                micros as int,
                0,
                crate::fixed::MAX_TIME_MICROS as int,
            ),
            *final(self) == (ActiveNote { adsr: final(self).adsr, ..*old(self) }),
    {
        self.adsr.set_attack(micros);
    }

    pub fn get_current_decay(&self) -> (r: i64)
        ensures
            r == self.adsr.decay,
    {
        self.adsr.get_decay()
    }

    pub fn set_current_decay(&mut self, micros: i64)
        requires
            old(self).wf(),
        ensures
            final(self).wf(),
            final(self).adsr.decay as int == spec_clamp(
                micros as int,
                0,
                crate::fixed::MAX_TIME_MICROS as int,
            ),
            *final(self) == (ActiveNote { adsr: final(self).adsr, ..*old(self) }),
    {
        self.adsr.set_decay(micros);
    }

    pub fn get_current_sustain(&self) -> (r: i64)
        ensures
            r == self.adsr.sustain,
    {
        self.adsr.get_sustain()
    }

    pub fn set_current_sustain(&mut self, level: i64)
        requires
            old(self).wf(),
        ensures
            final(self).wf(),
            final(self).adsr.sustain as int == spec_clamp(level as int, 0, LEVEL_ONE as int),
            *final(self) == (ActiveNote { adsr: final(self).adsr, ..*old(self) }),
    {
        self.adsr.set_sustain(level);
    }

    pub fn get_current_release(&self) -> (r: i64)
        ensures
            r == self.adsr.release,
    {
        self.adsr.get_release()
    }

    pub fn set_current_release(&mut self, micros: i64)
        requires
            old(self).wf(),
        ensures
            final(self).wf(),
            final(self).adsr.release as int == spec_clamp(
                micros as int,
                0,
                crate::fixed::MAX_TIME_MICROS as int,
            ),
            *final(self) == (ActiveNote { adsr: final(self).adsr, ..*old(self) }),
    {
        self.adsr.set_release(micros);
    }
}

/// The index of the voice at frequency `f` at or after `i`, or `-1`.
pub open spec fn note_idx(s: Seq<ActiveNote>, f: u64, i: int) -> int
    decreases s.len() - i when 0 <= i <= s.len()
{
    if i >= s.len() {
        -1
    } else if s[i].frequency == f {
        i
    } else {
        note_idx(s, f, i + 1)
    }
}

/// The table after a note-on for frequency `f`: a fresh voice if the
/// pitch is silent (and the table is not full), a restart from the
/// current level if it is ringing out, and no change at all if it is
/// still held.
pub open spec fn spec_add_note(s: Seq<ActiveNote>, f: u64, sample_rate: int) -> Seq<ActiveNote> {
    let idx = note_idx(s, f, 0);
    if idx >= 0 {
        if s[idx].is_released {
            s.update(
                idx,
                ActiveNote { adsr: spec_note_on(s[idx].adsr), is_released: false, ..s[idx] },
            )
        } else {
            s
        }
    } else if s.len() < MAX_VOICES {
        s.push(spec_new_note(f, sample_rate))
    } else {
        s
    }
}

/// The table after a note-off for frequency `f`: the held voice starts
/// its release; a silent or already-released pitch changes nothing.
pub open spec fn spec_release_note(s: Seq<ActiveNote>, f: u64) -> Seq<ActiveNote> {
    let idx = note_idx(s, f, 0);
    if idx >= 0 && !s[idx].is_released {
        s.update(
            idx,
            ActiveNote { adsr: spec_note_off(s[idx].adsr), is_released: true, ..s[idx] },
        )
    } else {
        s
    }
}

/// The table with every faded-out voice removed, order kept.
pub open spec fn remove_finished(s: Seq<ActiveNote>) -> Seq<ActiveNote>
    decreases s.len(),
{
    if s.len() == 0 {
        Seq::empty()
    } else {
        let rest = remove_finished(s.drop_last());
        if s.last().adsr.stage == EnvelopeStage::Idle {
            rest
        } else {
            rest.push(s.last())
        }
    }
}

/// The table of currently sounding voices, shared between the control
/// surface and the renderer (the callers arrange the sharing; every
/// operation here is a single exclusive access).
#[derive(Clone, Debug)]
pub struct NoteManager {
    pub notes: Vec<ActiveNote>,
}

impl NoteManager {
    /// Every voice well formed, every pitch present at most once.
    pub open spec fn wf(&self) -> bool {
        &&& self.notes@.len() <= MAX_VOICES
        &&& forall|i: int| 0 <= i < self.notes@.len() ==> (#[trigger] self.notes@[i]).wf()
        &&& forall|i: int, j: int|
            0 <= i < j < self.notes@.len() ==> #[trigger] self.notes@[i].frequency
                != #[trigger] self.notes@[j].frequency
    }

    /// An empty voice table.
    pub fn new() -> (r: Self)
        ensures
            r.wf(),
            r.notes@.len() == 0,
    {
        NoteManager { notes: Vec::new() }
    }

    /// The index of the voice at frequency `f`, if any.
    pub fn find_note(&self, f: u64) -> (r: Option<usize>)
        ensures
            r is Some ==> note_idx(self.notes@, f, 0) == r.unwrap() && 0 <= r.unwrap()
                < self.notes@.len() && self.notes@[r.unwrap() as int].frequency == f,
            r is None ==> note_idx(self.notes@, f, 0) == -1 && (forall|j: int|
                0 <= j < self.notes@.len() ==> (#[trigger] self.notes@[j]).frequency != f),
    {
        let n = self.notes.len();
        let mut i: usize = 0;
        while i < n
            invariant
                n == self.notes@.len(),
                i <= n,
                note_idx(self.notes@, f, 0) == note_idx(self.notes@, f, i as int),
            decreases n - i,
        {
            if self.notes[i].frequency == f {
                return Some(i);
            }
            i = i + 1;
        }
        proof {
            lemma_note_idx_none(self.notes@, f, 0);
        }
        None
    }

    /// How many voices are sounding (including release tails).
    pub fn note_count(&self) -> (r: usize)
        ensures
            r == self.notes@.len(),
    {
        self.notes.len()
    }

    /// A note-on event, per `spec_add_note`. A held pitch is not
    /// re-triggered; a ringing-out pitch restarts its attack from the
    /// level it has reached, so there is no click.
    pub fn add_note(&mut self, frequency: u64, sample_rate: u32)
        requires
            old(self).wf(),
            frequency >= 1,
        ensures
            final(self).wf(),
            final(self).notes@ == spec_add_note(old(self).notes@, frequency, sample_rate as int),
    {
        let found = self.find_note(frequency);
        match found {
            Some(ix) => {
                if self.notes[ix].is_released {
                    let n = &mut self.notes[ix];
                    n.adsr.note_on();
                    n.is_released = false;
                }
            },
            None => {
                if self.notes.len() < MAX_VOICES {
                    let note = ActiveNote::new(frequency, sample_rate);
                    self.notes.push(note);
                }
            },
        }
    }

    /// A note-off event, per `spec_release_note`.
    pub fn release_note(&mut self, frequency: u64)
        requires
            old(self).wf(),
        ensures
            final(self).wf(),
            final(self).notes@ == spec_release_note(old(self).notes@, frequency),
    {
        let found = self.find_note(frequency);
        if let Some(ix) = found {
            if !self.notes[ix].is_released {
                let n = &mut self.notes[ix];
                n.adsr.note_off();
                n.is_released = true;
            }
        }
    }

    /// Remove every voice whose envelope has reached `Idle`.
    pub fn cleanup_finished_notes(&mut self)
        requires
            old(self).wf(),
        ensures
            final(self).wf(),
            final(self).notes@ == remove_finished(old(self).notes@),
    {
        let ghost orig = self.notes@;
        let mut kept: Vec<ActiveNote> = Vec::new();
        let n = self.notes.len();
        let mut i: usize = 0;
        while i < n
            invariant
                n == self.notes@.len(),
                self.notes@ == orig,
                i <= n,
                kept@ == remove_finished(orig.subrange(0, i as int)),
                kept@.len() <= i,
                forall|a: int| 0 <= a < kept@.len() ==> (#[trigger] kept@[a]).wf(),
                forall|a: int, b: int|
                    0 <= a < b < kept@.len() ==> #[trigger] kept@[a].frequency
                        != #[trigger] kept@[b].frequency,
                forall|a: int|
                    0 <= a < kept@.len() ==> exists|b: int|
                        0 <= b < i && orig[b] == #[trigger] kept@[a],
                forall|i2: int| 0 <= i2 < orig.len() ==> (#[trigger] orig[i2]).wf(),
                forall|a: int, b: int|
                    0 <= a < b < orig.len() ==> #[trigger] orig[a].frequency
                        != #[trigger] orig[b].frequency,
                n <= MAX_VOICES,
            decreases n - i,
        {
            proof {
                assert(orig.subrange(0, i + 1).drop_last() =~= orig.subrange(0, i as int));
            }
            let note = self.notes[i];
            if !note.is_finished() {
                proof {
                    lemma_kept_fresh(kept@, orig, note, i as int);
                }
                kept.push(note);
            }
            i = i + 1;
        }
        proof {
            assert(orig.subrange(0, n as int) =~= orig);
        }
        self.notes = kept;
    }

    /// Force every held voice into its release; the tails ring out.
    pub fn stop_all_notes(&mut self)
        requires
            old(self).wf(),
        ensures
            final(self).wf(),
            final(self).notes@.len() == old(self).notes@.len(),
            forall|i: int|
                0 <= i < old(self).notes@.len() ==> #[trigger] final(self).notes@[i] == (if old(
                    self,
                ).notes@[i].is_released {
                    old(self).notes@[i]
                } else {
                    ActiveNote {
                        adsr: spec_note_off(old(self).notes@[i].adsr),
                        is_released: true,
                        ..old(self).notes@[i]
                    }
                }),
    {
        let n = self.notes.len();
        let mut i: usize = 0;
        while i < n
            invariant
                n == self.notes@.len(),
                n == old(self).notes@.len(),
                i <= n,
                forall|k: int| i <= k < n ==> self.notes@[k] == old(self).notes@[k],
                forall|k: int|
                    0 <= k < i ==> #[trigger] self.notes@[k] == (if old(
                        self,
                    ).notes@[k].is_released {
                        old(self).notes@[k]
                    } else {
                        ActiveNote {
                            adsr: spec_note_off(old(self).notes@[k].adsr),
                            is_released: true,
                            ..old(self).notes@[k]
                        }
                    }),
                forall|k: int| 0 <= k < n ==> (#[trigger] self.notes@[k]).wf(),
                forall|a: int, b: int|
                    0 <= a < b < n ==> #[trigger] self.notes@[a].frequency
                        != #[trigger] self.notes@[b].frequency,
            decreases n - i,
        {
            if !self.notes[i].is_released {
                let note = &mut self.notes[i];
                note.adsr.note_off();
                note.is_released = true;
            }
            i = i + 1;
        }
    }
}

/// A voice kept by the cleanup pass came from the scanned prefix, so a
/// fresh voice from beyond it cannot collide with any kept pitch.
proof fn lemma_kept_fresh(kept: Seq<ActiveNote>, orig: Seq<ActiveNote>, note: ActiveNote, i: int)
    requires
        0 <= i < orig.len(),
        note == orig[i],
        forall|a: int|
            0 <= a < kept.len() ==> exists|b: int| 0 <= b < i && orig[b] == #[trigger] kept[a],
        forall|a: int, b: int|
            0 <= a < b < orig.len() ==> #[trigger] orig[a].frequency
                != #[trigger] orig[b].frequency,
    ensures
        forall|a: int| 0 <= a < kept.len() ==> (#[trigger] kept[a]).frequency != note.frequency,
{
    assert forall|a: int| 0 <= a < kept.len() implies (#[trigger] kept[a]).frequency
        != note.frequency by {
        let b = choose|b: int| 0 <= b < i && orig[b] == kept[a];
        assert(orig[b].frequency != orig[i].frequency);
    }
}

/// A `-1` from `note_idx` means the pitch is nowhere at or after `i`.
proof fn lemma_note_idx_none(s: Seq<ActiveNote>, f: u64, i: int)
    requires
        0 <= i <= s.len(),
        note_idx(s, f, i) == -1,
    ensures
        forall|j: int| i <= j < s.len() ==> (#[trigger] s[j]).frequency != f,
    decreases s.len() - i,
{
    if i < s.len() {
        lemma_note_idx_none(s, f, i + 1);
    }
}

/// A pitch found nowhere in `s` is found exactly at the end of `s.push`.
proof fn lemma_note_idx_push(s: Seq<ActiveNote>, f: u64, n: ActiveNote, i: int)
    requires
        0 <= i <= s.len(),
        note_idx(s, f, i) == -1,
        n.frequency == f,
    ensures
        note_idx(s.push(n), f, i) == s.len(),
    decreases s.len() - i,
{
    if i < s.len() {
        lemma_note_idx_push(s, f, n, i + 1);
    }
}

/// An update at or after `j >= i` that keeps the frequency does not move
/// `note_idx` from `i`.
proof fn lemma_note_idx_update(s: Seq<ActiveNote>, f: u64, j: int, v: ActiveNote, i: int)
    requires
        0 <= i <= s.len(),
        0 <= j < s.len(),
        v.frequency == s[j].frequency,
    ensures
        note_idx(s.update(j, v), f, i) == note_idx(s, f, i),
    decreases s.len() - i,
{
    if i < s.len() {
        lemma_note_idx_update(s, f, j, v, i + 1);
    }
}

/// Law: a second note-on for a pitch that is already held neither adds
/// a second voice nor restarts the envelope — one note-on and two are
/// the same table.
pub proof fn lemma_add_note_idempotent(s: Seq<ActiveNote>, f: u64, sample_rate: int)
    ensures
        spec_add_note(spec_add_note(s, f, sample_rate), f, sample_rate) == spec_add_note(
            s,
            f,
            sample_rate,
        ),
{
    let s1 = spec_add_note(s, f, sample_rate);
    let idx = note_idx(s, f, 0);
    lemma_note_idx_cases(s, f, 0);
    if idx >= 0 {
        lemma_note_idx_nonneg(s, f, 0);
        if s[idx].is_released {
            let v = ActiveNote { adsr: spec_note_on(s[idx].adsr), is_released: false, ..s[idx] };
            lemma_note_idx_update(s, f, idx, v, 0);
            assert(note_idx(s1, f, 0) == idx);
            assert(!s1[idx].is_released);
        } else {
            assert(s1 == s);
        }
    } else {
        if s.len() < MAX_VOICES {
            lemma_note_idx_push(s, f, spec_new_note(f, sample_rate), 0);
            assert(note_idx(s1, f, 0) == s.len());
            assert(!s1[s.len() as int].is_released);
        } else {
            assert(s1 == s);
        }
    }
}

/// `note_idx` yields `-1` or an index within range.
proof fn lemma_note_idx_cases(s: Seq<ActiveNote>, f: u64, i: int)
    requires
        0 <= i <= s.len(),
    ensures
        note_idx(s, f, i) == -1 || i <= note_idx(s, f, i) < s.len(),
    decreases s.len() - i,
{
    if i < s.len() && s[i].frequency != f {
        lemma_note_idx_cases(s, f, i + 1);
    }
}

/// A non-negative `note_idx` points at the pitch it was asked for.
proof fn lemma_note_idx_nonneg(s: Seq<ActiveNote>, f: u64, i: int)
    requires
        0 <= i <= s.len(),
        note_idx(s, f, i) >= 0,
    ensures
        i <= note_idx(s, f, i) < s.len(),
        s[note_idx(s, f, i)].frequency == f,
    decreases s.len() - i,
{
    if i < s.len() && s[i].frequency != f {
        lemma_note_idx_nonneg(s, f, i + 1);
    }
}

} // verus!
