//! The frequency set: the simpler, single-envelope trigger layer. It
//! tracks which pitches are held and arms the synthesizer's own
//! envelopes when the first one arrives, releasing them when the last
//! one leaves. The per-voice lifecycle lives in the voice table; this
//! layer drives presets whose envelope sits inside the chain itself.

use vstd::prelude::*;

use crate::manager::{notes_armed, notes_released, SynthType};

verus! {

/// The most pitches the set holds at once.
pub const MAX_HELD: usize = 1_024;

/// The set of currently held pitches, in milli-Hz.
#[derive(Clone, Debug)]
pub struct FrequencySet {
    pub keys: Vec<u64>,
}

/// The index of `f` at or after `i`, or `-1`.
pub open spec fn held_idx(s: Seq<u64>, f: u64, i: int) -> int
    decreases s.len() - i when 0 <= i <= s.len()
{
    if i >= s.len() {
        -1
    } else if s[i] == f {
        i
    } else {
        held_idx(s, f, i + 1)
    }
}

impl FrequencySet {
    /// Every pitch held at most once.
    pub open spec fn wf(&self) -> bool {
        &&& self.keys@.len() <= MAX_HELD
        &&& forall|i: int, j: int|
            0 <= i < j < self.keys@.len() ==> #[trigger] self.keys@[i] != #[trigger] self.keys@[j]
    }

    /// An empty set.
    pub fn new() -> (r: Self)
        ensures
            r.wf(),
            r.keys@.len() == 0,
    {
        FrequencySet { keys: Vec::new() }
    }

    /// How many pitches are held.
    pub fn held_count(&self) -> (r: usize)
        ensures
            r == self.keys@.len(),
    {
        self.keys.len()
    }

    /// The index of `f`, if held.
    fn find(&self, f: u64) -> (r: Option<usize>)
        ensures
            r is Some ==> held_idx(self.keys@, f, 0) == r.unwrap() && 0 <= r.unwrap()
                < self.keys@.len() && self.keys@[r.unwrap() as int] == f,
            r is None ==> held_idx(self.keys@, f, 0) == -1 && (forall|j: int|
                0 <= j < self.keys@.len() ==> #[trigger] self.keys@[j] != f),
    {
        let n = self.keys.len();
        let mut i: usize = 0;
        while i < n
            invariant
                n == self.keys@.len(),
                i <= n,
                held_idx(self.keys@, f, 0) == held_idx(self.keys@, f, i as int),
            decreases n - i,
        {
            if self.keys[i] == f {
                return Some(i);
            }
            i = i + 1;
        }
        proof {
            lemma_held_idx_none(self.keys@, f, 0);
        }
        None
    }
}

/// Hold a pitch; if it is the first one, arm the synthesizer's
/// envelopes. A pitch already held (or a full set) changes nothing.
pub fn add_frequency_realtime(freqs: &mut FrequencySet, synth: &mut SynthType, freq: u64)
    requires
        old(freqs).wf(),
        old(synth).wf(),
    ensures
        final(freqs).wf(),
        final(synth).wf(),
        ({
            let held = held_idx(old(freqs).keys@, freq, 0) >= 0;
            let full = old(freqs).keys@.len() >= MAX_HELD;
            if held || full {
                final(freqs).keys@ == old(freqs).keys@ && *final(synth) == *old(synth)
            } else {
                final(freqs).keys@ == old(freqs).keys@.push(freq) && (if old(
                    freqs,
                ).keys@.len() == 0 {
                    notes_armed(*old(synth), *final(synth))
                } else {
                    *final(synth) == *old(synth)
                })
            }
        }),
{
    let found = freqs.find(freq);
    if found.is_none() && freqs.keys.len() < MAX_HELD {
        let was_empty = freqs.keys.len() == 0;
        freqs.keys.push(freq);
        if was_empty {
            synth.note_on();
        }
    }
}

/// Let a pitch go; if it was the last one, release the synthesizer's
/// envelopes. A pitch not held changes nothing.
pub fn remove_frequency_realtime(freqs: &mut FrequencySet, synth: &mut SynthType, freq: u64)
    requires
        old(freqs).wf(),
        old(synth).wf(),
    ensures
        final(freqs).wf(),
        final(synth).wf(),
        ({
            let idx = held_idx(old(freqs).keys@, freq, 0);
            if idx >= 0 {
                final(freqs).keys@ == old(freqs).keys@.remove(idx) && (if old(
                    freqs,
                ).keys@.len() == 1 {
                    notes_released(*old(synth), *final(synth))
                } else {
                    *final(synth) == *old(synth)
                })
            } else {
                final(freqs).keys@ == old(freqs).keys@ && *final(synth) == *old(synth)
            }
        }),
{
    let found = freqs.find(freq);
    if let Some(ix) = found {
        let was_last = freqs.keys.len() == 1;
        freqs.keys.remove(ix);
        if was_last {
            synth.note_off();
        }
    }
}

/// Let every pitch go at once; if any was held, release the
/// synthesizer's envelopes.
pub fn stop_all_frequencies_realtime(freqs: &mut FrequencySet, synth: &mut SynthType)
    requires
        old(freqs).wf(),
        old(synth).wf(),
    ensures
        final(freqs).wf(),
        final(synth).wf(),
        final(freqs).keys@.len() == 0,
        old(freqs).keys@.len() > 0 ==> notes_released(*old(synth), *final(synth)),
        old(freqs).keys@.len() == 0 ==> *final(synth) == *old(synth),
{
    let had_notes = freqs.keys.len() > 0;
    freqs.keys = Vec::new();
    if had_notes {
        synth.note_off();
    }
}

/// A `-1` from `held_idx` means the pitch is nowhere at or after `i`.
proof fn lemma_held_idx_none(s: Seq<u64>, f: u64, i: int)
    requires
        0 <= i <= s.len(),
        held_idx(s, f, i) == -1,
    ensures
        forall|j: int| i <= j < s.len() ==> #[trigger] s[j] != f,
    decreases s.len() - i,
{
    if i < s.len() {
        lemma_held_idx_none(s, f, i + 1);
    }
}

} // verus!
