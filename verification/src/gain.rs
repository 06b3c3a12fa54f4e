//! The gain stage: a plain multiplier configured in dB.

use vstd::prelude::*;

use crate::db::{spec_db_to_linear, db_to_linear, MAX_DB_MILLI, MAX_GAIN_LIN};
use crate::fixed::{mul_div, sat, scale, saturate, FP_ONE, SAMPLE_LIMIT};

verus! {

/// A gain control. The gain is stored in milli-dB and converted to a
/// linear factor inside `process`, never cached separately.
#[derive(Clone, Copy, Debug, PartialEq, Eq, Structural)]
pub struct Gain {
    /// Gain in milli-dB, within `[-MAX_DB_MILLI, MAX_DB_MILLI]`.
    pub gain_db: i64,
}

/// What the gain stage turns a sample into: the sample scaled by the
/// linear factor of the configured dB gain, saturated.
pub open spec fn spec_gain_out(g: Gain, x: int) -> int {
    sat(mul_div(x, spec_db_to_linear(g.gain_db as int), FP_ONE as int))
}

impl Gain {
    pub open spec fn wf(&self) -> bool {
        -MAX_DB_MILLI <= self.gain_db <= MAX_DB_MILLI
    }

    /// A gain stage at the given milli-dB value, clamped into range.
    pub fn new(gain_db: i64) -> (r: Self)
        ensures
            r.gain_db as int == crate::fixed::spec_clamp(
                gain_db as int,
                -MAX_DB_MILLI as int,
                MAX_DB_MILLI as int,
            ),
            r.wf(),
    {
        Gain { gain_db: crate::fixed::clamp_i64(gain_db, -MAX_DB_MILLI, MAX_DB_MILLI) }
    }

    pub fn set_gain(&mut self, gain_db: i64)
        ensures
            final(self).gain_db as int == crate::fixed::spec_clamp(
                gain_db as int,
                -MAX_DB_MILLI as int,
                MAX_DB_MILLI as int,
            ),
            final(self).wf(),
    {
        self.gain_db = crate::fixed::clamp_i64(gain_db, -MAX_DB_MILLI, MAX_DB_MILLI);
    }

    pub fn get_gain(&self) -> (r: i64)
        ensures
            r == self.gain_db,
    {
        self.gain_db
    }

    /// Scale the sample by the linear factor of the configured gain.
    pub fn process(&self, input: i64) -> (r: i64)
        requires
            -SAMPLE_LIMIT <= input <= SAMPLE_LIMIT,
        ensures
            r == spec_gain_out(*self, input as int),
            -SAMPLE_LIMIT <= r <= SAMPLE_LIMIT,
    {
        let lin = db_to_linear(self.gain_db);
        proof {
            crate::fixed::lemma_mul_div_bound(
                input as int,
                lin as int,
                FP_ONE as int,
                SAMPLE_LIMIT as int,
            );
            assert(crate::fixed::tdiv(SAMPLE_LIMIT as int * lin as int, FP_ONE as int)
                <= 1_000_000_000_000_000_000) by (nonlinear_arith)
                requires
                    0 <= lin <= MAX_GAIN_LIN,
            ;
        }
        let raw = scale(input, lin, FP_ONE);
        saturate(raw)
    }

    /// The stage's display name.
    pub fn name(&self) -> &'static str {
        "Gain"
    }
}

} // verus!
