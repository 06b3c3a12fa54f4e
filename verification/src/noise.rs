//! The noise stage: adds a bounded random value and clamps to full scale.

use vstd::prelude::*;

use crate::fixed::{scale, spec_clamp, FP_ONE, SAMPLE_LIMIT};

verus! {

/// A noise source mixed onto the signal. The amount lies in `[0, FP_ONE]`;
/// out-of-range settings are clamped, never reported as errors.
#[derive(Clone, Copy, Debug, PartialEq, Eq, Structural)]
pub struct Noise {
    /// Noise amount, within `[0, FP_ONE]`.
    pub amount: i64,
}

/// Relies on `rand::random_range`: a sample drawn from the inclusive
/// range it is given, here one amplitude unit either side of zero.
#[verifier::external_body]
fn random_unit() -> (r: i64)
    ensures
        -FP_ONE <= r <= FP_ONE,
{
    rand::random_range(-FP_ONE..=FP_ONE)
}

impl Noise {
    /// A noise stage at the given amount, clamped into `[0, FP_ONE]`.
    pub fn new(amount: i64) -> (r: Self)
        ensures
            r.amount as int == spec_clamp(amount as int, 0, FP_ONE as int),
            r.wf(),
    {
        Noise { amount: crate::fixed::clamp_i64(amount, 0, FP_ONE) }
    }

    pub open spec fn wf(&self) -> bool {
        0 <= self.amount <= FP_ONE
    }

    pub fn set_amount(&mut self, amount: i64)
        ensures
            final(self).amount as int == spec_clamp(amount as int, 0, FP_ONE as int),
            final(self).wf(),
    {
        self.amount = crate::fixed::clamp_i64(amount, 0, FP_ONE);
    }

    pub fn get_amount(&self) -> (r: i64)
        ensures
            r == self.amount,
    {
        self.amount
    }

    /// Add noise no larger than the configured amount and clamp the mix
    /// to one amplitude unit. The draw is random, so the contract holds
    /// of every outcome: the result stays between the clamped mixes of
    /// the two extreme disturbances.
    pub fn process(&self, input: i64) -> (r: i64)
        requires
            self.wf(),
            -SAMPLE_LIMIT <= input <= SAMPLE_LIMIT,
        ensures
            spec_clamp(input - self.amount, -FP_ONE as int, FP_ONE as int) <= r <= spec_clamp(
                input + self.amount,
                -FP_ONE as int,
                FP_ONE as int,
            ),
            -FP_ONE <= r <= FP_ONE,
    {
        let draw = random_unit();
        proof {
            crate::fixed::lemma_mul_div_bound(
                draw as int,
                self.amount as int,
                FP_ONE as int,
                FP_ONE as int,
            );
        }
        let noise = scale(draw, self.amount, FP_ONE);
        let mixed = crate::fixed::clamp_i64(input + noise, -FP_ONE, FP_ONE);
        proof {
            assert(crate::fixed::tdiv(FP_ONE as int * self.amount as int, FP_ONE as int)
                == self.amount as int) by (nonlinear_arith)
                requires
                    FP_ONE == 1_000_000,
            ;
            assert(-self.amount <= noise as int <= self.amount && mixed as int == spec_clamp(
                input as int + noise as int,
                -FP_ONE as int,
                FP_ONE as int,
            ));
        }
        mixed
    }

    /// The stage's display name.
    pub fn name(&self) -> &'static str {
        "NoiseEffect"
    }
}

} // verus!
