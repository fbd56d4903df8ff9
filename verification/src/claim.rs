//! What a folded computation claims in public: how many steps were folded,
//! from which initial state, and to which current state.

use crate::errors::{FoldError, VerifyError};
use crate::field::{copy_values, same_values, values, Fe};
use crate::relation::{R1cs, R1csView};
use vstd::prelude::*;

verus! {

/// The step count and the public states of a folded computation.
#[derive(Debug)]
pub struct Claim {
    pub steps: u64,
    pub initial: Vec<Fe>,
    pub current: Vec<Fe>,
}

/// A claim as its step count and the values of its two public states.
pub struct ClaimView {
    pub steps: nat,
    pub initial: Seq<nat>,
    pub current: Seq<nat>,
}

impl View for Claim {
    type V = ClaimView;

    open spec fn view(&self) -> ClaimView {
        ClaimView {
            steps: self.steps as nat,
            initial: values(self.initial@),
            current: values(self.current@),
        }
    }
}

/// The claim before any step: nothing folded, and the current state is the
/// initial one.
pub open spec fn start_spec(z0: Seq<nat>) -> ClaimView {
    ClaimView { steps: 0, initial: z0, current: z0 }
}

/// One step of the relation on a claim, from an assignment to its wires.
///
/// The step is refused at the step limit; then if the assignment is not one
/// to the wires of a consistent relation; then if it does not start from the
/// current state or breaks a constraint. Otherwise the step count grows by
/// one and the current state becomes the assignment's public outputs.
pub open spec fn advance_spec(c: ClaimView, rel: R1csView, limit: nat, w: Seq<nat>) -> Result<
    ClaimView,
    FoldError,
> {
    if c.steps >= limit {
        Err(FoldError::StepCountOverflow)
    } else if !rel.shape_ok() || w.len() != rel.num_variables {
        Err(FoldError::WitnessGenerationError)
    } else if !rel.accepts(c.current, w) {
        Err(FoldError::ConstraintUnsatisfied)
    } else {
        Ok(ClaimView { steps: c.steps + 1, initial: c.initial, current: rel.outputs(w) })
    }
}

/// A claim held against an expected step count and expected public states:
/// the step count is compared first, then the two states.
pub open spec fn matches_spec(c: ClaimView, expected_i: nat, z0: Seq<nat>, zi: Seq<nat>) -> Result<
    (),
    VerifyError,
> {
    if expected_i != c.steps {
        Err(VerifyError::IterationMismatch)
    } else if z0 != c.initial || zi != c.current {
        Err(VerifyError::StateMismatch)
    } else {
        Ok(())
    }
}

impl Claim {
    /// The claim before any step.
    pub fn start(z0: Vec<Fe>) -> (r: Claim)
        ensures
            r@ == start_spec(values(z0@)),
            r.initial@ == z0@,
            r.current@ == z0@,
    {
        let current = copy_values(&z0);
        Claim { steps: 0, initial: z0, current }
    }

    /// The claim after one more step of `relation`, taken from `witness`;
    /// `self` is left as it is.
    pub fn advance(&self, relation: &R1cs, limit: u64, witness: &Vec<Fe>) -> (r: Result<
        Claim,
        FoldError,
    >)
        ensures
            match r {
                Ok(c) => advance_spec(self@, relation@, limit as nat, values(witness@)) == Ok::<
                    ClaimView,
                    FoldError,
                >(c@) && c.initial@ == self.initial@,
                Err(e) => advance_spec(self@, relation@, limit as nat, values(witness@)) == Err::<
                    ClaimView,
                    FoldError,
                >(e),
            },
    {
        if self.steps >= limit {
            return Err(FoldError::StepCountOverflow);
        }
        let outputs = match relation.outputs_of(witness) {
            Some(z) => z,
            None => {
                return Err(FoldError::WitnessGenerationError);
            },
        };
        if !relation.accepts(&self.current, witness) {
            return Err(FoldError::ConstraintUnsatisfied);
        }
        Ok(Claim { steps: self.steps + 1, initial: copy_values(&self.initial), current: outputs })
    }

    /// Whether the claim is the expected one.
    pub fn matches(&self, expected_i: u64, z0: &Vec<Fe>, zi: &Vec<Fe>) -> (r: Result<
        (),
        VerifyError,
    >)
        ensures
            r == matches_spec(self@, expected_i as nat, values(z0@), values(zi@)),
    {
        if expected_i != self.steps {
            Err(VerifyError::IterationMismatch)
        } else if !same_values(z0, &self.initial) || !same_values(zi, &self.current) {
            Err(VerifyError::StateMismatch)
        } else {
            Ok(())
        }
    }
}

} // verus!
