//! The reference run: five steps of the relation
//! `out[0] = in[0] + adder, out[1] = in[0] + in[1]` from the state `(10, 10)`,
//! with the adders `0, 1, 2, 3, 4`, folded, verified, compressed and verified
//! again.

use crate::backend::{constraint_counts, keys_for, variable_counts};
use crate::claim::start_spec;
use crate::compress;
use crate::cycle::CurveCycle;
use crate::errors::{FoldError, ProveError, SetupError, VerifyError};
use crate::field::{copy_values, values, Fe};
use crate::folding::{
    fold_all, fold_model, lemma_fold_counts_steps, lemma_model_follows_claims, witnesses_view,
    RecursiveState, StateView,
};
use crate::incremental;
use crate::params::{generate, MAX_STEP_LIMIT};
use crate::relation::{R1cs, R1csView};
use vstd::prelude::*;

verus! {

/// The number of steps of the run.
pub const ITERATION_COUNT: u64 = 5;

/// The private input of one step, as the witness generator takes it.
#[derive(Debug)]
pub struct PrivateInput {
    pub name: String,
    pub value: u64,
}

/// What the run can fail with: the error of the stage that failed.
#[derive(Clone, Copy, Debug, PartialEq, Eq, Structural)]
pub enum RunError {
    Setup(SetupError),
    Fold(FoldError),
    Verify(VerifyError),
    Prove(ProveError),
}

/// What a run that went through reports.
#[derive(Debug)]
pub struct RunReport {
    /// The numbers of constraints of the primary and the secondary circuit.
    pub constraints: (usize, usize),
    /// The numbers of variables of the primary and the secondary circuit.
    pub variables: (usize, usize),
    pub steps: u64,
    pub final_state: Vec<Fe>,
}

/// The private inputs of the first `iteration_count` steps: step `i` adds `i`.
pub fn private_inputs(iteration_count: usize) -> (r: Vec<PrivateInput>)
    ensures
        r.len() == iteration_count,
        forall|i: int|
            0 <= i < iteration_count ==> (#[trigger] r[i]).name@ == "adder"@ && r[i].value == i,
{
    let mut out: Vec<PrivateInput> = Vec::new();
    let mut i: usize = 0;
    while i < iteration_count
        invariant
            i <= iteration_count,
            out.len() == i,
            forall|j: int| 0 <= j < i ==> (#[trigger] out[j]).name@ == "adder"@ && out[j].value == j,
        decreases iteration_count - i,
    {
        out.push(PrivateInput { name: "adder".to_owned(), value: i as u64 });
        i += 1;
    }
    out
}

/// The public state that the run starts from.
pub fn start_public_input() -> (r: Vec<Fe>)
    ensures
        values(r@) == seq![10nat, 10nat],
{
    let mut z: Vec<Fe> = Vec::new();
    z.push(Fe::from_u64(10));
    z.push(Fe::from_u64(10));
    assert(values(z@) =~= seq![10nat, 10nat]);
    z
}

/// The public state that the run must end in.
pub fn expected_output() -> (r: Vec<Fe>)
    ensures
        values(r@) == seq![20nat, 70nat],
{
    let mut z: Vec<Fe> = Vec::new();
    z.push(Fe::from_u64(20));
    z.push(Fe::from_u64(70));
    assert(values(z@) =~= seq![20nat, 70nat]);
    z
}

/// What the run answers. There must be one assignment for each of the five
/// steps, and the relation must be consistent and of arity two. Then the
/// five steps are folded from `(10, 10)`; the folded state is verified
/// against five steps ending in `(20, 70)`; it is compressed; and the
/// compressed proof is verified against the same claim. The first stage
/// that fails ends the run with its error, and no later stage is run.
pub open spec fn run_model(rel: R1csView, ws: Seq<Seq<nat>>) -> Result<(), RunError> {
    let z0 = seq![10nat, 10nat];
    let zi = seq![20nat, 70nat];
    let n = ITERATION_COUNT as nat;
    if ws.len() != ITERATION_COUNT {
        Err(RunError::Fold(FoldError::WitnessGenerationError))
    } else if !rel.shape_ok() || rel.arity() != 2 {
        Err(RunError::Setup(SetupError::ShapeMismatch))
    } else {
        match fold_model(
            StateView { claim: start_spec(z0), relation: rel, acc: None },
            rel,
            MAX_STEP_LIMIT as nat,
            ws,
        ) {
            Err(e) => Err(RunError::Fold(e)),
            Ok(m) => match incremental::verify_model(m, rel, n, z0, zi) {
                Err(e) => Err(RunError::Verify(e)),
                Ok(_) => match compress::prove_model(m, rel, rel) {
                    Err(e) => Err(RunError::Prove(e)),
                    Ok(p) => match compress::verify_model(p, rel, rel, m.claim.current, n, z0, zi) {
                        Err(e) => Err(RunError::Verify(e)),
                        Ok(_) => Ok(()),
                    },
                },
            },
        }
    }
}

/// The reference run on `relation`, with the assignments that the witness
/// generator produced for its five steps, exactly as `run_model` says.
///
/// A run that goes through reports the sizes of the two circuits, the five
/// steps and the final public state `(20, 70)`.
pub fn run_test(relation: R1cs, witnesses: Vec<Vec<Fe>>) -> (r: Result<RunReport, RunError>)
    ensures
        match r {
            Ok(report) => run_model(relation@, witnesses_view(witnesses@)) is Ok && report.steps
                == ITERATION_COUNT && values(report.final_state@) == seq![20nat, 70nat]
                && report.constraints.0 == constraint_counts(keys_for(relation@)).0
                && report.constraints.1 == constraint_counts(keys_for(relation@)).1
                && report.variables.0 == variable_counts(keys_for(relation@)).0
                && report.variables.1 == variable_counts(keys_for(relation@)).1,
            Err(e) => run_model(relation@, witnesses_view(witnesses@)) == Err::<(), RunError>(e),
        },
{
    let ghost rel = relation@;
    let ghost ws = witnesses_view(witnesses@);
    if witnesses.len() != 5 {
        return Err(RunError::Fold(FoldError::WitnessGenerationError));
    }
    let params = match generate(relation, CurveCycle::bn256_grumpkin()) {
        Ok(p) => p,
        Err(e) => {
            return Err(RunError::Setup(e));
        },
    };
    let z0 = start_public_input();
    let expected = expected_output();
    assert(values(z0@).len() == z0.len());
    let fresh = match RecursiveState::new(&params, copy_values(&z0)) {
        Ok(s) => s,
        Err(e) => {
            return Err(RunError::Setup(e));
        },
    };
    let state = match fold_all(fresh, &params, &witnesses) {
        Ok(s) => s,
        Err(e) => {
            return Err(RunError::Fold(e));
        },
    };
    proof {
        let m0 = StateView { claim: start_spec(seq![10nat, 10nat]), relation: rel, acc: None };
        lemma_model_follows_claims(m0, rel, MAX_STEP_LIMIT as nat, ws);
        lemma_fold_counts_steps(start_spec(seq![10nat, 10nat]), rel, rel, MAX_STEP_LIMIT as nat, ws);
    }
    match incremental::verify(&params, &state, ITERATION_COUNT, &z0, &expected) {
        Ok(_) => {},
        Err(e) => {
            return Err(RunError::Verify(e));
        },
    }
    let (pk, vk) = match compress::setup(&params) {
        Ok(pair) => pair,
        Err(e) => {
            return Err(RunError::Setup(e));
        },
    };
    let proof = match compress::prove(&params, &pk, &state) {
        Ok(p) => p,
        Err(e) => {
            return Err(RunError::Prove(e));
        },
    };
    match compress::verify(&vk, &proof, ITERATION_COUNT, &z0, &expected) {
        Ok(_) => {},
        Err(e) => {
            return Err(RunError::Verify(e));
        },
    }
    Ok(
        RunReport {
            constraints: params.num_constraints(),
            variables: params.num_variables(),
            steps: state.steps(),
            final_state: copy_values(state.current()),
        },
    )
}

} // verus!
