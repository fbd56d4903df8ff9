//! The incremental verifier: it holds a folded state against a claim
//! without running any step of the relation again.

use crate::backend::{check_answer, fold_check, keys_for};
use crate::claim::{matches_spec, start_spec, ClaimView};
use crate::errors::VerifyError;
use crate::field::{encodes, same_encoded, values, Fe};
use crate::folding::{
    fold_spec, lemma_round_trip, trace, trace_witnesses, RecursiveState, StateView,
};
use crate::params::{PublicParams, SECONDARY_INPUT};
use crate::relation::R1csView;
use nova_snark::errors::NovaError;
use vstd::prelude::*;

verus! {

/// What verification decides before the folded instances are looked at: the
/// claim is compared first, step count before states; then a state folded
/// under another relation than that of the parameters is refused.
pub open spec fn verify_spec(
    c: ClaimView,
    folded_rel: R1csView,
    rel: R1csView,
    expected_i: nat,
    z0: Seq<nat>,
    zi: Seq<nat>,
) -> Result<(), VerifyError> {
    match matches_spec(c, expected_i, z0, zi) {
        Err(e) => Err(e),
        Ok(_) => if folded_rel != rel {
            Err(VerifyError::InstanceInvalid)
        } else {
            Ok(())
        },
    }
}

/// What verification of a whole state answers: what `verify_spec` refuses is
/// refused with its error; a state in which nothing is folded stands; any
/// other stands exactly if the engine's check of the folded instances
/// accepts and comes back with the expected current state.
pub open spec fn verify_model(
    m: StateView,
    rel: R1csView,
    expected_i: nat,
    z0: Seq<nat>,
    zi: Seq<nat>,
) -> Result<(), VerifyError> {
    match verify_spec(m.claim, m.relation, rel, expected_i, z0, zi) {
        Err(e) => Err(e),
        Ok(_) => match m.acc {
            None => Ok(()),
            Some(a) => if check_answer(a, keys_for(rel), expected_i, z0, SECONDARY_INPUT as nat)
                == Some(zi) {
                Ok(())
            } else {
                Err(VerifyError::InstanceInvalid)
            },
        },
    }
}

/// Whether a check accepted and came back with the encodings of the public
/// state `zi`.
pub open spec fn accepted_with(outcome: Result<Vec<[u8; 32]>, NovaError>, zi: Seq<nat>) -> bool {
    outcome matches Ok(b) && encodes(b@, zi)
}

/// What verification answers once the folded instances have been checked:
/// the state is accepted if the check accepted and came back with the
/// expected current state, and is invalid otherwise.
pub open spec fn judge_spec(outcome: Result<Vec<[u8; 32]>, NovaError>, zi: Seq<nat>) -> Result<
    (),
    VerifyError,
> {
    if accepted_with(outcome, zi) {
        Ok(())
    } else {
        Err(VerifyError::InstanceInvalid)
    }
}

/// What verification answers once the folded instances have been checked.
pub fn judge(outcome: &Result<Vec<[u8; 32]>, NovaError>, expected_zi: &Vec<Fe>) -> (r: Result<
    (),
    VerifyError,
>)
    ensures
        r == judge_spec(*outcome, values(expected_zi@)),
{
    match outcome {
        Ok(b) => {
            if same_encoded(b, expected_zi) {
                Ok(())
            } else {
                Err(VerifyError::InstanceInvalid)
            }
        },
        Err(_) => Err(VerifyError::InstanceInvalid),
    }
}

/// Whether `state` stands for `expected_i` steps from `z0` to `expected_zi`
/// under `params`, exactly as `verify_model` says.
pub fn verify(
    params: &PublicParams,
    state: &RecursiveState,
    expected_i: u64,
    z0: &Vec<Fe>,
    expected_zi: &Vec<Fe>,
) -> (r: Result<(), VerifyError>)
    ensures
        r == verify_model(
            state.model(),
            params.relation_view(),
            expected_i as nat,
            values(z0@),
            values(expected_zi@),
        ),
{
    proof {
        use_type_invariant(state);
        use_type_invariant(params);
    }
    match state.claim.matches(expected_i, z0, expected_zi) {
        Err(e) => {
            return Err(e);
        },
        Ok(_) => {},
    }
    if !state.relation.same_as(&params.relation) {
        return Err(VerifyError::InstanceInvalid);
    }
    match &state.acc {
        None => Ok(()),
        Some(a) => {
            assert(values(z0@).len() == z0.len());
            assert(values(state.claim.initial@).len() == state.claim.initial.len());
            let outcome = fold_check(a, &params.keys, expected_i as usize, z0, SECONDARY_INPUT);
            judge(&outcome, expected_zi)
        },
    }
}

/// A claim that verification lets through is the state's own claim: the
/// step count and both public states are the recorded ones, and the state
/// was folded under the relation of the parameters.
pub proof fn lemma_accepted_claim_is_recorded(
    m: StateView,
    rel: R1csView,
    expected_i: nat,
    z0: Seq<nat>,
    zi: Seq<nat>,
)
    requires
        verify_model(m, rel, expected_i, z0, zi) is Ok,
    ensures
        expected_i == m.claim.steps,
        z0 == m.claim.initial,
        zi == m.claim.current,
        m.relation == rel,
{
}

/// A state that was folded under the relation of one set of parameters does
/// not verify under parameters of another relation, whatever is claimed and
/// whatever the engine would say.
pub proof fn lemma_other_parameters_fail(
    m: StateView,
    rel: R1csView,
    expected_i: nat,
    z0: Seq<nat>,
    zi: Seq<nat>,
)
    requires
        m.relation != rel,
    ensures
        verify_model(m, rel, expected_i, z0, zi) is Err,
{
}

/// Round trip through verification. A state that holds the folds of the
/// assignments that a witness generator makes of `N` private inputs from `z0`
/// is let through for `N` steps from `z0` to `zi` exactly if `zi` is the
/// `N`-fold application of the step to `z0` and the private inputs.
pub proof fn lemma_verified_state_is_the_trace<P>(
    rel: R1csView,
    limit: nat,
    gen: spec_fn(Seq<nat>, P) -> Seq<nat>,
    z0: Seq<nat>,
    privs: Seq<P>,
    zi: Seq<nat>,
)
    requires
        fold_spec(start_spec(z0), rel, rel, limit, trace_witnesses(rel, gen, z0, privs)) is Ok,
    ensures
        verify_spec(
            fold_spec(start_spec(z0), rel, rel, limit, trace_witnesses(rel, gen, z0, privs))->Ok_0,
            rel,
            rel,
            privs.len(),
            z0,
            zi,
        ) is Ok <==> zi == trace(rel, gen, z0, privs),
{
    lemma_round_trip(rel, limit, gen, z0, privs);
}

} // verus!
