//! The compressor: it turns the final folded state into a short proof by a
//! succinct argument, and verifies such proofs from a verifying key alone.

use crate::backend::{
    argument_answer, argument_check, argument_keys, argument_outputs, argument_prove,
    argument_relation, argument_setup, check_answer, fold_check, keys_for, prove_answer,
    prover_key_relation, verifier_key_relation, Argument, ArgumentProverKey, ArgumentVerifierKey,
};
use crate::claim::ClaimView;
use crate::errors::{ProveError, SetupError, VerifyError};
use crate::field::{copy_values, same_encoded, same_values, values, Fe};
use crate::folding::{RecursiveState, StateView};
use crate::incremental::{accepted_with, judge};
use crate::params::{PublicParams, MAX_STEP_LIMIT, SECONDARY_INPUT};
use crate::relation::{R1cs, R1csView};
use nova_snark::errors::NovaError;
use vstd::prelude::*;

verus! {

/// The prover's key of the argument, for one set of parameters.
pub struct ProvingKey {
    pub(crate) relation: R1cs,
    pub(crate) inner: ArgumentProverKey,
}

/// The verifier's key of the argument: all that a verifier needs beside the
/// public claim and the proof.
pub struct VerifyingKey {
    pub(crate) relation: R1cs,
    pub(crate) inner: ArgumentVerifierKey,
}

/// A compressed proof with the final public state that it speaks of.
pub struct CompressedProof {
    pub(crate) relation: R1cs,
    pub(crate) final_public_io: Vec<Fe>,
    pub(crate) snark_proof: Argument,
}

impl ProvingKey {
    #[verifier::type_invariant]
    pub(crate) open spec fn inv(self) -> bool {
        &&& self.relation@.shape_ok()
        &&& self.inner == argument_keys(keys_for(self.relation@)).0
        &&& prover_key_relation(self.inner) == self.relation@
    }

    /// The relation of the parameters that the key was derived from.
    pub open(crate) spec fn relation_view(self) -> R1csView {
        self.relation@
    }

    /// The engine's key, which the relation alone decides.
    pub open(crate) spec fn engine_key(self) -> ArgumentProverKey {
        self.inner
    }
}

impl VerifyingKey {
    #[verifier::type_invariant]
    pub(crate) open spec fn inv(self) -> bool {
        &&& self.relation@.shape_ok()
        &&& self.inner == argument_keys(keys_for(self.relation@)).1
        &&& verifier_key_relation(self.inner) == self.relation@
    }

    /// The relation of the parameters that the key was derived from.
    pub open(crate) spec fn relation_view(self) -> R1csView {
        self.relation@
    }

    /// The engine's key, which the relation alone decides.
    pub open(crate) spec fn engine_key(self) -> ArgumentVerifierKey {
        self.inner
    }
}

impl CompressedProof {
    #[verifier::type_invariant]
    pub(crate) open spec fn inv(self) -> bool {
        &&& self.relation@.shape_ok()
        &&& argument_relation(self.snark_proof) == self.relation@
        &&& self.final_public_io.len() == self.relation@.arity()
        &&& argument_outputs(self.snark_proof) == values(self.final_public_io@)
    }

    /// The engine's argument that the proof holds.
    pub open(crate) spec fn argument(self) -> Argument {
        self.snark_proof
    }

    /// The relation of the state that the proof compresses.
    pub open(crate) spec fn relation_view(self) -> R1csView {
        self.relation@
    }

    /// The final public state that the proof speaks of.
    pub open(crate) spec fn final_view(self) -> Seq<nat> {
        values(self.final_public_io@)
    }

    /// The final public state that the proof speaks of.
    pub fn final_public_io(&self) -> (r: &Vec<Fe>)
        ensures
            values(r@) == self.final_view(),
    {
        &self.final_public_io
    }
}

/// The key pair of the argument for `params`. Deriving it never fails, and
/// both keys belong to the relation of `params`, which alone decides them.
pub fn setup(params: &PublicParams) -> (r: Result<(ProvingKey, VerifyingKey), SetupError>)
    ensures
        r is Ok,
        r matches Ok(pair) ==> pair.0.relation_view() == params.relation_view()
            && pair.1.relation_view() == params.relation_view() && (
        pair.0.engine_key(),
        pair.1.engine_key(),
    ) == argument_keys(keys_for(params.relation_view())),
{
    proof {
        use_type_invariant(params);
    }
    match argument_setup(&params.keys) {
        Ok((pk, vk)) => Ok(
            (
                ProvingKey { relation: params.relation.duplicate(), inner: pk },
                VerifyingKey { relation: params.relation.duplicate(), inner: vk },
            ),
        ),
        Err(_) => Err(SetupError::ShapeMismatch),
    }
}

/// What compression decides before the state is looked into: a key or a
/// state of another relation than that of the parameters is refused, then a
/// state in which nothing was folded.
pub open spec fn prove_spec(
    c: ClaimView,
    folded_rel: R1csView,
    key_rel: R1csView,
    rel: R1csView,
) -> Result<(), ProveError> {
    if key_rel != rel || folded_rel != rel {
        Err(ProveError::KeyMismatch)
    } else if c.steps == 0 {
        Err(ProveError::CommitmentFailure)
    } else {
        Ok(())
    }
}

/// Whether a state may be compressed, once it has been held against its
/// own claim by the incremental check: only a state that the check accepts
/// with the state's own current public state.
pub open spec fn admissible_spec(checked: Result<Vec<[u8; 32]>, NovaError>, current: Seq<nat>) -> Result<
    (),
    ProveError,
> {
    if accepted_with(checked, current) {
        Ok(())
    } else {
        Err(ProveError::CommitmentFailure)
    }
}

/// Whether a state may be compressed, once it has been held against its
/// own claim by the incremental check.
pub fn admissible(checked: &Result<Vec<[u8; 32]>, NovaError>, current: &Vec<Fe>) -> (r: Result<
    (),
    ProveError,
>)
    ensures
        r == admissible_spec(*checked, values(current@)),
{
    match judge(checked, current) {
        Ok(_) => Ok(()),
        Err(_) => Err(ProveError::CommitmentFailure),
    }
}

/// What compression answers once the argument system has answered: its
/// argument, or `CommitmentFailure` if it gave up.
pub fn seal(proved: Result<Argument, NovaError>) -> (r: Result<Argument, ProveError>)
    ensures
        r == (match proved {
            Ok(p) => Ok::<Argument, ProveError>(p),
            Err(_) => Err::<Argument, ProveError>(ProveError::CommitmentFailure),
        }),
{
    match proved {
        Ok(p) => Ok(p),
        Err(_) => Err(ProveError::CommitmentFailure),
    }
}

/// What compression of a whole state answers: what `prove_spec` refuses is
/// refused with its error; of the others only a state that the engine's
/// check accepts with the state's own claim is handed to the argument
/// system, whose argument is the answer; a state that does not stand, and
/// one that the argument system gives up on, are `CommitmentFailure`.
pub open spec fn prove_model(m: StateView, key_rel: R1csView, rel: R1csView) -> Result<
    Argument,
    ProveError,
> {
    match prove_spec(m.claim, m.relation, key_rel, rel) {
        Err(e) => Err(e),
        Ok(_) => match m.acc {
            None => Err(ProveError::CommitmentFailure),
            Some(a) => if check_answer(
                a,
                keys_for(rel),
                m.claim.steps,
                m.claim.initial,
                SECONDARY_INPUT as nat,
            ) != Some(m.claim.current) {
                Err(ProveError::CommitmentFailure)
            } else {
                match prove_answer(keys_for(rel), argument_keys(keys_for(rel)).0, a) {
                    Some(p) => Ok(p),
                    None => Err(ProveError::CommitmentFailure),
                }
            },
        },
    }
}

/// The compressed proof of `state` under `params`, made with `pk`, exactly
/// as `prove_model` says. A proof that comes back speaks of the state's
/// current public state and belongs to the relation of `params`.
pub fn prove(params: &PublicParams, pk: &ProvingKey, state: &RecursiveState) -> (r: Result<
    CompressedProof,
    ProveError,
>)
    ensures
        match r {
            Ok(p) => prove_model(state.model(), pk.relation_view(), params.relation_view())
                == Ok::<Argument, ProveError>(p.argument()) && p.final_view()
                == state.model().claim.current && p.relation_view() == params.relation_view(),
            Err(e) => prove_model(state.model(), pk.relation_view(), params.relation_view())
                == Err::<Argument, ProveError>(e),
        },
{
    proof {
        use_type_invariant(params);
        use_type_invariant(pk);
        use_type_invariant(state);
    }
    if !pk.relation.same_as(&params.relation) || !state.relation.same_as(&params.relation) {
        return Err(ProveError::KeyMismatch);
    }
    let acc = match &state.acc {
        None => {
            return Err(ProveError::CommitmentFailure);
        },
        Some(a) => a,
    };
    let checked = fold_check(
        acc,
        &params.keys,
        state.claim.steps as usize,
        &state.claim.initial,
        SECONDARY_INPUT,
    );
    match admissible(&checked, &state.claim.current) {
        Err(e) => {
            return Err(e);
        },
        Ok(_) => {},
    }
    match seal(argument_prove(&params.keys, &pk.inner, acc)) {
        Ok(snark_proof) => Ok(
            CompressedProof {
                relation: params.relation.duplicate(),
                final_public_io: copy_values(&state.claim.current),
                snark_proof,
            },
        ),
        Err(e) => Err(e),
    }
}

/// What verification of a compressed proof decides before the argument is
/// looked at: a proof of another relation than that of the key is invalid;
/// then a claim of no steps, or of more than any state can hold, is refused;
/// then an initial state of another length than the arity, or a final state
/// other than the one that the proof speaks of.
pub open spec fn verify_spec(
    proof_rel: R1csView,
    key_rel: R1csView,
    final_io: Seq<nat>,
    expected_i: nat,
    z0: Seq<nat>,
    zi: Seq<nat>,
) -> Result<(), VerifyError> {
    if proof_rel != key_rel {
        Err(VerifyError::ProofInvalid)
    } else if expected_i == 0 || expected_i > MAX_STEP_LIMIT {
        Err(VerifyError::IterationMismatch)
    } else if z0.len() != key_rel.arity() || zi != final_io {
        Err(VerifyError::StateMismatch)
    } else {
        Ok(())
    }
}

/// What verification of a compressed proof answers: what `verify_spec`
/// refuses is refused with its error; any other claim stands exactly if the
/// engine's check of the argument accepts and comes back with the expected
/// final state.
pub open spec fn verify_model(
    p: Argument,
    proof_rel: R1csView,
    key_rel: R1csView,
    final_io: Seq<nat>,
    expected_i: nat,
    z0: Seq<nat>,
    zi: Seq<nat>,
) -> Result<(), VerifyError> {
    match verify_spec(proof_rel, key_rel, final_io, expected_i, z0, zi) {
        Err(e) => Err(e),
        Ok(_) => if argument_answer(
            p,
            argument_keys(keys_for(key_rel)).1,
            expected_i,
            z0,
            SECONDARY_INPUT as nat,
        ) == Some(zi) {
            Ok(())
        } else {
            Err(VerifyError::ProofInvalid)
        },
    }
}

/// What verification of a compressed proof answers once the argument has
/// been checked: the proof is accepted if the check accepted and came back
/// with the expected final state, and is invalid otherwise.
pub fn judge_proof(outcome: &Result<Vec<[u8; 32]>, NovaError>, expected_zi: &Vec<Fe>) -> (r:
    Result<(), VerifyError>)
    ensures
        r == (if accepted_with(*outcome, values(expected_zi@)) {
            Ok::<(), VerifyError>(())
        } else {
            Err::<(), VerifyError>(VerifyError::ProofInvalid)
        }),
{
    match outcome {
        Ok(b) => {
            if same_encoded(b, expected_zi) {
                Ok(())
            } else {
                Err(VerifyError::ProofInvalid)
            }
        },
        Err(_) => Err(VerifyError::ProofInvalid),
    }
}

/// Whether `proof` shows `expected_i` steps from `z0` to `zi`, by the
/// verifying key alone, exactly as `verify_model` says.
pub fn verify(
    vk: &VerifyingKey,
    proof: &CompressedProof,
    expected_i: u64,
    z0: &Vec<Fe>,
    zi: &Vec<Fe>,
) -> (r: Result<(), VerifyError>)
    ensures
        r == verify_model(
            proof.argument(),
            proof.relation_view(),
            vk.relation_view(),
            proof.final_view(),
            expected_i as nat,
            values(z0@),
            values(zi@),
        ),
{
    proof {
        use_type_invariant(vk);
        use_type_invariant(proof);
    }
    if !proof.relation.same_as(&vk.relation) {
        return Err(VerifyError::ProofInvalid);
    }
    if expected_i == 0 || expected_i > MAX_STEP_LIMIT {
        return Err(VerifyError::IterationMismatch);
    }
    assert(values(z0@).len() == z0.len());
    if z0.len() != vk.relation.arity() || !same_values(zi, &proof.final_public_io) {
        return Err(VerifyError::StateMismatch);
    }
    let outcome = argument_check(
        &proof.snark_proof,
        &vk.inner,
        expected_i as usize,
        z0,
        SECONDARY_INPUT,
    );
    judge_proof(&outcome, zi)
}

/// A state that the incremental verifier refuses for the state's own claim
/// is never compressed: compression answers with an error, whatever the key.
pub proof fn lemma_refused_state_is_not_compressed(m: StateView, key_rel: R1csView, rel: R1csView)
    requires
        crate::incremental::verify_model(
            m,
            rel,
            m.claim.steps,
            m.claim.initial,
            m.claim.current,
        ) is Err,
    ensures
        prove_model(m, key_rel, rel) is Err,
{
}

/// A compressed proof held against another final public state than the one
/// it speaks of is refused with `StateMismatch`, whatever the argument would
/// say, where the proof belongs to the key and the step count can be one.
pub proof fn lemma_other_final_state_is_refused(
    p: Argument,
    proof_rel: R1csView,
    key_rel: R1csView,
    final_io: Seq<nat>,
    expected_i: nat,
    z0: Seq<nat>,
    zi: Seq<nat>,
)
    requires
        proof_rel == key_rel,
        0 < expected_i <= MAX_STEP_LIMIT,
        zi != final_io,
    ensures
        verify_model(p, proof_rel, key_rel, final_io, expected_i, z0, zi) == Err::<
            (),
            VerifyError,
        >(VerifyError::StateMismatch),
{
}

} // verus!
