//! The folding and argument systems of `nova-snark`, reached through
//! `nova-scotia`'s circuit for constraint systems, over bn256 and grumpkin.
//!
//! Nothing in this file is proved: each contract states what the source of the
//! function it calls shows, and leaves out the inputs on which that function
//! panics.

use crate::field::{all_reduced, bytes_values, values, Fe};
use crate::relation::{R1cs, R1csView, Term};
use nova_scotia::circom::circuit::{CircomCircuit, R1CS};
use nova_scotia::{create_public_params, C1, C2, S};
use nova_snark::errors::NovaError;
use nova_snark::provider::bn256_grumpkin::{bn256, grumpkin};
use nova_snark::traits::circuit::TrivialTestCircuit;
use nova_snark::{CompressedSNARK, ProverKey, PublicParams, RecursiveSNARK, VerifierKey};
use vstd::prelude::*;

verus! {

/// `nova_snark::errors::NovaError`, carried through as it comes.
#[verifier::external_type_specification]
#[verifier::external_body]
pub struct ExNovaError(NovaError);

/// `nova_snark::PublicParams` for a step circuit over bn256 with the trivial
/// circuit over grumpkin, together with the constraint system of the step
/// circuit that they were set up for.
#[verifier::external_body]
pub struct CycleKeys {
    relation: R1CS<bn256::Scalar>,
    inner: PublicParams<bn256::Point, grumpkin::Point, C1<bn256::Point>, C2<grumpkin::Point>>,
}

/// `nova_snark::RecursiveSNARK`: the folded instances and witnesses of both
/// curves, together with the constraint system that they were folded under.
#[verifier::external_body]
pub struct Accumulator {
    relation: R1CS<bn256::Scalar>,
    inner: RecursiveSNARK<bn256::Point, grumpkin::Point, C1<bn256::Point>, C2<grumpkin::Point>>,
}

/// `nova_snark::ProverKey` of the compressing argument, together with the
/// constraint system that it was derived for.
#[verifier::external_body]
pub struct ArgumentProverKey {
    relation: R1CS<bn256::Scalar>,
    inner: ProverKey<
        bn256::Point,
        grumpkin::Point,
        C1<bn256::Point>,
        C2<grumpkin::Point>,
        S<bn256::Point>,
        S<grumpkin::Point>,
    >,
}

/// `nova_snark::VerifierKey` of the compressing argument, together with the
/// constraint system that it was derived for.
#[verifier::external_body]
pub struct ArgumentVerifierKey {
    relation: R1CS<bn256::Scalar>,
    inner: VerifierKey<
        bn256::Point,
        grumpkin::Point,
        C1<bn256::Point>,
        C2<grumpkin::Point>,
        S<bn256::Point>,
        S<grumpkin::Point>,
    >,
}

/// `nova_snark::CompressedSNARK`, together with the constraint system of the
/// state that it compresses.
#[verifier::external_body]
pub struct Argument {
    relation: R1CS<bn256::Scalar>,
    inner: CompressedSNARK<
        bn256::Point,
        grumpkin::Point,
        C1<bn256::Point>,
        C2<grumpkin::Point>,
        S<bn256::Point>,
        S<grumpkin::Point>,
    >,
}

/// The constraint system that the keys carry.
pub uninterp spec fn keys_relation(k: CycleKeys) -> R1csView;

/// The keys that `nova_scotia::create_public_params` sets up for a
/// constraint system.
pub uninterp spec fn keys_for(rel: R1csView) -> CycleKeys;

/// The numbers of constraints of the primary and of the secondary circuit
/// that `nova_snark::PublicParams::num_constraints` reports.
pub uninterp spec fn constraint_counts(k: CycleKeys) -> (nat, nat);

/// The numbers of variables of the primary and of the secondary circuit
/// that `nova_snark::PublicParams::num_variables` reports.
pub uninterp spec fn variable_counts(k: CycleKeys) -> (nat, nat);

/// The constraint system that the accumulator carries.
pub uninterp spec fn folded_under(a: Accumulator) -> R1csView;

/// The step counter of the accumulator.
pub uninterp spec fn folded_steps(a: Accumulator) -> nat;

/// The current public state of the primary circuit that the accumulator
/// holds.
pub uninterp spec fn folded_outputs(a: Accumulator) -> Seq<nat>;

/// The accumulator that `nova_snark::RecursiveSNARK::new` makes of an
/// assignment, an initial state and the input of the secondary circuit.
pub uninterp spec fn base_case(k: CycleKeys, w: Seq<nat>, z0: Seq<nat>, secondary: nat) -> Accumulator;

/// What `nova_snark::RecursiveSNARK::prove_step` makes of an accumulator: the
/// accumulator after the step, or nothing where it fails.
pub uninterp spec fn fold_answer(
    a: Accumulator,
    k: CycleKeys,
    w: Seq<nat>,
    z0: Seq<nat>,
    secondary: nat,
) -> Option<Accumulator>;

/// What `nova_snark::RecursiveSNARK::verify` answers: the current public
/// state of the primary circuit, or nothing where it refuses.
pub uninterp spec fn check_answer(
    a: Accumulator,
    k: CycleKeys,
    n: nat,
    z0: Seq<nat>,
    secondary: nat,
) -> Option<Seq<nat>>;

/// The key pair that `nova_snark::CompressedSNARK::setup` derives.
pub uninterp spec fn argument_keys(k: CycleKeys) -> (ArgumentProverKey, ArgumentVerifierKey);

/// The constraint system that the prover key carries.
pub uninterp spec fn prover_key_relation(k: ArgumentProverKey) -> R1csView;

/// The constraint system that the verifier key carries.
pub uninterp spec fn verifier_key_relation(k: ArgumentVerifierKey) -> R1csView;

/// What `nova_snark::CompressedSNARK::prove` makes of an accumulator: the
/// argument, or nothing where it fails.
pub uninterp spec fn prove_answer(k: CycleKeys, pk: ArgumentProverKey, a: Accumulator) -> Option<
    Argument,
>;

/// The constraint system that the argument carries.
pub uninterp spec fn argument_relation(p: Argument) -> R1csView;

/// The final public state of the primary circuit that the argument holds.
pub uninterp spec fn argument_outputs(p: Argument) -> Seq<nat>;

/// What `nova_snark::CompressedSNARK::verify` answers: the final public
/// state of the primary circuit, or nothing where it refuses.
pub uninterp spec fn argument_answer(
    p: Argument,
    vk: ArgumentVerifierKey,
    n: nat,
    z0: Seq<nat>,
    secondary: nat,
) -> Option<Seq<nat>>;

/// `nova_scotia::create_public_params`, on the constraint system rebuilt term
/// by term: the keys are set up for that system and keep it, and the same
/// system gives the same keys. The call indexes the circuit's wires by the
/// terms' wire numbers, so every term must name a wire of the system, and
/// the public wires must pair up.
#[verifier::external_body]
pub(crate) fn cycle_setup(relation: &R1cs) -> (k: CycleKeys)
    requires
        relation@.shape_ok(),
    ensures
        k == keys_for(relation@),
        keys_relation(k) == relation@,
{
    let lc = |t: &Vec<Term>| {
        t.iter().map(|x| (x.wire, bn256::Scalar::from_raw([x.coeff.l0, x.coeff.l1, x.coeff.l2, x.coeff.l3])))
            .collect::<Vec<_>>()
    };
    let constraints = relation.constraints.iter().map(|c| (lc(&c.a), lc(&c.b), lc(&c.c))).collect();
    let r1cs = R1CS {
        num_inputs: relation.num_inputs,
        num_aux: relation.num_aux,
        num_variables: relation.num_variables,
        constraints,
    };
    CycleKeys { inner: create_public_params(r1cs.clone()), relation: r1cs }
}

/// `nova_snark::PublicParams::num_constraints`: the numbers of constraints of
/// the two circuits that the keys were set up for.
#[verifier::external_body]
pub(crate) fn count_constraints(keys: &CycleKeys) -> (r: (usize, usize))
    ensures
        r.0 == constraint_counts(*keys).0,
        r.1 == constraint_counts(*keys).1,
{
    keys.inner.num_constraints()
}

/// `nova_snark::PublicParams::num_variables`: the numbers of variables of the
/// two circuits that the keys were set up for.
#[verifier::external_body]
pub(crate) fn count_variables(keys: &CycleKeys) -> (r: (usize, usize))
    ensures
        r.0 == variable_counts(*keys).0,
        r.1 == variable_counts(*keys).1,
{
    keys.inner.num_variables()
}

/// `nova_snark::RecursiveSNARK::new`, with the step circuit built from the
/// keys' constraint system and the assignment: the accumulator of the base
/// case, with its counter at zero and the assignment's public outputs as its
/// current state. The call reads the assignment at every wire and the
/// initial state at every index below the arity.
#[verifier::external_body]
pub(crate) fn fold_begin(keys: &CycleKeys, witness: &Vec<Fe>, z0: &Vec<Fe>, secondary: u64) -> (a:
    Accumulator)
    requires
        keys_relation(*keys).shape_ok(),
        witness.len() == keys_relation(*keys).num_variables,
        z0.len() == keys_relation(*keys).arity(),
    ensures
        a == base_case(*keys, values(witness@), values(z0@), secondary as nat),
        folded_under(a) == keys_relation(*keys),
        folded_steps(a) == 0,
        folded_outputs(a) == keys_relation(*keys).outputs(values(witness@)),
{
    let w = witness.iter().map(|e| bn256::Scalar::from_raw([e.l0, e.l1, e.l2, e.l3])).collect();
    let z = z0.iter().map(|e| bn256::Scalar::from_raw([e.l0, e.l1, e.l2, e.l3])).collect();
    let circuit = CircomCircuit { r1cs: keys.relation.clone(), witness: Some(w) };
    let second = vec![grumpkin::Scalar::from(secondary)];
    Accumulator {
        relation: keys.relation.clone(),
        inner: RecursiveSNARK::new(&keys.inner, &circuit, &TrivialTestCircuit::default(), z, second),
    }
}

/// `nova_snark::RecursiveSNARK::prove_step`, on a copy of the accumulator;
/// the accumulator handed in is left as it was. Where it succeeds the copy
/// has folded one more step under the same system. On an accumulator of the
/// base case the call only sets the counter to one and always succeeds;
/// on any other it takes the assignment's public outputs as the new current
/// state.
#[verifier::external_body]
pub(crate) fn fold_once(
    acc: &Accumulator,
    keys: &CycleKeys,
    witness: &Vec<Fe>,
    z0: &Vec<Fe>,
    secondary: u64,
) -> (r: Result<Accumulator, NovaError>)
    requires
        keys_relation(*keys).shape_ok(),
        folded_under(*acc) == keys_relation(*keys),
        folded_steps(*acc) < usize::MAX,
        witness.len() == keys_relation(*keys).num_variables,
        z0.len() == keys_relation(*keys).arity(),
    ensures
        match r {
            Ok(a) => fold_answer(*acc, *keys, values(witness@), values(z0@), secondary as nat)
                == Some(a) && folded_under(a) == folded_under(*acc) && folded_steps(a)
                == folded_steps(*acc) + 1 && folded_outputs(a) == (if folded_steps(*acc) == 0 {
                folded_outputs(*acc)
            } else {
                keys_relation(*keys).outputs(values(witness@))
            }),
            Err(_) => fold_answer(*acc, *keys, values(witness@), values(z0@), secondary as nat)
                is None,
        },
        folded_steps(*acc) == 0 ==> r is Ok,
{
    let w = witness.iter().map(|e| bn256::Scalar::from_raw([e.l0, e.l1, e.l2, e.l3])).collect();
    let z = z0.iter().map(|e| bn256::Scalar::from_raw([e.l0, e.l1, e.l2, e.l3])).collect();
    let circuit = CircomCircuit { r1cs: keys.relation.clone(), witness: Some(w) };
    let second = vec![grumpkin::Scalar::from(secondary)];
    let mut inner = acc.inner.clone();
    inner.prove_step(&keys.inner, &circuit, &TrivialTestCircuit::default(), z, second)?;
    Ok(Accumulator { relation: acc.relation.clone(), inner })
}

/// `nova_snark::RecursiveSNARK::verify`: where it accepts, the number of
/// steps is the accumulator's counter and is not zero, and what comes back
/// is the current public state that the accumulator holds for the primary
/// circuit, each element in its 32 little-endian bytes, reduced. The call
/// hashes the initial state into a sponge that is sized by the arity, and
/// holds the folded witnesses against the shapes of the keys, so the lengths
/// must agree and the accumulator must belong to the keys.
#[verifier::external_body]
pub(crate) fn fold_check(
    acc: &Accumulator,
    keys: &CycleKeys,
    num_steps: usize,
    z0: &Vec<Fe>,
    secondary: u64,
) -> (r: Result<Vec<[u8; 32]>, NovaError>)
    requires
        keys_relation(*keys).shape_ok(),
        folded_under(*acc) == keys_relation(*keys),
        z0.len() == keys_relation(*keys).arity(),
    ensures
        match r {
            Ok(b) => check_answer(*acc, *keys, num_steps as nat, values(z0@), secondary as nat)
                == Some(bytes_values(b@)) && all_reduced(b@) && bytes_values(b@) == folded_outputs(
                *acc,
            ) && num_steps == folded_steps(*acc) && num_steps > 0,
            Err(_) => check_answer(*acc, *keys, num_steps as nat, values(z0@), secondary as nat)
                is None,
        },
{
    let z: Vec<bn256::Scalar> = z0.iter().map(|e| bn256::Scalar::from_raw([e.l0, e.l1, e.l2, e.l3])).collect();
    let (zi, _) = acc.inner.verify(&keys.inner, num_steps, &z, &[grumpkin::Scalar::from(secondary)])?;
    Ok(zi.iter().map(|s| s.to_bytes()).collect())
}

/// `nova_snark::CompressedSNARK::setup`: it has no failing path; both keys
/// are derived from the given keys alone and carry their constraint system.
#[verifier::external_body]
pub(crate) fn argument_setup(keys: &CycleKeys) -> (r: Result<
    (ArgumentProverKey, ArgumentVerifierKey),
    NovaError,
>)
    requires
        keys_relation(*keys).shape_ok(),
    ensures
        r is Ok,
        r matches Ok(pair) ==> pair == argument_keys(*keys) && prover_key_relation(pair.0)
            == keys_relation(*keys) && verifier_key_relation(pair.1) == keys_relation(*keys),
{
    let (pk, vk) = CompressedSNARK::setup(&keys.inner)?;
    Ok((
        ArgumentProverKey { relation: keys.relation.clone(), inner: pk },
        ArgumentVerifierKey { relation: keys.relation.clone(), inner: vk },
    ))
}

/// `nova_snark::CompressedSNARK::prove`: where it succeeds, the argument is
/// about the accumulator's instances, holds the accumulator's current public
/// state as its final one, and carries the constraint system. The
/// inner-product argument inverts its transcript challenges and stops the
/// program on a challenge of zero, which no input is known to give.
#[verifier::external_body]
pub(crate) fn argument_prove(keys: &CycleKeys, pk: &ArgumentProverKey, acc: &Accumulator) -> (r:
    Result<Argument, NovaError>)
    requires
        keys_relation(*keys).shape_ok(),
        prover_key_relation(*pk) == keys_relation(*keys),
        folded_under(*acc) == keys_relation(*keys),
        folded_steps(*acc) > 0,
    ensures
        match r {
            Ok(p) => prove_answer(*keys, *pk, *acc) == Some(p) && argument_relation(p)
                == keys_relation(*keys) && argument_outputs(p) == folded_outputs(*acc),
            Err(_) => prove_answer(*keys, *pk, *acc) is None,
        },
{
    let inner = CompressedSNARK::prove(&keys.inner, &pk.inner, &acc.inner)?;
    Ok(Argument { relation: keys.relation.clone(), inner })
}

/// `nova_snark::CompressedSNARK::verify`: where it accepts, the number of
/// steps is not zero, and what comes back is the final public state that the
/// argument holds for the primary circuit, each element in its 32
/// little-endian bytes, reduced. The call hashes the initial state into a
/// sponge that is sized by the arity, so the lengths must agree.
#[verifier::external_body]
pub(crate) fn argument_check(
    proof: &Argument,
    vk: &ArgumentVerifierKey,
    num_steps: usize,
    z0: &Vec<Fe>,
    secondary: u64,
) -> (r: Result<Vec<[u8; 32]>, NovaError>)
    requires
        verifier_key_relation(*vk).shape_ok(),
        argument_relation(*proof) == verifier_key_relation(*vk),
        z0.len() == verifier_key_relation(*vk).arity(),
    ensures
        match r {
            Ok(b) => argument_answer(*proof, *vk, num_steps as nat, values(z0@), secondary as nat)
                == Some(bytes_values(b@)) && all_reduced(b@) && bytes_values(b@)
                == argument_outputs(*proof) && num_steps > 0,
            Err(_) => argument_answer(
                *proof,
                *vk,
                num_steps as nat,
                values(z0@),
                secondary as nat,
            ) is None,
        },
{
    let z = z0.iter().map(|e| bn256::Scalar::from_raw([e.l0, e.l1, e.l2, e.l3])).collect();
    let (zn, _) = proof.inner.verify(&vk.inner, num_steps, z, vec![grumpkin::Scalar::from(secondary)])?;
    Ok(zn.iter().map(|s| s.to_bytes()).collect())
}

} // verus!
