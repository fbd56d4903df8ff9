use nova_demo::compress::{admissible, judge_proof, seal};
use nova_demo::cycle::{Curve, CurveCycle, PrimeField};
use nova_demo::errors::{FoldError, ProveError, SetupError, VerifyError};
use nova_demo::field::Fe;
use nova_demo::folding::conclude_step;
use nova_demo::claim::Claim;
use nova_demo::incremental::judge;
use nova_demo::params::generate;
use nova_demo::relation::{Constraint, R1cs, Term};
use nova_demo::scenario::{
    expected_output, private_inputs, run_test, start_public_input, RunError, ITERATION_COUNT,
};
use nova_snark::errors::NovaError;

fn fe(x: u64) -> Fe {
    Fe::from_u64(x)
}

fn enc(x: u64) -> [u8; 32] {
    let mut bytes = [0u8; 32];
    bytes[..8].copy_from_slice(&x.to_le_bytes());
    bytes
}

fn relation(num_inputs: usize) -> R1cs {
    R1cs {
        num_inputs,
        num_aux: 0,
        num_variables: num_inputs,
        constraints: vec![Constraint {
            a: vec![],
            b: vec![],
            c: vec![Term { wire: 1, coeff: fe(1) }, Term { wire: 2, coeff: fe(1) }],
        }],
    }
}

#[test]
fn private_inputs_count_up() {
    let inputs = private_inputs(5);
    assert_eq!(inputs.len(), 5);
    for (i, input) in inputs.iter().enumerate() {
        assert_eq!(input.name, "adder");
        assert_eq!(input.value, i as u64);
    }
    assert!(private_inputs(0).is_empty());
}

#[test]
fn the_run_goes_from_ten_ten_to_twenty_seventy() {
    assert_eq!(ITERATION_COUNT, 5);
    assert_eq!(start_public_input(), vec![fe(10), fe(10)]);
    assert_eq!(expected_output(), vec![fe(20), fe(70)]);
}

#[test]
fn a_run_needs_one_assignment_per_step() {
    let four = vec![vec![fe(1)]; 4];
    assert_eq!(
        run_test(relation(5), four).unwrap_err(),
        RunError::Fold(FoldError::WitnessGenerationError)
    );
    assert_eq!(
        run_test(relation(5), vec![]).unwrap_err(),
        RunError::Fold(FoldError::WitnessGenerationError)
    );
}

#[test]
fn a_run_needs_a_consistent_relation() {
    let five = vec![vec![fe(1)]; 5];
    assert_eq!(
        run_test(relation(4), five).unwrap_err(),
        RunError::Setup(SetupError::ShapeMismatch)
    );
}

#[test]
fn cycles_swap_their_fields() {
    assert_eq!(Curve::Bn256.scalar_field(), PrimeField::Bn254Scalar);
    assert_eq!(Curve::Grumpkin.base_field(), PrimeField::Bn254Scalar);
    assert_eq!(Curve::Grumpkin.scalar_field(), Curve::Bn256.base_field());
    assert_eq!(Curve::Pallas.scalar_field(), Curve::Vesta.base_field());
    assert_eq!(Curve::Vesta.scalar_field(), Curve::Pallas.base_field());
    assert!(CurveCycle::new(Curve::Bn256, Curve::Grumpkin).is_ok());
    assert!(CurveCycle::new(Curve::Grumpkin, Curve::Bn256).is_ok());
    assert!(CurveCycle::new(Curve::Pallas, Curve::Vesta).is_ok());
    assert_eq!(
        CurveCycle::new(Curve::Bn256, Curve::Vesta),
        Err(SetupError::UnsupportedCurveCycle)
    );
    assert_eq!(
        CurveCycle::new(Curve::Bn256, Curve::Bn256),
        Err(SetupError::UnsupportedCurveCycle)
    );
    assert_eq!(
        CurveCycle::bn256_grumpkin(),
        CurveCycle::new(Curve::Bn256, Curve::Grumpkin).unwrap()
    );
    assert!(CurveCycle::bn256_grumpkin().is_supported());
    assert!(!CurveCycle::new(Curve::Grumpkin, Curve::Bn256).unwrap().is_supported());
}

#[test]
fn parameters_are_refused_before_any_key_is_made() {
    let pasta = CurveCycle::new(Curve::Pallas, Curve::Vesta).unwrap();
    assert_eq!(
        generate(relation(5), pasta).err(),
        Some(SetupError::UnsupportedCurveCycle)
    );
    assert_eq!(
        generate(relation(4), pasta).err(),
        Some(SetupError::UnsupportedCurveCycle)
    );
    assert_eq!(
        generate(relation(4), CurveCycle::bn256_grumpkin()).err(),
        Some(SetupError::ShapeMismatch)
    );
}

#[test]
fn a_check_decides_only_with_the_expected_state() {
    let zi = vec![fe(20), fe(70)];
    assert_eq!(judge(&Ok(vec![enc(20), enc(70)]), &zi), Ok(()));
    assert_eq!(
        judge(&Ok(vec![enc(20), enc(71)]), &zi),
        Err(VerifyError::InstanceInvalid)
    );
    assert_eq!(
        judge(&Ok(vec![enc(20), enc(70), enc(0)]), &zi),
        Err(VerifyError::InstanceInvalid)
    );
    assert_eq!(
        judge(&Ok(vec![enc(20), [0xff; 32]]), &zi),
        Err(VerifyError::InstanceInvalid)
    );
    assert_eq!(
        judge(&Err(NovaError::UnSat), &zi),
        Err(VerifyError::InstanceInvalid)
    );
    assert_eq!(
        judge(&Err(NovaError::ProofVerifyError), &zi),
        Err(VerifyError::InstanceInvalid)
    );
    assert_eq!(judge_proof(&Ok(vec![enc(20), enc(70)]), &zi), Ok(()));
    assert_eq!(
        judge_proof(&Ok(vec![enc(20)]), &zi),
        Err(VerifyError::ProofInvalid)
    );
    assert_eq!(
        judge_proof(&Err(NovaError::InvalidSumcheckProof), &zi),
        Err(VerifyError::ProofInvalid)
    );
}

#[test]
fn an_invalid_state_is_not_admitted_to_compression() {
    let zi = vec![fe(20), fe(70)];
    assert_eq!(admissible(&Ok(vec![enc(20), enc(70)]), &zi), Ok(()));
    assert_eq!(
        admissible(&Ok(vec![enc(21), enc(70)]), &zi),
        Err(ProveError::CommitmentFailure)
    );
    assert_eq!(
        admissible(&Err(NovaError::UnSat), &zi),
        Err(ProveError::CommitmentFailure)
    );
}

#[test]
fn a_step_that_the_engine_gives_up_is_unsatisfied() {
    let next = Claim::start(vec![fe(1)]);
    assert_eq!(
        conclude_step(next, Err(NovaError::UnSat)).err(),
        Some(FoldError::ConstraintUnsatisfied)
    );
}

#[test]
fn an_argument_that_fails_is_a_commitment_failure() {
    assert_eq!(
        seal(Err(NovaError::InvalidIPA)).err(),
        Some(ProveError::CommitmentFailure)
    );
}
