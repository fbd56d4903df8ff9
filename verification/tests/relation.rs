use nova_demo::claim::Claim;
use nova_demo::errors::{FoldError, VerifyError};
use nova_demo::field::{copy_values, same_values, Fe};
use nova_demo::relation::{Constraint, R1cs, Term};

const P0: u64 = 0x43e1f593f0000001;
const P1: u64 = 0x2833e84879b97091;
const P2: u64 = 0xb85045b68181585d;
const P3: u64 = 0x30644e72e131a029;

fn fe(x: u64) -> Fe {
    Fe::from_u64(x)
}

fn minus_one() -> Fe {
    Fe::from_limbs([P0 - 1, P1, P2, P3]).unwrap()
}

/// out[0] = in[0] + adder, out[1] = in[0] + in[1], with the adder wire
/// substituted away: one linear constraint on out[1].
fn adder_relation() -> R1cs {
    R1cs {
        num_inputs: 5,
        num_aux: 0,
        num_variables: 5,
        constraints: vec![Constraint {
            a: vec![],
            b: vec![],
            c: vec![
                Term { wire: 2, coeff: minus_one() },
                Term { wire: 3, coeff: fe(1) },
                Term { wire: 4, coeff: fe(1) },
            ],
        }],
    }
}

/// a * b = c on private wires, with one public output and one public input:
/// out = in * in.
fn square_relation() -> R1cs {
    R1cs {
        num_inputs: 3,
        num_aux: 0,
        num_variables: 3,
        constraints: vec![Constraint {
            a: vec![Term { wire: 2, coeff: fe(1) }],
            b: vec![Term { wire: 2, coeff: fe(1) }],
            c: vec![Term { wire: 1, coeff: fe(1) }],
        }],
    }
}

fn adder_witness(z: &[Fe], adder: u64) -> Vec<Fe> {
    vec![fe(1), z[0].plus(&fe(adder)), z[0].plus(&z[1]), z[0], z[1]]
}

#[test]
fn shape_of_the_adder_relation() {
    let r = adder_relation();
    assert!(r.well_formed());
    assert_eq!(r.arity(), 2);
    assert!(r.same_as(&r.duplicate()));
    assert!(!r.same_as(&square_relation()));
}

#[test]
fn inconsistent_shapes_are_told() {
    let mut even = adder_relation();
    even.num_inputs = 4;
    even.num_aux = 1;
    assert!(!even.well_formed());
    let mut count = adder_relation();
    count.num_variables = 6;
    assert!(!count.well_formed());
    let mut wire = adder_relation();
    wire.constraints[0].c[0].wire = 5;
    assert!(!wire.well_formed());
    let mut none = adder_relation();
    none.num_inputs = 0;
    none.num_variables = 0;
    assert!(!none.well_formed());
    assert_eq!(none.arity(), 0);
    let mut huge = adder_relation();
    huge.num_aux = usize::MAX;
    assert!(!huge.well_formed());
}

#[test]
fn layout_of_an_assignment() {
    let r = adder_relation();
    let w = adder_witness(&[fe(10), fe(20)], 1);
    assert_eq!(r.outputs_of(&w), Some(vec![fe(11), fe(30)]));
    assert_eq!(r.inputs_of(&w), Some(vec![fe(10), fe(20)]));
    assert_eq!(r.outputs_of(&w[..4].to_vec()), None);
    let mut bad = adder_relation();
    bad.num_inputs = 4;
    assert_eq!(bad.outputs_of(&w), None);
    assert_eq!(bad.inputs_of(&w), None);
}

#[test]
fn accepts_only_steps_of_the_relation() {
    let r = adder_relation();
    let z = vec![fe(10), fe(20)];
    let w = adder_witness(&z, 1);
    assert!(r.accepts(&z, &w));
    assert!(!r.accepts(&vec![fe(10), fe(21)], &w));
    let mut broken = copy_values(&w);
    broken[2] = fe(31);
    assert!(!r.accepts(&z, &broken));
    let mut free = copy_values(&w);
    free[1] = fe(99);
    assert!(r.accepts(&z, &free));
    assert!(!r.accepts(&z, &w[..4].to_vec()));
}

#[test]
fn products_are_checked_in_the_field() {
    let r = square_relation();
    assert!(r.accepts(&vec![fe(7)], &vec![fe(1), fe(49), fe(7)]));
    assert!(!r.accepts(&vec![fe(7)], &vec![fe(1), fe(48), fe(7)]));
    assert!(r.accepts(&vec![minus_one()], &vec![fe(1), fe(1), minus_one()]));
    assert!(r.accepts(&vec![fe(7)], &vec![fe(0), fe(49), fe(7)]));
}

#[test]
fn five_steps_from_ten_ten() {
    let r = adder_relation();
    let z0 = vec![fe(10), fe(10)];
    let mut claim = Claim::start(copy_values(&z0));
    let expected = [(10, 20), (11, 30), (13, 41), (16, 54), (20, 70)];
    for i in 0..5u64 {
        let w = adder_witness(&claim.current, i);
        claim = claim.advance(&r, 100, &w).unwrap();
        assert_eq!(claim.steps, i + 1);
        let (a, b) = expected[i as usize];
        assert_eq!(claim.current, vec![fe(a), fe(b)]);
        assert_eq!(claim.initial, z0);
    }
    assert_eq!(claim.matches(5, &z0, &vec![fe(20), fe(70)]), Ok(()));
    assert_eq!(
        claim.matches(5, &z0, &vec![fe(20), fe(71)]),
        Err(VerifyError::StateMismatch)
    );
    assert_eq!(
        claim.matches(5, &vec![fe(10), fe(11)], &vec![fe(20), fe(70)]),
        Err(VerifyError::StateMismatch)
    );
    assert_eq!(
        claim.matches(4, &z0, &vec![fe(20), fe(70)]),
        Err(VerifyError::IterationMismatch)
    );
    assert_eq!(
        claim.matches(6, &z0, &vec![fe(20), fe(71)]),
        Err(VerifyError::IterationMismatch)
    );
}

#[test]
fn steps_are_refused_in_order() {
    let r = adder_relation();
    let z0 = vec![fe(10), fe(10)];
    let claim = Claim::start(copy_values(&z0));
    let w = adder_witness(&z0, 0);
    assert_eq!(
        claim.advance(&r, 0, &w[..3].to_vec()).unwrap_err(),
        FoldError::StepCountOverflow
    );
    assert_eq!(
        claim.advance(&r, 1, &w[..3].to_vec()).unwrap_err(),
        FoldError::WitnessGenerationError
    );
    let mut bad = adder_relation();
    bad.num_variables = 7;
    assert_eq!(
        claim.advance(&bad, 1, &w).unwrap_err(),
        FoldError::WitnessGenerationError
    );
    let elsewhere = adder_witness(&[fe(11), fe(10)], 0);
    assert_eq!(
        claim.advance(&r, 1, &elsewhere).unwrap_err(),
        FoldError::ConstraintUnsatisfied
    );
    let mut broken = copy_values(&w);
    broken[2] = fe(21);
    assert_eq!(
        claim.advance(&r, 1, &broken).unwrap_err(),
        FoldError::ConstraintUnsatisfied
    );
    let next = claim.advance(&r, 1, &w).unwrap();
    assert_eq!(next.steps, 1);
    assert_eq!(claim.steps, 0);
    assert!(same_values(&claim.current, &z0));
    assert_eq!(
        next.advance(&r, 1, &adder_witness(&next.current, 1)).unwrap_err(),
        FoldError::StepCountOverflow
    );
    assert_eq!(next.steps, 1);
}

#[test]
fn a_fresh_claim_stands_at_its_initial_state() {
    let z0 = vec![fe(3), fe(4)];
    let claim = Claim::start(copy_values(&z0));
    assert_eq!(claim.steps, 0);
    assert_eq!(claim.matches(0, &z0, &z0), Ok(()));
    assert_eq!(
        claim.matches(0, &z0, &vec![fe(3)]),
        Err(VerifyError::StateMismatch)
    );
}
