//! What each operation of the library can fail with.

use vstd::prelude::*;

verus! {

/// Failures of parameter and key generation.
#[derive(Clone, Copy, Debug, PartialEq, Eq, Structural)]
pub enum SetupError {
    /// The relation's counts, arity or wire indices are inconsistent, or a
    /// state of another arity was given.
    ShapeMismatch,
    /// The two curves do not form a cycle that the folding engine works over.
    UnsupportedCurveCycle,
}

/// Failures of one fold step.
#[derive(Clone, Copy, Debug, PartialEq, Eq, Structural)]
pub enum FoldError {
    /// What the witness generator handed over is not an assignment to the
    /// wires of the relation.
    WitnessGenerationError,
    /// The assignment does not continue the folded state or breaks a
    /// constraint, or the folding engine itself gave up on it.
    ConstraintUnsatisfied,
    /// The state already holds as many steps as the parameters allow.
    StepCountOverflow,
}

/// Failures of verification, of a folded state or of a compressed proof.
#[derive(Clone, Copy, Debug, PartialEq, Eq, Structural)]
pub enum VerifyError {
    /// The claimed number of steps is not the number that was folded.
    IterationMismatch,
    /// The claimed initial or final public state is not the recorded one.
    StateMismatch,
    /// The folded instances do not stand up to the check of their openings,
    /// or were folded under other parameters.
    InstanceInvalid,
    /// The succinct argument does not verify against the claim.
    ProofInvalid,
}

/// Failures of compression.
#[derive(Clone, Copy, Debug, PartialEq, Eq, Structural)]
pub enum ProveError {
    /// The proving key or the folded state belongs to other parameters.
    KeyMismatch,
    /// The folded state holds nothing to open, does not stand up to the
    /// incremental check, or the argument system gave up on it.
    CommitmentFailure,
}

} // verus!
