//! Public parameters: the commitment keys and constraint shapes of both
//! curves of the cycle, for one step relation.

use crate::backend::{
    constraint_counts, count_constraints, count_variables, cycle_setup, keys_for, keys_relation,
    variable_counts, CycleKeys,
};
use crate::cycle::CurveCycle;
use crate::errors::SetupError;
use crate::relation::{R1cs, R1csView};
use vstd::prelude::*;

verus! {

/// The largest step limit that parameters can carry.
pub const MAX_STEP_LIMIT: u64 = 0xffff_ffff;

/// The input of the secondary circuit, which takes no part in the step
/// relation.
pub const SECONDARY_INPUT: u64 = 0;

/// Parameters of one step relation over one curve cycle. They are made once
/// and only read afterwards.
pub struct PublicParams {
    pub(crate) relation: R1cs,
    pub(crate) step_limit: u64,
    pub(crate) keys: CycleKeys,
}

impl PublicParams {
    #[verifier::type_invariant]
    pub(crate) open spec fn inv(self) -> bool {
        &&& self.relation@.shape_ok()
        &&& self.keys == keys_for(self.relation@)
        &&& keys_relation(self.keys) == self.relation@
        &&& self.step_limit <= MAX_STEP_LIMIT
    }

    /// The step relation that the parameters were generated for.
    pub open(crate) spec fn relation_view(self) -> R1csView {
        self.relation@
    }

    /// The engine's keys, which the relation alone decides.
    pub open(crate) spec fn engine_keys(self) -> CycleKeys {
        self.keys
    }

    /// The number of steps that a state may hold under these parameters.
    pub open(crate) spec fn limit(self) -> nat {
        self.step_limit as nat
    }

    /// The step relation that the parameters were generated for.
    pub fn relation(&self) -> (r: &R1cs)
        ensures
            r@ == self.relation_view(),
            r@.shape_ok(),
    {
        proof {
            use_type_invariant(self);
        }
        &self.relation
    }

    /// The numbers of constraints of the primary and of the secondary
    /// circuit, each of which holds one step and the check of one fold.
    pub fn num_constraints(&self) -> (r: (usize, usize))
        ensures
            r.0 == constraint_counts(keys_for(self.relation_view())).0,
            r.1 == constraint_counts(keys_for(self.relation_view())).1,
    {
        proof {
            use_type_invariant(self);
        }
        count_constraints(&self.keys)
    }

    /// The numbers of variables of the primary and of the secondary circuit.
    pub fn num_variables(&self) -> (r: (usize, usize))
        ensures
            r.0 == variable_counts(keys_for(self.relation_view())).0,
            r.1 == variable_counts(keys_for(self.relation_view())).1,
    {
        proof {
            use_type_invariant(self);
        }
        count_variables(&self.keys)
    }

    /// The number of public inputs, and of public outputs, of one step.
    pub fn arity(&self) -> (r: usize)
        ensures
            r == self.relation_view().arity(),
    {
        self.relation.arity()
    }

    /// The number of steps that a state may hold under these parameters.
    pub fn step_limit(&self) -> (r: u64)
        ensures
            r == self.limit(),
            r <= MAX_STEP_LIMIT,
    {
        proof {
            use_type_invariant(self);
        }
        self.step_limit
    }

    /// The same parameters with another step limit, which is cut down to
    /// `MAX_STEP_LIMIT` where it is above it.
    pub fn with_step_limit(self, limit: u64) -> (r: PublicParams)
        ensures
            r.relation_view() == self.relation_view(),
            r.engine_keys() == self.engine_keys(),
            r.limit() == (if limit <= MAX_STEP_LIMIT {
                limit
            } else {
                MAX_STEP_LIMIT
            }),
    {
        proof {
            use_type_invariant(&self);
        }
        let step_limit = if limit <= MAX_STEP_LIMIT {
            limit
        } else {
            MAX_STEP_LIMIT
        };
        PublicParams { relation: self.relation, step_limit, keys: self.keys }
    }
}

/// What `generate` answers, which the relation and the cycle decide alone.
pub open spec fn generate_spec(relation: R1csView, cycle: CurveCycle) -> Result<(), SetupError> {
    if !cycle.supported() {
        Err(SetupError::UnsupportedCurveCycle)
    } else if !relation.shape_ok() {
        Err(SetupError::ShapeMismatch)
    } else {
        Ok(())
    }
}

/// Parameters for `relation` over `cycle`, with the step limit at
/// `MAX_STEP_LIMIT`.
///
/// A pair of curves other than bn256 and grumpkin is refused, then a relation
/// whose counts, arity or wire indices are inconsistent.
pub fn generate(relation: R1cs, cycle: CurveCycle) -> (r: Result<PublicParams, SetupError>)
    ensures
        match r {
            Ok(p) => generate_spec(relation@, cycle) is Ok && p.relation_view() == relation@
                && p.engine_keys() == keys_for(relation@) && p.limit() == MAX_STEP_LIMIT,
            Err(e) => generate_spec(relation@, cycle) == Err::<(), SetupError>(e),
        },
{
    if !cycle.is_supported() {
        return Err(SetupError::UnsupportedCurveCycle);
    }
    if !relation.well_formed() {
        return Err(SetupError::ShapeMismatch);
    }
    let keys = cycle_setup(&relation);
    Ok(PublicParams { relation, step_limit: MAX_STEP_LIMIT, keys })
}

} // verus!
