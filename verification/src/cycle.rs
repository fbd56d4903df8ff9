//! Pairs of curves whose scalar and base fields are swapped, so that a
//! circuit over one curve can speak about points of the other.

use crate::errors::SetupError;
use vstd::prelude::*;

verus! {

/// The prime fields that the known curves are defined over.
#[derive(Clone, Copy, Debug, PartialEq, Eq, Structural)]
pub enum PrimeField {
    Bn254Scalar,
    Bn254Base,
    PastaP,
    PastaQ,
}

/// The curves that a cycle can be made of.
#[derive(Clone, Copy, Debug, PartialEq, Eq, Structural)]
pub enum Curve {
    Bn256,
    Grumpkin,
    Pallas,
    Vesta,
}

impl Curve {
    /// The field of the scalars by which points of the curve are multiplied.
    pub open spec fn spec_scalar_field(self) -> PrimeField {
        match self {
            Curve::Bn256 => PrimeField::Bn254Scalar,
            Curve::Grumpkin => PrimeField::Bn254Base,
            Curve::Pallas => PrimeField::PastaQ,
            Curve::Vesta => PrimeField::PastaP,
        }
    }

    /// The field of the coordinates of the curve's points.
    pub open spec fn spec_base_field(self) -> PrimeField {
        match self {
            Curve::Bn256 => PrimeField::Bn254Base,
            Curve::Grumpkin => PrimeField::Bn254Scalar,
            Curve::Pallas => PrimeField::PastaP,
            Curve::Vesta => PrimeField::PastaQ,
        }
    }

    #[verifier::when_used_as_spec(spec_scalar_field)]
    pub fn scalar_field(self) -> (r: PrimeField)
        ensures
            r == self.spec_scalar_field(),
    {
        match self {
            Curve::Bn256 => PrimeField::Bn254Scalar,
            Curve::Grumpkin => PrimeField::Bn254Base,
            Curve::Pallas => PrimeField::PastaQ,
            Curve::Vesta => PrimeField::PastaP,
        }
    }

    #[verifier::when_used_as_spec(spec_base_field)]
    pub fn base_field(self) -> (r: PrimeField)
        ensures
            r == self.spec_base_field(),
    {
        match self {
            Curve::Bn256 => PrimeField::Bn254Base,
            Curve::Grumpkin => PrimeField::Bn254Scalar,
            Curve::Pallas => PrimeField::PastaP,
            Curve::Vesta => PrimeField::PastaQ,
        }
    }
}

/// A primary and a secondary curve.
#[derive(Clone, Copy, Debug, PartialEq, Eq, Structural)]
pub struct CurveCycle {
    pub primary: Curve,
    pub secondary: Curve,
}

impl CurveCycle {
    /// Each curve's scalar field is the other's base field.
    pub open spec fn is_cycle(self) -> bool {
        &&& self.primary.scalar_field() == self.secondary.base_field()
        &&& self.secondary.scalar_field() == self.primary.base_field()
    }

    /// The cycle that the folding engine works over: its step relation is
    /// stated over the scalar field of bn256.
    pub open spec fn supported(self) -> bool {
        self.primary == Curve::Bn256 && self.secondary == Curve::Grumpkin
    }

    /// The pair of the two curves, if they form a cycle.
    pub fn new(primary: Curve, secondary: Curve) -> (r: Result<CurveCycle, SetupError>)
        ensures
            r == (if (CurveCycle { primary, secondary }).is_cycle() {
                Ok::<CurveCycle, SetupError>(CurveCycle { primary, secondary })
            } else {
                Err::<CurveCycle, SetupError>(SetupError::UnsupportedCurveCycle)
            }),
    {
        if primary.scalar_field() == secondary.base_field() && secondary.scalar_field()
            == primary.base_field() {
            Ok(CurveCycle { primary, secondary })
        } else {
            Err(SetupError::UnsupportedCurveCycle)
        }
    }

    /// The cycle of bn256 and grumpkin.
    pub fn bn256_grumpkin() -> (r: CurveCycle)
        ensures
            r == (CurveCycle { primary: Curve::Bn256, secondary: Curve::Grumpkin }),
            r.is_cycle(),
            r.supported(),
    {
        CurveCycle { primary: Curve::Bn256, secondary: Curve::Grumpkin }
    }

    /// Whether the pair is the cycle that the folding engine works over.
    pub fn is_supported(&self) -> (r: bool)
        ensures
            r == self.supported(),
            r ==> self.is_cycle(),
    {
        self.primary == Curve::Bn256 && self.secondary == Curve::Grumpkin
    }
}

} // verus!
