//! The step relation: a rank-1 constraint system over the primary scalar
//! field, and the layout of an assignment to its wires.
//!
//! Wire 0 is the constant one. Wires `1..=k` are the public outputs of a step,
//! wires `k+1..=2k` its public inputs, and the rest are private; `k` is the
//! arity of the relation.

use crate::field::{field_add, field_mul, same_values, values, Fe};
use vstd::prelude::*;

verus! {

/// One summand of a linear combination: a coefficient on a wire.
#[derive(Clone, Copy, Debug)]
pub struct Term {
    pub wire: usize,
    pub coeff: Fe,
}

/// A term as a wire number and the value of its coefficient.
pub struct TermView {
    pub wire: nat,
    pub coeff: nat,
}

impl View for Term {
    type V = TermView;

    open spec fn view(&self) -> TermView {
        TermView { wire: self.wire as nat, coeff: self.coeff@ }
    }
}

/// A constraint `<a, w> * <b, w> = <c, w>` on an assignment `w`.
#[derive(Debug)]
pub struct Constraint {
    pub a: Vec<Term>,
    pub b: Vec<Term>,
    pub c: Vec<Term>,
}

/// A constraint as its three linear combinations.
pub struct ConstraintView {
    pub a: Seq<TermView>,
    pub b: Seq<TermView>,
    pub c: Seq<TermView>,
}

impl View for Constraint {
    type V = ConstraintView;

    open spec fn view(&self) -> ConstraintView {
        ConstraintView { a: terms_view(self.a@), b: terms_view(self.b@), c: terms_view(self.c@) }
    }
}

/// A constraint system with its wire counts.
#[derive(Debug)]
pub struct R1cs {
    /// The constant wire, the public outputs and the public inputs.
    pub num_inputs: usize,
    /// The private wires.
    pub num_aux: usize,
    /// All wires.
    pub num_variables: usize,
    pub constraints: Vec<Constraint>,
}

/// A constraint system as its wire counts and its constraints.
pub struct R1csView {
    pub num_inputs: nat,
    pub num_aux: nat,
    pub num_variables: nat,
    pub constraints: Seq<ConstraintView>,
}

impl View for R1cs {
    type V = R1csView;

    open spec fn view(&self) -> R1csView {
        R1csView {
            num_inputs: self.num_inputs as nat,
            num_aux: self.num_aux as nat,
            num_variables: self.num_variables as nat,
            constraints: constraints_view(self.constraints@),
        }
    }
}

/// The terms of a linear combination, each by its view.
pub open spec fn terms_view(s: Seq<Term>) -> Seq<TermView> {
    Seq::new(s.len(), |i: int| s[i]@)
}

/// The constraints of a system, each by its view.
pub open spec fn constraints_view(s: Seq<Constraint>) -> Seq<ConstraintView> {
    Seq::new(s.len(), |i: int| s[i]@)
}

/// Every term names a wire below `n`.
pub open spec fn wires_below(terms: Seq<TermView>, n: nat) -> bool {
    forall|i: int| 0 <= i < terms.len() ==> (#[trigger] terms[i]).wire < n
}

/// The value on a wire under an assignment; wire 0 reads as one whatever the
/// assignment holds there.
pub open spec fn wire_value(w: Seq<nat>, wire: nat) -> nat {
    if wire == 0 {
        1
    } else {
        w[wire as int]
    }
}

/// The value of a linear combination under an assignment, in the field.
pub open spec fn lc_value(terms: Seq<TermView>, w: Seq<nat>) -> nat
    decreases terms.len(),
{
    if terms.len() == 0 {
        0
    } else {
        field_add(
            lc_value(terms.drop_last(), w),
            field_mul(terms.last().coeff, wire_value(w, terms.last().wire)),
        )
    }
}

/// Whether an assignment meets one constraint.
pub open spec fn holds(c: ConstraintView, w: Seq<nat>) -> bool {
    field_mul(lc_value(c.a, w), lc_value(c.b, w)) == lc_value(c.c, w)
}

impl R1csView {
    /// The number of public outputs of a step, which is also the number of
    /// its public inputs.
    pub open spec fn arity(self) -> nat {
        if self.num_inputs >= 1 {
            ((self.num_inputs - 1) / 2) as nat
        } else {
            0
        }
    }

    /// The wire counts agree with each other, outputs and inputs pair up, and
    /// every term names a wire of the system.
    pub open spec fn shape_ok(self) -> bool {
        &&& self.num_inputs >= 1
        &&& (self.num_inputs - 1) % 2 == 0
        &&& self.num_variables == self.num_inputs + self.num_aux
        &&& forall|i: int|
            0 <= i < self.constraints.len() ==> {
                &&& wires_below((#[trigger] self.constraints[i]).a, self.num_variables)
                &&& wires_below(self.constraints[i].b, self.num_variables)
                &&& wires_below(self.constraints[i].c, self.num_variables)
            }
    }

    /// The public outputs that an assignment carries.
    pub open spec fn outputs(self, w: Seq<nat>) -> Seq<nat> {
        w.subrange(1, 1 + self.arity() as int)
    }

    /// The public inputs that an assignment carries.
    pub open spec fn inputs(self, w: Seq<nat>) -> Seq<nat> {
        w.subrange(1 + self.arity() as int, 1 + 2 * self.arity() as int)
    }

    /// Whether an assignment meets every constraint.
    pub open spec fn satisfied(self, w: Seq<nat>) -> bool {
        forall|i: int| 0 <= i < self.constraints.len() ==> holds(#[trigger] self.constraints[i], w)
    }

    /// Whether `w` assigns every wire, starts from the public inputs `z_in`
    /// and meets every constraint.
    pub open spec fn accepts(self, z_in: Seq<nat>, w: Seq<nat>) -> bool {
        &&& w.len() == self.num_variables
        &&& self.inputs(w) == z_in
        &&& self.satisfied(w)
    }
}

fn terms_below(terms: &Vec<Term>, n: usize) -> (r: bool)
    ensures
        r == wires_below(terms_view(terms@), n as nat),
{
    let mut i: usize = 0;
    while i < terms.len()
        invariant
            i <= terms.len(),
            forall|j: int| 0 <= j < i ==> (#[trigger] terms_view(terms@)[j]).wire < n,
        decreases terms.len() - i,
    {
        if terms[i].wire >= n {
            assert(terms_view(terms@)[i as int].wire >= n);
            return false;
        }
        i += 1;
    }
    true
}

fn eval_terms(terms: &Vec<Term>, witness: &Vec<Fe>) -> (r: Fe)
    requires
        wires_below(terms_view(terms@), witness.len() as nat),
    ensures
        r@ == lc_value(terms_view(terms@), values(witness@)),
{
    let ghost tv = terms_view(terms@);
    let ghost w = values(witness@);
    let mut acc = Fe::from_u64(0);
    let mut i: usize = 0;
    while i < terms.len()
        invariant
            i <= terms.len(),
            tv == terms_view(terms@),
            w == values(witness@),
            wires_below(tv, witness.len() as nat),
            acc@ == lc_value(tv.subrange(0, i as int), w),
        decreases terms.len() - i,
    {
        let t = terms[i];
        assert(tv[i as int] == t@);
        let v = if t.wire == 0 {
            Fe::from_u64(1)
        } else {
            witness[t.wire]
        };
        assert(v@ == wire_value(w, t.wire as nat));
        let p = t.coeff.times(&v);
        acc = acc.plus(&p);
        proof {
            let next = tv.subrange(0, i + 1);
            assert(next.drop_last() =~= tv.subrange(0, i as int));
            assert(next.last() == tv[i as int]);
        }
        i += 1;
    }
    assert(tv.subrange(0, i as int) =~= tv);
    acc
}

fn constraint_holds(c: &Constraint, witness: &Vec<Fe>) -> (r: bool)
    requires
        wires_below(c@.a, witness.len() as nat),
        wires_below(c@.b, witness.len() as nat),
        wires_below(c@.c, witness.len() as nat),
    ensures
        r == holds(c@, values(witness@)),
{
    let a = eval_terms(&c.a, witness);
    let b = eval_terms(&c.b, witness);
    let rhs = eval_terms(&c.c, witness);
    a.times(&b).same(&rhs)
}

impl R1cs {
    /// The number of public outputs of a step.
    pub fn arity(&self) -> (r: usize)
        ensures
            r == self@.arity(),
    {
        if self.num_inputs >= 1 {
            (self.num_inputs - 1) / 2
        } else {
            0
        }
    }

    /// Whether the system's counts and wire indices are consistent.
    pub fn well_formed(&self) -> (r: bool)
        ensures
            r == self@.shape_ok(),
    {
        if self.num_inputs < 1 || (self.num_inputs - 1) % 2 != 0 {
            return false;
        }
        match self.num_inputs.checked_add(self.num_aux) {
            Some(n) => {
                if n != self.num_variables {
                    return false;
                }
            },
            None => {
                return false;
            },
        }
        let n = self.num_variables;
        let mut i: usize = 0;
        while i < self.constraints.len()
            invariant
                i <= self.constraints.len(),
                n == self.num_variables,
                forall|j: int|
                    0 <= j < i ==> {
                        &&& wires_below((#[trigger] self@.constraints[j]).a, n as nat)
                        &&& wires_below(self@.constraints[j].b, n as nat)
                        &&& wires_below(self@.constraints[j].c, n as nat)
                    },
            decreases self.constraints.len() - i,
        {
            let c = &self.constraints[i];
            assert(self@.constraints[i as int] == c@);
            if !(terms_below(&c.a, n) && terms_below(&c.b, n) && terms_below(&c.c, n)) {
                return false;
            }
            i += 1;
        }
        true
    }

    /// The public outputs in an assignment to every wire of a consistent
    /// system; nothing for another system or another length.
    pub fn outputs_of(&self, witness: &Vec<Fe>) -> (r: Option<Vec<Fe>>)
        ensures
            r is Some <==> self@.shape_ok() && witness.len() == self.num_variables,
            r matches Some(z) ==> values(z@) == self@.outputs(values(witness@)),
    {
        if !self.well_formed() || witness.len() != self.num_variables {
            return None;
        }
        let k = self.arity();
        let mut out: Vec<Fe> = Vec::new();
        let mut i: usize = 0;
        while i < k
            invariant
                i <= k,
                1 + k <= witness.len(),
                out@ == witness@.subrange(1, 1 + i),
            decreases k - i,
        {
            out.push(witness[1 + i]);
            assert(out@ =~= witness@.subrange(1, 2 + i));
            i += 1;
        }
        assert(values(out@) =~= self@.outputs(values(witness@)));
        Some(out)
    }

    /// The public inputs in an assignment to every wire of a consistent
    /// system; nothing for another system or another length.
    pub fn inputs_of(&self, witness: &Vec<Fe>) -> (r: Option<Vec<Fe>>)
        ensures
            r is Some <==> self@.shape_ok() && witness.len() == self.num_variables,
            r matches Some(z) ==> values(z@) == self@.inputs(values(witness@)),
    {
        if !self.well_formed() || witness.len() != self.num_variables {
            return None;
        }
        let k = self.arity();
        let mut out: Vec<Fe> = Vec::new();
        let mut i: usize = 0;
        while i < k
            invariant
                i <= k,
                1 + 2 * k <= witness.len(),
                out@ == witness@.subrange(1 + k, 1 + k + i),
            decreases k - i,
        {
            out.push(witness[1 + k + i]);
            assert(out@ =~= witness@.subrange(1 + k, 2 + k + i));
            i += 1;
        }
        assert(values(out@) =~= self@.inputs(values(witness@)));
        Some(out)
    }

    /// Whether the system is consistent and the assignment is a step of it
    /// from the public inputs `z_in`.
    pub fn accepts(&self, z_in: &Vec<Fe>, witness: &Vec<Fe>) -> (r: bool)
        ensures
            r == (self@.shape_ok() && self@.accepts(values(z_in@), values(witness@))),
    {
        let ghost w = values(witness@);
        match self.inputs_of(witness) {
            None => {
                return false;
            },
            Some(given) => {
                if !same_values(&given, z_in) {
                    return false;
                }
            },
        }
        let mut i: usize = 0;
        while i < self.constraints.len()
            invariant
                i <= self.constraints.len(),
                self@.shape_ok(),
                witness.len() == self.num_variables,
                w == values(witness@),
                forall|j: int| 0 <= j < i ==> holds(#[trigger] self@.constraints[j], w),
            decreases self.constraints.len() - i,
        {
            let c = &self.constraints[i];
            assert(self@.constraints[i as int] == c@);
            if !constraint_holds(c, witness) {
                return false;
            }
            i += 1;
        }
        true
    }
}

fn same_terms(x: &Vec<Term>, y: &Vec<Term>) -> (r: bool)
    ensures
        r == (terms_view(x@) == terms_view(y@)),
{
    if x.len() != y.len() {
        assert(terms_view(x@).len() != terms_view(y@).len());
        return false;
    }
    let mut i: usize = 0;
    while i < x.len()
        invariant
            i <= x.len(),
            x.len() == y.len(),
            forall|j: int| 0 <= j < i ==> x@[j]@ == y@[j]@,
        decreases x.len() - i,
    {
        if x[i].wire != y[i].wire || !x[i].coeff.same(&y[i].coeff) {
            assert(terms_view(x@)[i as int] != terms_view(y@)[i as int]);
            return false;
        }
        i += 1;
    }
    assert(terms_view(x@) =~= terms_view(y@));
    true
}

fn copy_terms(x: &Vec<Term>) -> (r: Vec<Term>)
    ensures
        r@ == x@,
{
    let mut out: Vec<Term> = Vec::new();
    let mut i: usize = 0;
    while i < x.len()
        invariant
            i <= x.len(),
            out@ == x@.subrange(0, i as int),
        decreases x.len() - i,
    {
        out.push(x[i]);
        assert(out@ =~= x@.subrange(0, i + 1));
        i += 1;
    }
    assert(out@ =~= x@);
    out
}

impl R1cs {
    /// Whether two systems have the same counts and the same constraints,
    /// term by term.
    pub fn same_as(&self, other: &R1cs) -> (r: bool)
        ensures
            r == (self@ == other@),
    {
        if self.num_inputs != other.num_inputs || self.num_aux != other.num_aux
            || self.num_variables != other.num_variables || self.constraints.len()
            != other.constraints.len() {
            assert(self@.constraints.len() != other@.constraints.len() || self@.num_inputs
                != other@.num_inputs || self@.num_aux != other@.num_aux || self@.num_variables
                != other@.num_variables);
            return false;
        }
        let mut i: usize = 0;
        while i < self.constraints.len()
            invariant
                i <= self.constraints.len(),
                self.constraints.len() == other.constraints.len(),
                forall|j: int| 0 <= j < i ==> self.constraints@[j]@ == other.constraints@[j]@,
            decreases self.constraints.len() - i,
        {
            let c = &self.constraints[i];
            let d = &other.constraints[i];
            if !(same_terms(&c.a, &d.a) && same_terms(&c.b, &d.b) && same_terms(&c.c, &d.c)) {
                assert(self@.constraints[i as int] == c@);
                assert(other@.constraints[i as int] == d@);
                return false;
            }
            i += 1;
        }
        assert(self@.constraints =~= other@.constraints);
        true
    }

    /// A copy of the system.
    pub fn duplicate(&self) -> (r: R1cs)
        ensures
            r@ == self@,
    {
        let mut out: Vec<Constraint> = Vec::new();
        let mut i: usize = 0;
        while i < self.constraints.len()
            invariant
                i <= self.constraints.len(),
                out.len() == i,
                forall|j: int| 0 <= j < i ==> out@[j]@ == self.constraints@[j]@,
            decreases self.constraints.len() - i,
        {
            let c = &self.constraints[i];
            out.push(Constraint { a: copy_terms(&c.a), b: copy_terms(&c.b), c: copy_terms(&c.c) });
            i += 1;
        }
        let r = R1cs {
            num_inputs: self.num_inputs,
            num_aux: self.num_aux,
            num_variables: self.num_variables,
            constraints: out,
        };
        assert(r@.constraints =~= self@.constraints);
        r
    }
}

} // verus!
