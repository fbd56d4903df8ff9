//! The folding engine: a recursive state that accumulates one step of the
//! relation after the other.

use crate::backend::{
    base_case, fold_answer, fold_begin, fold_once, folded_outputs, folded_steps, folded_under,
    keys_for, Accumulator,
};
use crate::claim::{advance_spec, start_spec, Claim, ClaimView};
use crate::errors::{FoldError, SetupError};
use crate::field::{values, Fe};
use crate::params::{PublicParams, MAX_STEP_LIMIT, SECONDARY_INPUT};
use crate::relation::{R1cs, R1csView};
use nova_snark::errors::NovaError;
use vstd::prelude::*;

verus! {

/// The accumulator after some number of folds: its public claim, the
/// relation it was folded under, and the folded instances and witnesses of
/// both curves. A fold gives a new state and leaves the old one as it was.
pub struct RecursiveState {
    pub(crate) claim: Claim,
    pub(crate) relation: R1cs,
    pub(crate) acc: Option<Accumulator>,
}

/// A recursive state as its claim, its relation and the engine's
/// accumulator, which is absent as long as nothing is folded.
pub struct StateView {
    pub claim: ClaimView,
    pub relation: R1csView,
    pub acc: Option<Accumulator>,
}

impl RecursiveState {
    #[verifier::type_invariant]
    pub(crate) open spec fn inv(self) -> bool {
        &&& self.relation@.shape_ok()
        &&& self.claim.steps <= MAX_STEP_LIMIT
        &&& self.claim.initial.len() == self.relation@.arity()
        &&& self.claim.current.len() == self.relation@.arity()
        &&& match self.acc {
            None => self.claim.steps == 0 && self.claim@.current == self.claim@.initial,
            Some(a) => self.claim.steps >= 1 && folded_under(a) == self.relation@ && folded_steps(a)
                == self.claim.steps && folded_outputs(a) == self.claim@.current,
        }
    }

    /// The whole of the state: claim, relation and accumulator.
    pub open(crate) spec fn model(self) -> StateView {
        StateView { claim: self.claim@, relation: self.relation@, acc: self.acc }
    }

    /// The engine's accumulator, which is absent as long as nothing is
    /// folded.
    pub open(crate) spec fn accumulator(self) -> Option<Accumulator> {
        self.acc
    }

    /// The public claim of the state.
    pub open(crate) spec fn claim_view(self) -> ClaimView {
        self.claim@
    }

    /// The relation that the state was folded under.
    pub open(crate) spec fn relation_view(self) -> R1csView {
        self.relation@
    }

    /// A state before any step, from the initial public state `z0`: nothing
    /// is folded, and the current state is `z0`. A `z0` of another length than
    /// the relation's arity is refused.
    pub fn new(params: &PublicParams, z0: Vec<Fe>) -> (r: Result<RecursiveState, SetupError>)
        ensures
            match r {
                Ok(s) => z0.len() == params.relation_view().arity() && s.model() == (StateView {
                    claim: start_spec(values(z0@)),
                    relation: params.relation_view(),
                    acc: None,
                }),
                Err(e) => z0.len() != params.relation_view().arity() && e
                    == SetupError::ShapeMismatch,
            },
    {
        proof {
            use_type_invariant(params);
        }
        if z0.len() != params.relation.arity() {
            return Err(SetupError::ShapeMismatch);
        }
        Ok(RecursiveState { claim: Claim::start(z0), relation: params.relation.duplicate(), acc: None })
    }

    /// The public claim of the state.
    pub fn claim(&self) -> (r: &Claim)
        ensures
            r@ == self.claim_view(),
    {
        &self.claim
    }

    /// The number of steps folded so far.
    pub fn steps(&self) -> (r: u64)
        ensures
            r == self.claim_view().steps,
    {
        self.claim.steps
    }

    /// The initial public state.
    pub fn initial(&self) -> (r: &Vec<Fe>)
        ensures
            values(r@) == self.claim_view().initial,
    {
        &self.claim.initial
    }

    /// The current public state.
    pub fn current(&self) -> (r: &Vec<Fe>)
        ensures
            values(r@) == self.claim_view().current,
    {
        &self.claim.current
    }

    /// The relation that the state was folded under.
    pub fn relation(&self) -> (r: &R1cs)
        ensures
            r@ == self.relation_view(),
    {
        &self.relation
    }
}

/// What one fold decides before the folding engine is asked: the step is
/// refused at the step limit, then if the state was folded under another
/// relation than that of the parameters, then as a step of the claim is.
pub open spec fn step_spec(
    c: ClaimView,
    folded_rel: R1csView,
    rel: R1csView,
    limit: nat,
    w: Seq<nat>,
) -> Result<ClaimView, FoldError> {
    if c.steps >= limit {
        Err(FoldError::StepCountOverflow)
    } else if folded_rel != rel {
        Err(FoldError::ConstraintUnsatisfied)
    } else {
        advance_spec(c, rel, limit, w)
    }
}

/// What a fold answers once the folding engine has answered: the next claim
/// with the engine's accumulator if the engine folded the step, and
/// `ConstraintUnsatisfied` if it gave up.
pub fn conclude_step(next: Claim, folded: Result<Accumulator, NovaError>) -> (r: Result<
    (Claim, Accumulator),
    FoldError,
>)
    ensures
        r == (match folded {
            Ok(a) => Ok::<(Claim, Accumulator), FoldError>((next, a)),
            Err(_) => Err::<(Claim, Accumulator), FoldError>(FoldError::ConstraintUnsatisfied),
        }),
{
    match folded {
        Ok(a) => Ok((next, a)),
        Err(_) => Err(FoldError::ConstraintUnsatisfied),
    }
}

/// What the folding engine makes of one step on an accumulator: on an
/// absent one, the base case of the assignment and then its first fold.
pub open spec fn engine_step(
    acc: Option<Accumulator>,
    rel: R1csView,
    w: Seq<nat>,
    z0: Seq<nat>,
) -> Option<Accumulator> {
    let keys = keys_for(rel);
    match acc {
        Some(a) => fold_answer(a, keys, w, z0, SECONDARY_INPUT as nat),
        None => fold_answer(
            base_case(keys, w, z0, SECONDARY_INPUT as nat),
            keys,
            w,
            z0,
            SECONDARY_INPUT as nat,
        ),
    }
}

/// One fold on a whole state: what `step_spec` refuses is refused with its
/// error; a step that it lets through is folded by the engine, and is
/// `ConstraintUnsatisfied` where the engine gives up.
pub open spec fn step_model(m: StateView, rel: R1csView, limit: nat, w: Seq<nat>) -> Result<
    StateView,
    FoldError,
> {
    match step_spec(m.claim, m.relation, rel, limit, w) {
        Err(e) => Err(e),
        Ok(c) => match engine_step(m.acc, rel, w, m.claim.initial) {
            Some(a) => Ok(StateView { claim: c, relation: m.relation, acc: Some(a) }),
            None => Err(FoldError::ConstraintUnsatisfied),
        },
    }
}

/// One fold: the state after the step that `witness` assigns, under
/// `params`, exactly as `step_model` says. The state handed in is left as it
/// is, whatever the answer.
pub fn fold_step(state: &RecursiveState, params: &PublicParams, witness: &Vec<Fe>) -> (r: Result<
    RecursiveState,
    FoldError,
>)
    ensures
        match r {
            Ok(s) => step_model(
                state.model(),
                params.relation_view(),
                params.limit(),
                values(witness@),
            ) == Ok::<StateView, FoldError>(s.model()),
            Err(e) => step_model(
                state.model(),
                params.relation_view(),
                params.limit(),
                values(witness@),
            ) == Err::<StateView, FoldError>(e),
        },
{
    proof {
        use_type_invariant(state);
        use_type_invariant(params);
    }
    if state.claim.steps >= params.step_limit {
        return Err(FoldError::StepCountOverflow);
    }
    if !state.relation.same_as(&params.relation) {
        return Err(FoldError::ConstraintUnsatisfied);
    }
    let next = match state.claim.advance(&params.relation, params.step_limit, witness) {
        Ok(c) => c,
        Err(e) => {
            return Err(e);
        },
    };
    let z0 = &state.claim.initial;
    let folded = match &state.acc {
        Some(a) => fold_once(a, &params.keys, witness, z0, SECONDARY_INPUT),
        None => {
            let base = fold_begin(&params.keys, witness, z0, SECONDARY_INPUT);
            fold_once(&base, &params.keys, witness, z0, SECONDARY_INPUT)
        },
    };
    match conclude_step(next, folded) {
        Ok((claim, a)) => {
            assert(values(claim.current@).len() == claim.current.len());
            Ok(RecursiveState { claim, relation: state.relation.duplicate(), acc: Some(a) })
        },
        Err(e) => Err(e),
    }
}

/// The values of a sequence of assignments.
pub open spec fn witnesses_view(s: Seq<Vec<Fe>>) -> Seq<Seq<nat>> {
    Seq::new(s.len(), |k: int| values(s[k]@))
}

/// What a sequence of folds decides before the folding engine is asked: the
/// steps one after the other, stopping at the first that is refused.
pub open spec fn fold_spec(
    c: ClaimView,
    folded_rel: R1csView,
    rel: R1csView,
    limit: nat,
    ws: Seq<Seq<nat>>,
) -> Result<ClaimView, FoldError>
    decreases ws.len(),
{
    if ws.len() == 0 {
        Ok(c)
    } else {
        match fold_spec(c, folded_rel, rel, limit, ws.drop_last()) {
            Ok(d) => step_spec(d, folded_rel, rel, limit, ws.last()),
            Err(e) => Err(e),
        }
    }
}

/// After a sequence of folds that went through, the step count has grown by
/// exactly the number of folds, it is within the step limit, and the initial
/// state is what it was.
pub proof fn lemma_fold_counts_steps(
    c: ClaimView,
    folded_rel: R1csView,
    rel: R1csView,
    limit: nat,
    ws: Seq<Seq<nat>>,
)
    requires
        fold_spec(c, folded_rel, rel, limit, ws) is Ok,
    ensures
        fold_spec(c, folded_rel, rel, limit, ws)->Ok_0.steps == c.steps + ws.len(),
        fold_spec(c, folded_rel, rel, limit, ws)->Ok_0.initial == c.initial,
        ws.len() > 0 ==> c.steps + ws.len() <= limit && folded_rel == rel,
    decreases ws.len(),
{
    if ws.len() > 0 {
        lemma_fold_counts_steps(c, folded_rel, rel, limit, ws.drop_last());
    }
}

/// The folds of a sequence of assignments on a whole state, one after the
/// other, stopping at the first that fails.
pub open spec fn fold_model(m: StateView, rel: R1csView, limit: nat, ws: Seq<Seq<nat>>) -> Result<
    StateView,
    FoldError,
>
    decreases ws.len(),
{
    if ws.len() == 0 {
        Ok(m)
    } else {
        match fold_model(m, rel, limit, ws.drop_last()) {
            Ok(n) => step_model(n, rel, limit, ws.last()),
            Err(e) => Err(e),
        }
    }
}

/// Once a sequence of folds has failed, it stays failed with the same error
/// however it goes on.
pub proof fn lemma_failure_stays(
    m: StateView,
    rel: R1csView,
    limit: nat,
    ws: Seq<Seq<nat>>,
    k: int,
)
    requires
        0 <= k <= ws.len(),
        fold_model(m, rel, limit, ws.subrange(0, k)) is Err,
    ensures
        fold_model(m, rel, limit, ws) == fold_model(m, rel, limit, ws.subrange(0, k)),
    decreases ws.len() - k,
{
    if k == ws.len() {
        assert(ws.subrange(0, k) =~= ws);
    } else {
        assert(ws.drop_last().subrange(0, k) =~= ws.subrange(0, k));
        lemma_failure_stays(m, rel, limit, ws.drop_last(), k);
    }
}

/// The claims along a sequence of folds that went through are those that
/// `fold_spec` gives, and the relation stays what it was.
pub proof fn lemma_model_follows_claims(
    m: StateView,
    rel: R1csView,
    limit: nat,
    ws: Seq<Seq<nat>>,
)
    requires
        fold_model(m, rel, limit, ws) is Ok,
    ensures
        fold_spec(m.claim, m.relation, rel, limit, ws) == Ok::<ClaimView, FoldError>(
            fold_model(m, rel, limit, ws)->Ok_0.claim,
        ),
        fold_model(m, rel, limit, ws)->Ok_0.relation == m.relation,
    decreases ws.len(),
{
    if ws.len() > 0 {
        lemma_model_follows_claims(m, rel, limit, ws.drop_last());
    }
}

/// On a state that holds as many steps as the limit allows, or more, every
/// sequence of one fold or more fails with `StepCountOverflow`, whatever
/// the assignments and whatever the engine would do.
pub proof fn lemma_folds_at_limit(m: StateView, rel: R1csView, limit: nat, ws: Seq<Seq<nat>>)
    requires
        m.claim.steps >= limit,
        ws.len() > 0,
    ensures
        fold_model(m, rel, limit, ws) == Err::<StateView, FoldError>(FoldError::StepCountOverflow),
    decreases ws.len(),
{
    if ws.len() > 1 {
        lemma_folds_at_limit(m, rel, limit, ws.drop_last());
    } else {
        assert(fold_model(m, rel, limit, ws.drop_last()) == Ok::<StateView, FoldError>(m));
    }
}

/// The folds of a sequence of assignments, one after the other, from
/// `state` on, exactly as `fold_model` says: the first fold that fails ends
/// the sequence with its error, and no assignments give back the state.
pub fn fold_all(state: RecursiveState, params: &PublicParams, witnesses: &Vec<Vec<Fe>>) -> (r:
    Result<RecursiveState, FoldError>)
    ensures
        match r {
            Ok(s) => fold_model(
                state.model(),
                params.relation_view(),
                params.limit(),
                witnesses_view(witnesses@),
            ) == Ok::<StateView, FoldError>(s.model()),
            Err(e) => fold_model(
                state.model(),
                params.relation_view(),
                params.limit(),
                witnesses_view(witnesses@),
            ) == Err::<StateView, FoldError>(e),
        },
{
    let ghost m0 = state.model();
    let ghost rel = params.relation_view();
    let ghost limit = params.limit();
    let ghost ws = witnesses_view(witnesses@);
    let mut cur = state;
    let mut k: usize = 0;
    assert(ws.subrange(0, 0) =~= Seq::<Seq<nat>>::empty());
    while k < witnesses.len()
        invariant
            k <= witnesses.len(),
            ws == witnesses_view(witnesses@),
            m0 == state.model(),
            rel == params.relation_view(),
            limit == params.limit(),
            fold_model(m0, rel, limit, ws.subrange(0, k as int)) == Ok::<StateView, FoldError>(
                cur.model(),
            ),
        decreases witnesses.len() - k,
    {
        proof {
            let upto = ws.subrange(0, k + 1);
            assert(upto.drop_last() =~= ws.subrange(0, k as int));
            assert(upto.last() == values(witnesses@[k as int]@));
            assert(fold_model(m0, rel, limit, upto) == step_model(
                cur.model(),
                rel,
                limit,
                upto.last(),
            ));
        }
        match fold_step(&cur, params, &witnesses[k]) {
            Ok(s) => {
                cur = s;
            },
            Err(e) => {
                proof {
                    lemma_failure_stays(m0, rel, limit, ws, k + 1);
                }
                return Err(e);
            },
        }
        k += 1;
    }
    assert(ws.subrange(0, k as int) =~= ws);
    Ok(cur)
}

/// The public state after the steps that a witness generator `gen` makes
/// of the private inputs `privs`, one after the other from `z0`: each step
/// gives the public outputs of the assignment that `gen` makes of the state
/// before it and of the step's private input.
pub open spec fn trace<P>(
    rel: R1csView,
    gen: spec_fn(Seq<nat>, P) -> Seq<nat>,
    z0: Seq<nat>,
    privs: Seq<P>,
) -> Seq<nat>
    decreases privs.len(),
{
    if privs.len() == 0 {
        z0
    } else {
        rel.outputs(gen(trace(rel, gen, z0, privs.drop_last()), privs.last()))
    }
}

/// The assignments that `gen` makes along the trace of `privs` from `z0`.
pub open spec fn trace_witnesses<P>(
    rel: R1csView,
    gen: spec_fn(Seq<nat>, P) -> Seq<nat>,
    z0: Seq<nat>,
    privs: Seq<P>,
) -> Seq<Seq<nat>> {
    Seq::new(privs.len(), |k: int| gen(trace(rel, gen, z0, privs.subrange(0, k)), privs[k]))
}

/// Round trip. Where the folds of the assignments that a witness generator
/// makes of `N` private inputs from `z0` go through, the state holds `N`
/// steps from `z0`, and its current public state is exactly the `N`-fold
/// application of the step to `z0` and the private inputs.
pub proof fn lemma_round_trip<P>(
    rel: R1csView,
    limit: nat,
    gen: spec_fn(Seq<nat>, P) -> Seq<nat>,
    z0: Seq<nat>,
    privs: Seq<P>,
)
    requires
        fold_spec(start_spec(z0), rel, rel, limit, trace_witnesses(rel, gen, z0, privs)) is Ok,
    ensures
        fold_spec(start_spec(z0), rel, rel, limit, trace_witnesses(rel, gen, z0, privs))
            == Ok::<ClaimView, FoldError>(
            ClaimView { steps: privs.len(), initial: z0, current: trace(rel, gen, z0, privs) },
        ),
    decreases privs.len(),
{
    if privs.len() > 0 {
        let ws = trace_witnesses(rel, gen, z0, privs);
        let before = privs.drop_last();
        assert(ws.drop_last() =~= trace_witnesses(rel, gen, z0, before)) by {
            assert forall|k: int| 0 <= k < before.len() implies before.subrange(0, k)
                == privs.subrange(0, k) by {
                assert(before.subrange(0, k) =~= privs.subrange(0, k));
            }
        }
        assert(privs.subrange(0, privs.len() - 1) =~= before);
        lemma_round_trip(rel, limit, gen, z0, before);
    }
}

} // verus!
