//! The problem to solve: the cost, its gradient and the domain, as the caller
//! supplies them.
use vstd::prelude::*;
use crate::scalar::{deterministic_arithmetic, Scalar};

verus! {

/// A differentiable cost function over a domain of parameter vectors.
///
/// Nothing is demanded of an implementation beyond the signatures. The
/// contracts of the optimiser name what the methods return through
/// [`spec_cost`], [`spec_cost_and_grad`] and [`spec_valid`], and hold whenever
/// each method is a function of its arguments (see [`deterministic_oracle`]).
pub trait BFGS<S: Scalar> {
    /// The cost at `params`.
    fn calc_cost(&self, params: &Vec<S>) -> S;

    /// The cost at `params` and its gradient there.
    fn calc_cost_and_grad(&self, params: &Vec<S>) -> (S, Vec<S>);

    /// Whether `params` lies in the domain of the cost function.
    fn params_is_valid(params: &Vec<S>) -> bool;
}

/// `r` is a cost that `problem` may report at `x`.
pub open spec fn may_cost<S: Scalar, P: BFGS<S>>(problem: &P, x: Seq<S>, r: S) -> bool {
    exists|v: Vec<S>| v@ == x && #[trigger] call_ensures(P::calc_cost, (problem, &v), r)
}

/// The cost of `problem` at `x`.
pub open spec fn spec_cost<S: Scalar, P: BFGS<S>>(problem: &P, x: Seq<S>) -> S {
    choose|r: S| may_cost(problem, x, r)
}

/// `r` is a cost and a gradient that `problem` may report at `x`.
pub open spec fn may_cost_and_grad<S: Scalar, P: BFGS<S>>(
    problem: &P,
    x: Seq<S>,
    r: (S, Seq<S>),
) -> bool {
    exists|v: Vec<S>, out: (S, Vec<S>)|
        v@ == x && out.0 == r.0 && out.1@ == r.1 && #[trigger] call_ensures(
            P::calc_cost_and_grad,
            (problem, &v),
            out,
        )
}

/// The cost of `problem` at `x` with its gradient there.
pub open spec fn spec_cost_and_grad<S: Scalar, P: BFGS<S>>(problem: &P, x: Seq<S>) -> (S, Seq<S>) {
    choose|r: (S, Seq<S>)| may_cost_and_grad(problem, x, r)
}

/// `r` is an answer that the validity predicate of `P` may give for `x`.
pub open spec fn may_be_valid<S: Scalar, P: BFGS<S>>(x: Seq<S>, r: bool) -> bool {
    exists|v: Vec<S>| v@ == x && #[trigger] call_ensures(P::params_is_valid, (&v,), r)
}

/// Whether `x` lies in the domain of `P`.
pub open spec fn spec_valid<S: Scalar, P: BFGS<S>>(x: Seq<S>) -> bool {
    choose|r: bool| may_be_valid::<S, P>(x, r)
}

/// Every method of `problem` is a function of the point it is asked about:
/// whatever a call returns is what the matching `spec_*` function names.
pub open spec fn deterministic_oracle<S: Scalar, P: BFGS<S>>(problem: &P) -> bool {
    &&& forall|v: Vec<S>, r: S| #[trigger]
        call_ensures(P::calc_cost, (problem, &v), r) ==> r == spec_cost(problem, v@)
    &&& forall|v: Vec<S>, r: (S, Vec<S>)| #[trigger]
        call_ensures(P::calc_cost_and_grad, (problem, &v), r) ==> (r.0, r.1@)
            == spec_cost_and_grad(problem, v@)
    &&& forall|v: Vec<S>, r: bool| #[trigger]
        call_ensures(P::params_is_valid, (&v,), r) ==> r == spec_valid::<S, P>(v@)
}

/// The arithmetic of `S` and the methods of `problem` are functions of their
/// arguments. Under this condition a run is determined by its inputs, and
/// the contracts of this crate say what it computes.
pub open spec fn deterministic<S: Scalar, P: BFGS<S>>(problem: &P) -> bool {
    deterministic_arithmetic::<S>() && deterministic_oracle(problem)
}

} // verus!
