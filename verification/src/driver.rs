//! The optimisation driver: it sets a run up, repeats line search and update
//! until a tolerance is met or the iteration limit is reached, and keeps the
//! best point seen.
use vstd::prelude::*;
use crate::config::Config;
use crate::error::{BfgsError, Solution, Termination};
use crate::line_search::{backtracking_line_search, spec_line_search};
use crate::matrix::{is_symmetric, spec_identity, InverseHessian};
use crate::problem::{deterministic, may_be_valid, spec_cost_and_grad, spec_valid, BFGS};
use crate::scalar::{spec_lt, spec_mul, spec_sub, Scalar};
use crate::update::{spec_update, update_search_direction};
use crate::vector::{
    difference, duplicate, negated, spec_difference, spec_negated, spec_squared_l2_norm,
    squared_l2_norm,
};

verus! {

/// What a run holds between two iterations.
pub struct State<S> {
    /// The current point.
    pub params: Seq<S>,
    /// The cost at the current point.
    pub cost: S,
    /// The gradient at the current point.
    pub grad: Seq<S>,
    /// The approximation of the inverse Hessian.
    pub inv_hessian: Seq<Seq<S>>,
    /// The direction of the next line search.
    pub direction: Seq<S>,
    /// The point of lowest cost seen so far.
    pub best_params: Seq<S>,
    /// The cost at that point.
    pub best_cost: S,
}

/// A squared norm lies below the square of its tolerance.
pub open spec fn below_tolerance<S: Scalar>(squared_norm: S, tol: S) -> bool {
    spec_lt(squared_norm, spec_mul(tol, tol))
}

/// The state a run starts in, with the reason to stop at once if there is
/// one; or the failure where the starting point is refused.
///
/// The length of `init` is checked before the problem is asked anything.
/// The first search direction is the negated gradient and the first
/// approximation of the inverse Hessian the identity. A run whose first
/// search direction is below its tolerance stops with the starting point.
pub open spec fn spec_start<S: Scalar, P: BFGS<S>>(
    problem: &P,
    cfg: Config<S>,
    init: Seq<S>,
) -> Result<(State<S>, Option<Termination>), BfgsError> {
    if init.len() != cfg.param_dim {
        Err(BfgsError::DimensionMismatch)
    } else if !spec_valid::<S, P>(init) {
        Err(BfgsError::InvalidInitialParameters)
    } else {
        let (cost, grad) = spec_cost_and_grad(problem, init);
        if grad.len() != init.len() {
            Err(BfgsError::DimensionMismatch)
        } else {
            let direction = spec_negated(grad);
            let state = State {
                params: init,
                cost,
                grad,
                inv_hessian: spec_identity::<S>(init.len()),
                direction,
                best_params: init,
                best_cost: cost,
            };
            if below_tolerance(spec_squared_l2_norm(direction), cfg.tol_search) {
                Ok((state, Some(Termination::SearchDirection)))
            } else {
                Ok((state, None))
            }
        }
    }
}

/// One iteration from the state `s`: the state after it, with the reason to
/// stop if there is one; or the failure.
///
/// The line search moves the current point. The cost and the gradient are
/// taken there, and the best point is replaced where the new cost is lower.
/// The run then stops if the search direction, the decrease of the cost or
/// the new gradient is below its tolerance, the first of them in this order
/// giving the reason. Otherwise the inverse Hessian and the search direction
/// are updated.
pub open spec fn spec_iterate<S: Scalar, P: BFGS<S>>(
    problem: &P,
    cfg: Config<S>,
    s: State<S>,
) -> Result<(State<S>, Option<Termination>), BfgsError> {
    match spec_line_search(problem, cfg, s.params, s.cost, s.grad, s.direction) {
        None => Err(BfgsError::LineSearchExhausted),
        Some(q) => {
            let (cost, grad) = spec_cost_and_grad(problem, q);
            if grad.len() != q.len() {
                Err(BfgsError::DimensionMismatch)
            } else {
                let improved = spec_lt(cost, s.best_cost);
                let moved = State {
                    params: q,
                    cost,
                    grad,
                    inv_hessian: s.inv_hessian,
                    direction: s.direction,
                    best_params: if improved { q } else { s.best_params },
                    best_cost: if improved { cost } else { s.best_cost },
                };
                match Termination::spec_first_met(
                    below_tolerance(spec_squared_l2_norm(s.direction), cfg.tol_search),
                    spec_lt(spec_sub(s.cost, cost), cfg.tol_cost),
                    below_tolerance(spec_squared_l2_norm(grad), cfg.tol_grad),
                ) {
                    Some(reason) => Ok((moved, Some(reason))),
                    None => match spec_update(
                        s.direction,
                        s.inv_hessian,
                        grad,
                        spec_difference(grad, s.grad),
                    ) {
                        Err(e) => Err(e),
                        Ok((direction, inv_hessian)) => Ok(
                            (State { direction, inv_hessian, ..moved }, None),
                        ),
                    },
                }
            }
        },
    }
}

/// At most `n` iterations from the state `s`: the state in which the run
/// stops and the reason; or the failure. Reaching the limit is no failure.
pub open spec fn spec_run<S: Scalar, P: BFGS<S>>(
    problem: &P,
    cfg: Config<S>,
    s: State<S>,
    n: nat,
) -> Result<(State<S>, Termination), BfgsError>
    decreases n,
{
    if n == 0 {
        Ok((s, Termination::IterationLimit))
    } else {
        match spec_iterate(problem, cfg, s) {
            Err(e) => Err(e),
            Ok((next, Some(reason))) => Ok((next, reason)),
            Ok((next, None)) => spec_run(problem, cfg, next, (n - 1) as nat),
        }
    }
}

/// The outcome of a whole run from `init`: the best point seen and the reason
/// for stopping; or the failure.
pub open spec fn spec_bfgs<S: Scalar, P: BFGS<S>>(
    problem: &P,
    cfg: Config<S>,
    init: Seq<S>,
) -> Result<(Seq<S>, Termination), BfgsError> {
    match spec_start(problem, cfg, init) {
        Err(e) => Err(e),
        Ok((s, Some(reason))) => Ok((s.best_params, reason)),
        Ok((s, None)) => match spec_run(problem, cfg, s, cfg.bfgs_max_iter as nat) {
            Err(e) => Err(e),
            Ok((last, reason)) => Ok((last.best_params, reason)),
        },
    }
}

/// The state of a run, owned by the driver from its start to its end.
///
/// All its vectors have one length, which is the dimension of its matrix.
pub struct OptimizationState<S: Scalar> {
    params: Vec<S>,
    cost: S,
    grad: Vec<S>,
    inv_hessian: InverseHessian<S>,
    direction: Vec<S>,
    best_params: Vec<S>,
    best_cost: S,
}

impl<S: Scalar> View for OptimizationState<S> {
    type V = State<S>;

    closed spec fn view(&self) -> State<S> {
        State {
            params: self.params@,
            cost: self.cost,
            grad: self.grad@,
            inv_hessian: self.inv_hessian@,
            direction: self.direction@,
            best_params: self.best_params@,
            best_cost: self.best_cost,
        }
    }
}

impl<S: Scalar> OptimizationState<S> {
    #[verifier::type_invariant]
    spec fn well_formed(&self) -> bool {
        &&& self.grad@.len() == self.params@.len()
        &&& self.direction@.len() == self.params@.len()
        &&& self.best_params@.len() == self.params@.len()
        &&& self.inv_hessian@.len() == self.params@.len()
        &&& is_symmetric(self.inv_hessian@)
    }

    /// Sets a run up at `init`.
    ///
    /// Returns the first state, together with the reason to stop at once if
    /// the first search direction is already below its tolerance.
    pub fn start<P: BFGS<S>>(problem: &P, init: Vec<S>, cfg: &Config<S>) -> (r: Result<
        (Self, Option<Termination>),
        BfgsError,
    >)
        ensures
            init.len() != cfg.param_dim ==> (r matches Err(e) && e == BfgsError::DimensionMismatch),
            r matches Ok((state, _)) ==> {
                &&& state@.params == init@
                &&& state@.best_params == init@
                &&& state@.best_cost == state@.cost
                &&& state@.best_params.len() == cfg.param_dim
                &&& may_be_valid::<S, P>(state@.best_params, true)
                &&& is_symmetric(state@.inv_hessian)
            },
            deterministic(problem) ==> (match spec_start(problem, *cfg, init@) {
                Ok((s, reason)) => r matches Ok((state, stop)) && state@ == s && stop == reason,
                Err(e) => r matches Err(f) && f == e,
            }),
    {
        if init.len() != cfg.param_dim {
            return Err(BfgsError::DimensionMismatch);
        }
        if !P::params_is_valid(&init) {
            return Err(BfgsError::InvalidInitialParameters);
        }
        let (cost, grad) = problem.calc_cost_and_grad(&init);
        if grad.len() != init.len() {
            return Err(BfgsError::DimensionMismatch);
        }
        let direction = negated(&grad);
        let stop = if squared_l2_norm(&direction).lt(cfg.tol_search.mul(cfg.tol_search)) {
            Some(Termination::SearchDirection)
        } else {
            None
        };
        let best_params = duplicate(&init);
        let inv_hessian = InverseHessian::identity(init.len());
        let state = OptimizationState {
            params: init,
            cost,
            grad,
            inv_hessian,
            direction,
            best_params,
            best_cost: cost,
        };
        Ok((state, stop))
    }

    /// Runs one iteration: a line search, the evaluation of the new point,
    /// the tests for stopping and, unless one of them holds, the update.
    ///
    /// Returns the next state, together with the reason to stop if there is
    /// one.
    pub fn iterate<P: BFGS<S>>(self, problem: &P, cfg: &Config<S>) -> (r: Result<
        (Self, Option<Termination>),
        BfgsError,
    >)
        ensures
            r matches Ok((next, _)) ==> {
                &&& next@.best_params.len() == self@.best_params.len()
                &&& may_be_valid::<S, P>(self@.best_params, true) ==> may_be_valid::<S, P>(
                    next@.best_params,
                    true,
                )
                &&& is_symmetric(next@.inv_hessian)
                &&& (next@.best_params == self@.best_params && next@.best_cost
                    == self@.best_cost) || (next@.best_params == next@.params && next@.best_cost
                    == next@.cost)
            },
            deterministic(problem) ==> (match spec_iterate(problem, *cfg, self@) {
                Ok((s, reason)) => r matches Ok((next, stop)) && next@ == s && stop == reason,
                Err(e) => r matches Err(f) && f == e,
            }),
    {
        proof {
            use_type_invariant(&self);
        }
        let OptimizationState {
            params,
            cost,
            grad,
            inv_hessian,
            direction,
            best_params,
            best_cost,
        } = self;
        let new_params = match backtracking_line_search(
            problem,
            &params,
            cost,
            &grad,
            &direction,
            cfg,
        ) {
            Ok(q) => q,
            Err(e) => {
                return Err(e);
            },
        };
        let (new_cost, new_grad) = problem.calc_cost_and_grad(&new_params);
        if new_grad.len() != new_params.len() {
            return Err(BfgsError::DimensionMismatch);
        }
        let improved = new_cost.lt(best_cost);
        let new_best_params = if improved {
            duplicate(&new_params)
        } else {
            best_params
        };
        let new_best_cost = if improved {
            new_cost
        } else {
            best_cost
        };
        let stop = Termination::first_met(
            squared_l2_norm(&direction).lt(cfg.tol_search.mul(cfg.tol_search)),
            cost.sub(new_cost).lt(cfg.tol_cost),
            squared_l2_norm(&new_grad).lt(cfg.tol_grad.mul(cfg.tol_grad)),
        );
        if stop.is_some() {
            let next = OptimizationState {
                params: new_params,
                cost: new_cost,
                grad: new_grad,
                inv_hessian,
                direction,
                best_params: new_best_params,
                best_cost: new_best_cost,
            };
            return Ok((next, stop));
        }
        let delta_grad = difference(&new_grad, &grad);
        match update_search_direction(&direction, &inv_hessian, &new_grad, &delta_grad) {
            Err(e) => Err(e),
            Ok((new_direction, new_inv_hessian)) => {
                let next = OptimizationState {
                    params: new_params,
                    cost: new_cost,
                    grad: new_grad,
                    inv_hessian: new_inv_hessian,
                    direction: new_direction,
                    best_params: new_best_params,
                    best_cost: new_best_cost,
                };
                Ok((next, None))
            },
        }
    }

    /// The current point.
    pub fn params(&self) -> (r: &Vec<S>)
        ensures
            r@ == self@.params,
    {
        &self.params
    }

    /// The cost at the current point.
    pub fn cost(&self) -> (r: S)
        ensures
            r == self@.cost,
    {
        self.cost
    }

    /// The gradient at the current point.
    pub fn grad(&self) -> (r: &Vec<S>)
        ensures
            r@ == self@.grad,
    {
        &self.grad
    }

    /// The approximation of the inverse Hessian.
    pub fn inv_hessian(&self) -> (r: &InverseHessian<S>)
        ensures
            r@ == self@.inv_hessian,
    {
        &self.inv_hessian
    }

    /// The direction of the next line search.
    pub fn direction(&self) -> (r: &Vec<S>)
        ensures
            r@ == self@.direction,
    {
        &self.direction
    }

    /// The point of lowest cost seen so far.
    pub fn best_params(&self) -> (r: &Vec<S>)
        ensures
            r@ == self@.best_params,
    {
        &self.best_params
    }

    /// The cost at the best point.
    pub fn best_cost(&self) -> (r: S)
        ensures
            r == self@.best_cost,
    {
        self.best_cost
    }

    /// Ends the run: hands out the best point seen.
    pub fn into_best_params(self) -> (r: Vec<S>)
        ensures
            r@ == self@.best_params,
    {
        self.best_params
    }
}

/// Searches for a local minimum of the cost of `problem`, starting at `init`.
///
/// The run fails where `init` has the wrong length or is not valid, where a
/// line search finds no step, and where the curvature along a step is
/// degenerate. Otherwise it returns the best point it has seen, with the
/// reason for stopping: a tolerance that was met, or the iteration limit.
pub fn bfgs<S: Scalar, P: BFGS<S>>(problem: &P, init: Vec<S>, cfg: &Config<S>) -> (r: Result<
    Solution<S>,
    BfgsError,
>)
    ensures
        init.len() != cfg.param_dim ==> (r matches Err(e) && e == BfgsError::DimensionMismatch),
        r matches Ok(solution) ==> solution.params.len() == cfg.param_dim && may_be_valid::<S, P>(
            solution.params@,
            true,
        ),
        deterministic(problem) ==> (match spec_bfgs(problem, *cfg, init@) {
            Ok((best, reason)) => r matches Ok(solution) && solution.params@ == best
                && solution.termination == reason,
            Err(e) => r matches Err(f) && f == e,
        }),
{
    let (first, stop) = match OptimizationState::start(problem, init, cfg) {
        Ok(started) => started,
        Err(e) => {
            return Err(e);
        },
    };
    if let Some(reason) = stop {
        return Ok(Solution { params: first.into_best_params(), termination: reason });
    }
    let ghost start = first@;
    let mut state = first;
    let mut i: usize = 0;
    while i < cfg.bfgs_max_iter
        invariant
            i <= cfg.bfgs_max_iter,
            init.len() == cfg.param_dim,
            state@.best_params.len() == cfg.param_dim,
            may_be_valid::<S, P>(state@.best_params, true),
            deterministic(problem) ==> spec_start(problem, *cfg, init@) == Ok::<
                (State<S>, Option<Termination>),
                BfgsError,
            >((start, None)),
            deterministic(problem) ==> spec_run(problem, *cfg, start, cfg.bfgs_max_iter as nat)
                == spec_run(problem, *cfg, state@, (cfg.bfgs_max_iter - i) as nat),
        decreases cfg.bfgs_max_iter - i,
    {
        match state.iterate(problem, cfg) {
            Err(e) => {
                return Err(e);
            },
            Ok((next, Some(reason))) => {
                return Ok(Solution { params: next.into_best_params(), termination: reason });
            },
            Ok((next, None)) => {
                state = next;
            },
        }
        i += 1;
    }
    Ok(Solution { params: state.into_best_params(), termination: Termination::IterationLimit })
}

} // verus!
