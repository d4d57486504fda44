//! The backtracking line search: the step length starts at its initial value
//! and shrinks by a constant factor until the trial point is valid and lowers
//! the cost enough.
use vstd::prelude::*;
use crate::config::Config;
use crate::error::BfgsError;
use crate::problem::{deterministic, may_be_valid, spec_cost, spec_valid, BFGS};
use crate::scalar::{spec_lt, spec_mul, spec_neg, spec_sub, Scalar};
use crate::vector::{displaced, dot, spec_displaced, spec_dot};

verus! {

/// The step length of attempt `k`, counted from zero: the initial length
/// shrunk `k` times.
pub open spec fn step_length<S: Scalar>(cfg: Config<S>, k: nat) -> S
    decreases k,
{
    if k == 0 {
        cfg.alpha_init
    } else {
        spec_mul(step_length(cfg, (k - 1) as nat), cfg.tau)
    }
}

/// The decrease of the cost that a step of unit length along `d` must exceed:
/// `-(c * (g . d))`, where `g` is the gradient at the current point.
pub open spec fn armijo_slope<S: Scalar>(cfg: Config<S>, g: Seq<S>, d: Seq<S>) -> S {
    spec_neg(spec_mul(cfg.c, spec_dot(g, d)))
}

/// The sufficient-decrease condition for a step of length `alpha` that takes
/// the cost from `f` to `f_new`: `f - f_new > alpha * slope`.
pub open spec fn sufficient_decrease<S: Scalar>(f: S, f_new: S, alpha: S, slope: S) -> bool {
    spec_lt(spec_mul(alpha, slope), spec_sub(f, f_new))
}

/// The trial point of attempt `k`.
pub open spec fn trial_point<S: Scalar>(cfg: Config<S>, p: Seq<S>, d: Seq<S>, k: nat) -> Seq<S> {
    spec_displaced(p, d, step_length(cfg, k))
}

/// Attempt `k` succeeds: its trial point is valid and lowers the cost
/// sufficiently. The cost of a trial point that is not valid is never asked
/// for.
pub open spec fn accepts<S: Scalar, P: BFGS<S>>(
    problem: &P,
    cfg: Config<S>,
    p: Seq<S>,
    f: S,
    g: Seq<S>,
    d: Seq<S>,
    k: nat,
) -> bool {
    let q = trial_point(cfg, p, d, k);
    spec_valid::<S, P>(q) && sufficient_decrease(
        f,
        spec_cost(problem, q),
        step_length(cfg, k),
        armijo_slope(cfg, g, d),
    )
}

/// The first attempt from `from` on, below the limit of the configuration,
/// that succeeds.
pub open spec fn first_accepted<S: Scalar, P: BFGS<S>>(
    problem: &P,
    cfg: Config<S>,
    p: Seq<S>,
    f: S,
    g: Seq<S>,
    d: Seq<S>,
    from: nat,
) -> Option<nat>
    decreases cfg.line_search_max_iter - from,
{
    if from >= cfg.line_search_max_iter {
        None
    } else if accepts(problem, cfg, p, f, g, d, from) {
        Some(from)
    } else {
        first_accepted(problem, cfg, p, f, g, d, from + 1)
    }
}

/// The point that the line search from `p` along `d` accepts, if any: the
/// trial point of the first attempt that succeeds.
pub open spec fn spec_line_search<S: Scalar, P: BFGS<S>>(
    problem: &P,
    cfg: Config<S>,
    p: Seq<S>,
    f: S,
    g: Seq<S>,
    d: Seq<S>,
) -> Option<Seq<S>> {
    match first_accepted(problem, cfg, p, f, g, d, 0) {
        Some(k) => Some(trial_point(cfg, p, d, k)),
        None => None,
    }
}

/// `first_accepted` finds the least successful attempt in its range, and finds
/// none only where every attempt in the range fails.
pub proof fn lemma_first_accepted_is_least<S: Scalar, P: BFGS<S>>(
    problem: &P,
    cfg: Config<S>,
    p: Seq<S>,
    f: S,
    g: Seq<S>,
    d: Seq<S>,
    from: nat,
)
    ensures
        match first_accepted(problem, cfg, p, f, g, d, from) {
            Some(k) => {
                &&& from <= k < cfg.line_search_max_iter
                &&& accepts(problem, cfg, p, f, g, d, k)
                &&& forall|j: nat| from <= j < k ==> !accepts(problem, cfg, p, f, g, d, j)
            },
            None => forall|j: nat|
                from <= j < cfg.line_search_max_iter ==> !accepts(problem, cfg, p, f, g, d, j),
        },
    decreases cfg.line_search_max_iter - from,
{
    if from < cfg.line_search_max_iter && !accepts(problem, cfg, p, f, g, d, from) {
        lemma_first_accepted_is_least(problem, cfg, p, f, g, d, from + 1);
    }
}

/// Searches along `search_direction` from `params` for a point that is valid
/// and lowers the cost sufficiently.
///
/// At most `cfg.line_search_max_iter` step lengths are tried, each `cfg.tau`
/// times the one before. The result is the trial point of the first attempt
/// that succeeds; the search fails with `LineSearchExhausted` where none does.
pub fn backtracking_line_search<S: Scalar, P: BFGS<S>>(
    problem: &P,
    params: &Vec<S>,
    current_cost: S,
    current_grad: &Vec<S>,
    search_direction: &Vec<S>,
    cfg: &Config<S>,
) -> (r: Result<Vec<S>, BfgsError>)
    requires
        params.len() == search_direction.len(),
        current_grad.len() == search_direction.len(),
    ensures
        r matches Ok(q) ==> q.len() == params.len() && may_be_valid::<S, P>(q@, true),
        r matches Err(e) ==> e == BfgsError::LineSearchExhausted,
        deterministic(problem) ==> (match spec_line_search(
            problem,
            *cfg,
            params@,
            current_cost,
            current_grad@,
            search_direction@,
        ) {
            Some(q) => r matches Ok(v) && v@ == q,
            None => r is Err,
        }),
{
    let slope = cfg.c.mul(dot(current_grad, search_direction)).neg();
    let mut alpha = cfg.alpha_init;
    let mut k: usize = 0;
    while k < cfg.line_search_max_iter
        invariant
            k <= cfg.line_search_max_iter,
            params.len() == search_direction.len(),
            deterministic(problem) ==> {
                &&& slope == armijo_slope(*cfg, current_grad@, search_direction@)
                &&& alpha == step_length(*cfg, k as nat)
                &&& first_accepted(
                    problem,
                    *cfg,
                    params@,
                    current_cost,
                    current_grad@,
                    search_direction@,
                    0,
                ) == first_accepted(
                    problem,
                    *cfg,
                    params@,
                    current_cost,
                    current_grad@,
                    search_direction@,
                    k as nat,
                )
            },
        decreases cfg.line_search_max_iter - k,
    {
        let new_param = displaced(params, search_direction, alpha);
        if P::params_is_valid(&new_param) {
            let new_cost = problem.calc_cost(&new_param);
            if alpha.mul(slope).lt(current_cost.sub(new_cost)) {
                return Ok(new_param);
            }
        }
        alpha = alpha.mul(cfg.tau);
        k += 1;
    }
    Err(BfgsError::LineSearchExhausted)
}

} // verus!
