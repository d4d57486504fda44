//! What holds of every run: the approximation of the inverse Hessian stays
//! symmetric, the best cost never rises, the point returned is valid, and a
//! domain that holds nothing but the starting point exhausts the first line
//! search.
use vstd::prelude::*;
use crate::config::Config;
use crate::driver::{spec_bfgs, spec_iterate, spec_run, spec_start, State};
use crate::error::{BfgsError, Termination};
use crate::line_search::{
    accepts, armijo_slope, lemma_first_accepted_is_least, first_accepted, spec_line_search,
    step_length, sufficient_decrease, trial_point,
};
use crate::matrix::is_symmetric;
use crate::problem::{spec_cost, spec_valid, BFGS};
use crate::scalar::{spec_lt, Scalar};
use crate::update::lemma_updated_inverse_hessian_is_symmetric;
use crate::vector::spec_difference;

verus! {

/// The states a run of at most `n` iterations from `s` passes through, `s`
/// first. An iteration that fails adds no state; one that stops the run adds
/// the last.
pub open spec fn spec_trace<S: Scalar, P: BFGS<S>>(
    problem: &P,
    cfg: Config<S>,
    s: State<S>,
    n: nat,
) -> Seq<State<S>>
    decreases n,
{
    if n == 0 {
        seq![s]
    } else {
        match spec_iterate(problem, cfg, s) {
            Err(_) => seq![s],
            Ok((next, Some(_))) => seq![s, next],
            Ok((next, None)) => seq![s] + spec_trace(problem, cfg, next, (n - 1) as nat),
        }
    }
}

/// `later` is `earlier` or lies below it.
pub open spec fn not_above<S: Scalar>(later: S, earlier: S) -> bool {
    later == earlier || spec_lt(later, earlier)
}

/// A run of at most `n` iterations passes through at most `n` states after
/// its first, and one that stops with a result stops in the last state of its
/// trace.
pub proof fn lemma_run_ends_its_trace<S: Scalar, P: BFGS<S>>(
    problem: &P,
    cfg: Config<S>,
    s: State<S>,
    n: nat,
)
    ensures
        1 <= spec_trace(problem, cfg, s, n).len() <= n + 1,
        spec_trace(problem, cfg, s, n)[0] == s,
        spec_run(problem, cfg, s, n) matches Ok((last, _)) ==> spec_trace(
            problem,
            cfg,
            s,
            n,
        ).last() == last,
    decreases n,
{
    if n > 0 {
        match spec_iterate(problem, cfg, s) {
            Ok((next, None)) => {
                lemma_run_ends_its_trace(problem, cfg, next, (n - 1) as nat);
            },
            _ => {},
        }
    }
}

/// A run starts with a symmetric approximation of the inverse Hessian: the
/// identity.
pub proof fn lemma_start_is_symmetric<S: Scalar, P: BFGS<S>>(
    problem: &P,
    cfg: Config<S>,
    init: Seq<S>,
)
    ensures
        spec_start(problem, cfg, init) matches Ok((s, _)) ==> is_symmetric(s.inv_hessian),
{
}

/// An iteration keeps the approximation of the inverse Hessian symmetric.
pub proof fn lemma_iterate_keeps_symmetry<S: Scalar, P: BFGS<S>>(
    problem: &P,
    cfg: Config<S>,
    s: State<S>,
)
    requires
        is_symmetric(s.inv_hessian),
    ensures
        spec_iterate(problem, cfg, s) matches Ok((next, _)) ==> is_symmetric(next.inv_hessian),
{
    match spec_line_search(problem, cfg, s.params, s.cost, s.grad, s.direction) {
        Some(q) => {
            let grad = crate::problem::spec_cost_and_grad(problem, q).1;
            lemma_updated_inverse_hessian_is_symmetric(
                s.inv_hessian,
                s.direction,
                spec_difference(grad, s.grad),
            );
        },
        None => {},
    }
}

/// The approximation of the inverse Hessian is symmetric in every state that
/// a run passes through, after every update.
pub proof fn lemma_inverse_hessian_stays_symmetric<S: Scalar, P: BFGS<S>>(
    problem: &P,
    cfg: Config<S>,
    s: State<S>,
    n: nat,
)
    requires
        is_symmetric(s.inv_hessian),
    ensures
        forall|i: int|
            0 <= i < spec_trace(problem, cfg, s, n).len() ==> is_symmetric(
                (#[trigger] spec_trace(problem, cfg, s, n)[i]).inv_hessian,
            ),
    decreases n,
{
    if n > 0 {
        lemma_iterate_keeps_symmetry(problem, cfg, s);
        match spec_iterate(problem, cfg, s) {
            Ok((next, None)) => {
                lemma_inverse_hessian_stays_symmetric(problem, cfg, next, (n - 1) as nat);
                let rest = spec_trace(problem, cfg, next, (n - 1) as nat);
                assert forall|i: int|
                    0 <= i < spec_trace(problem, cfg, s, n).len() implies is_symmetric(
                    (#[trigger] spec_trace(problem, cfg, s, n)[i]).inv_hessian,
                ) by {
                    if i > 0 {
                        assert(spec_trace(problem, cfg, s, n)[i] == rest[i - 1]);
                    }
                }
            },
            _ => {},
        }
    }
}

/// An iteration replaces the best point exactly where the new cost lies below
/// the best cost so far; otherwise the best point stays, whatever the cost of
/// the new point is.
pub proof fn lemma_iterate_tracks_the_best<S: Scalar, P: BFGS<S>>(
    problem: &P,
    cfg: Config<S>,
    s: State<S>,
)
    ensures
        spec_iterate(problem, cfg, s) matches Ok((next, _)) ==> {
            &&& spec_lt(next.cost, s.best_cost) ==> next.best_cost == next.cost
                && next.best_params == next.params
            &&& !spec_lt(next.cost, s.best_cost) ==> next.best_cost == s.best_cost
                && next.best_params == s.best_params
            &&& not_above(next.best_cost, s.best_cost)
        },
{
}

/// The best cost never rises from one state of a run to the next.
pub proof fn lemma_best_cost_never_rises<S: Scalar, P: BFGS<S>>(
    problem: &P,
    cfg: Config<S>,
    s: State<S>,
    n: nat,
)
    ensures
        forall|i: int|
            0 <= i && i + 1 < spec_trace(problem, cfg, s, n).len() ==> not_above(
                (#[trigger] spec_trace(problem, cfg, s, n)[i + 1]).best_cost,
                spec_trace(problem, cfg, s, n)[i].best_cost,
            ),
    decreases n,
{
    if n > 0 {
        lemma_iterate_tracks_the_best(problem, cfg, s);
        match spec_iterate(problem, cfg, s) {
            Ok((next, None)) => {
                lemma_best_cost_never_rises(problem, cfg, next, (n - 1) as nat);
                lemma_run_ends_its_trace(problem, cfg, next, (n - 1) as nat);
                let rest = spec_trace(problem, cfg, next, (n - 1) as nat);
                let whole = spec_trace(problem, cfg, s, n);
                assert forall|i: int| 0 <= i && i + 1 < whole.len() implies not_above(
                    (#[trigger] whole[i + 1]).best_cost,
                    whole[i].best_cost,
                ) by {
                    assert(whole[i + 1] == rest[i]);
                    if i > 0 {
                        assert(whole[i] == rest[i - 1]);
                        assert(rest[(i - 1) + 1] == rest[i]);
                    }
                }
            },
            _ => {},
        }
    }
}

/// The point that a line search accepts is valid, lowers the cost
/// sufficiently, and has as many components as the point it started from.
pub proof fn lemma_line_search_accepts_valid_points<S: Scalar, P: BFGS<S>>(
    problem: &P,
    cfg: Config<S>,
    p: Seq<S>,
    f: S,
    g: Seq<S>,
    d: Seq<S>,
)
    ensures
        spec_line_search(problem, cfg, p, f, g, d) matches Some(q) ==> {
            &&& q.len() == p.len()
            &&& spec_valid::<S, P>(q)
            &&& exists|k: nat|
                k < cfg.line_search_max_iter && q == trial_point(cfg, p, d, k)
                    && #[trigger] sufficient_decrease(
                    f,
                    spec_cost(problem, q),
                    step_length(cfg, k),
                    armijo_slope(cfg, g, d),
                )
        },
{
    lemma_first_accepted_is_least(problem, cfg, p, f, g, d, 0);
    match first_accepted(problem, cfg, p, f, g, d, 0) {
        Some(k) => {
            assert(accepts(problem, cfg, p, f, g, d, k));
            assert(sufficient_decrease(
                f,
                spec_cost(problem, trial_point(cfg, p, d, k)),
                step_length(cfg, k),
                armijo_slope(cfg, g, d),
            ));
        },
        None => {},
    }
}

/// An iteration keeps the best point valid and of the same length.
pub proof fn lemma_iterate_keeps_the_best_valid<S: Scalar, P: BFGS<S>>(
    problem: &P,
    cfg: Config<S>,
    s: State<S>,
)
    requires
        spec_valid::<S, P>(s.best_params),
        s.best_params.len() == s.params.len(),
    ensures
        spec_iterate(problem, cfg, s) matches Ok((next, _)) ==> {
            &&& spec_valid::<S, P>(next.best_params)
            &&& next.best_params.len() == s.best_params.len()
            &&& next.params.len() == s.params.len()
        },
{
    lemma_line_search_accepts_valid_points(problem, cfg, s.params, s.cost, s.grad, s.direction);
}

/// The point that a run returns is valid and has as many components as the
/// configuration says.
pub proof fn lemma_result_is_valid<S: Scalar, P: BFGS<S>>(
    problem: &P,
    cfg: Config<S>,
    init: Seq<S>,
)
    ensures
        spec_bfgs(problem, cfg, init) matches Ok((best, _)) ==> spec_valid::<S, P>(best)
            && best.len() == cfg.param_dim,
{
    match spec_start(problem, cfg, init) {
        Ok((s, None)) => {
            lemma_run_keeps_the_best_valid(problem, cfg, s, cfg.bfgs_max_iter as nat);
        },
        _ => {},
    }
}

/// A run keeps the best point valid and of the same length.
pub proof fn lemma_run_keeps_the_best_valid<S: Scalar, P: BFGS<S>>(
    problem: &P,
    cfg: Config<S>,
    s: State<S>,
    n: nat,
)
    requires
        spec_valid::<S, P>(s.best_params),
        s.best_params.len() == s.params.len(),
    ensures
        spec_run(problem, cfg, s, n) matches Ok((last, _)) ==> spec_valid::<S, P>(
            last.best_params,
        ) && last.best_params.len() == s.best_params.len(),
    decreases n,
{
    if n > 0 {
        lemma_iterate_keeps_the_best_valid(problem, cfg, s);
        match spec_iterate(problem, cfg, s) {
            Ok((next, None)) => {
                lemma_run_keeps_the_best_valid(problem, cfg, next, (n - 1) as nat);
            },
            _ => {},
        }
    }
}

/// A run that starts where the first search direction is below its tolerance
/// returns its starting point: running again from such a result changes
/// nothing.
pub proof fn lemma_run_from_a_stationary_start_returns_it<S: Scalar, P: BFGS<S>>(
    problem: &P,
    cfg: Config<S>,
    init: Seq<S>,
)
    requires
        spec_start(problem, cfg, init) matches Ok((_, Some(_))),
    ensures
        spec_bfgs(problem, cfg, init) == Ok::<(Seq<S>, Termination), BfgsError>(
            (init, Termination::SearchDirection),
        ),
{
}

/// Where the domain holds no point but the starting point, and staying at the
/// starting point is no sufficient decrease, a run that does not stop at once
/// fails in its first line search.
pub proof fn lemma_lonely_start_exhausts_line_search<S: Scalar, P: BFGS<S>>(
    problem: &P,
    cfg: Config<S>,
    init: Seq<S>,
    s: State<S>,
)
    requires
        spec_start(problem, cfg, init) == Ok::<(State<S>, Option<Termination>), BfgsError>(
            (s, None),
        ),
        cfg.bfgs_max_iter > 0,
        forall|x: Seq<S>| x != init ==> !spec_valid::<S, P>(x),
        forall|k: nat|
            k < cfg.line_search_max_iter && trial_point(cfg, init, s.direction, k) == init
                ==> !sufficient_decrease(
                s.cost,
                spec_cost(problem, init),
                #[trigger] step_length(cfg, k),
                armijo_slope(cfg, s.grad, s.direction),
            ),
    ensures
        spec_bfgs(problem, cfg, init) == Err::<(Seq<S>, Termination), BfgsError>(
            BfgsError::LineSearchExhausted,
        ),
{
    assert(s.params == init);
    assert forall|k: nat| k < cfg.line_search_max_iter implies !accepts(
        problem,
        cfg,
        s.params,
        s.cost,
        s.grad,
        s.direction,
        k,
    ) by {
        let q = trial_point(cfg, init, s.direction, k);
        if q == init {
            assert(!sufficient_decrease(
                s.cost,
                spec_cost(problem, init),
                step_length(cfg, k),
                armijo_slope(cfg, s.grad, s.direction),
            ));
        }
    }
    lemma_first_accepted_is_least(problem, cfg, s.params, s.cost, s.grad, s.direction, 0);
    assert(first_accepted(problem, cfg, s.params, s.cost, s.grad, s.direction, 0) is None);
}

} // verus!
