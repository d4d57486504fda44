use bfgs::line_search::backtracking_line_search;
use bfgs::matrix::InverseHessian;
use bfgs::update::{search_direction_of, update_search_direction};
use bfgs::vector::{difference, displaced, dot, duplicate, negated, squared_l2_norm};
use bfgs::{
    bfgs, BfgsError, Config, OptimizationState, Scalar, Termination, BFGS,
    DEFAULT_BFGS_MAX_ITER, DEFAULT_LINE_SEARCH_MAX_ITER,
};

#[derive(Clone, Copy, Debug, PartialEq)]
struct Num(f64);

impl Scalar for Num {
    fn zero() -> Self {
        Num(0.0)
    }
    fn one() -> Self {
        Num(1.0)
    }
    fn add(self, rhs: Self) -> Self {
        Num(self.0 + rhs.0)
    }
    fn sub(self, rhs: Self) -> Self {
        Num(self.0 - rhs.0)
    }
    fn mul(self, rhs: Self) -> Self {
        Num(self.0 * rhs.0)
    }
    fn div(self, rhs: Self) -> Self {
        Num(self.0 / rhs.0)
    }
    fn neg(self) -> Self {
        Num(-self.0)
    }
    fn lt(self, rhs: Self) -> bool {
        self.0 < rhs.0
    }
    fn is_finite(self) -> bool {
        self.0.is_finite()
    }
}

fn nums(values: &[f64]) -> Vec<Num> {
    values.iter().map(|v| Num(*v)).collect()
}

fn plain(values: &[Num]) -> Vec<f64> {
    values.iter().map(|v| v.0).collect()
}

fn entries(h: &InverseHessian<Num>) -> Vec<Vec<f64>> {
    let n = h.dim();
    (0..n).map(|i| (0..n).map(|j| h.get(i, j).0).collect()).collect()
}

fn is_symmetric(h: &InverseHessian<Num>) -> bool {
    let m = entries(h);
    (0..m.len()).all(|i| (0..m.len()).all(|j| m[i][j] == m[j][i]))
}

fn config(param_dim: usize) -> Config<Num> {
    Config::new(param_dim, Num(1.0), Num(0.5), Num(1e-4), Num(1e-5), Num(4e-8), Num(1e-10))
}

/// The squared distance to (10, -7), valid at every finite point.
struct Bowl;

impl BFGS<Num> for Bowl {
    fn calc_cost(&self, params: &Vec<Num>) -> Num {
        let (a, b) = (10.0 - params[0].0, -7.0 - params[1].0);
        Num(a * a + b * b)
    }

    fn calc_cost_and_grad(&self, params: &Vec<Num>) -> (Num, Vec<Num>) {
        let grad = nums(&[2.0 * params[0].0 - 20.0, 2.0 * params[1].0 + 14.0]);
        (self.calc_cost(params), grad)
    }

    fn params_is_valid(params: &Vec<Num>) -> bool {
        params.iter().all(|p| p.0.is_finite())
    }
}

/// The square of one parameter, valid at every finite point.
struct Square;

impl BFGS<Num> for Square {
    fn calc_cost(&self, params: &Vec<Num>) -> Num {
        Num(params[0].0 * params[0].0)
    }

    fn calc_cost_and_grad(&self, params: &Vec<Num>) -> (Num, Vec<Num>) {
        (self.calc_cost(params), nums(&[2.0 * params[0].0]))
    }

    fn params_is_valid(params: &Vec<Num>) -> bool {
        params.iter().all(|p| p.0.is_finite())
    }
}

/// The squared distance to 4, on the domain of numbers up to 5.
struct Capped;

impl BFGS<Num> for Capped {
    fn calc_cost(&self, params: &Vec<Num>) -> Num {
        let a = params[0].0 - 4.0;
        Num(a * a)
    }

    fn calc_cost_and_grad(&self, params: &Vec<Num>) -> (Num, Vec<Num>) {
        (self.calc_cost(params), nums(&[2.0 * params[0].0 - 8.0]))
    }

    fn params_is_valid(params: &Vec<Num>) -> bool {
        params[0].0 <= 5.0
    }
}

/// A cost that falls very slowly, valid at every finite point.
struct Plain;

impl BFGS<Num> for Plain {
    fn calc_cost(&self, params: &Vec<Num>) -> Num {
        Num(1e-12 * params[0].0)
    }

    fn calc_cost_and_grad(&self, params: &Vec<Num>) -> (Num, Vec<Num>) {
        (self.calc_cost(params), nums(&[1e-12]))
    }

    fn params_is_valid(params: &Vec<Num>) -> bool {
        params.iter().all(|p| p.0.is_finite())
    }
}

/// The Rosenbrock function, valid at every finite point.
struct Valley;

impl BFGS<Num> for Valley {
    fn calc_cost(&self, params: &Vec<Num>) -> Num {
        let (x, y) = (params[0].0, params[1].0);
        Num((1.0 - x) * (1.0 - x) + 100.0 * ((y - x * x) * (y - x * x)))
    }

    fn calc_cost_and_grad(&self, params: &Vec<Num>) -> (Num, Vec<Num>) {
        let (x, y) = (params[0].0, params[1].0);
        let grad = nums(&[-2.0 * (1.0 - x) - 400.0 * x * (y - x * x), 200.0 * (y - x * x)]);
        (self.calc_cost(params), grad)
    }

    fn params_is_valid(params: &Vec<Num>) -> bool {
        params.iter().all(|p| p.0.is_finite())
    }
}

#[test]
fn squared_norm_of_three_four() {
    assert_eq!(squared_l2_norm(&nums(&[3.0, 4.0])), Num(25.0));
    assert_eq!(squared_l2_norm(&nums(&[])), Num(0.0));
}

#[test]
fn inner_product_sums_the_products() {
    assert_eq!(dot(&nums(&[1.0, 2.0, 3.0]), &nums(&[4.0, -5.0, 6.0])), Num(12.0));
}

#[test]
fn inner_product_sums_from_the_first_component() {
    // (1e16 + 1) + (-1e16) is 0 in double precision, but 1 + (1e16 - 1e16) is 1.
    let ones = nums(&[1.0, 1.0, 1.0]);
    assert_eq!(dot(&nums(&[1e16, 1.0, -1e16]), &ones), Num(0.0));
    assert_eq!(dot(&nums(&[1e16, -1e16, 1.0]), &ones), Num(1.0));
}

#[test]
fn elementwise_operations() {
    assert_eq!(plain(&negated(&nums(&[1.0, -2.0]))), vec![-1.0, 2.0]);
    assert_eq!(plain(&difference(&nums(&[5.0, 1.0]), &nums(&[2.0, 4.0]))), vec![3.0, -3.0]);
    assert_eq!(
        plain(&displaced(&nums(&[3.5, 20.0]), &nums(&[13.0, -54.0]), Num(0.5))),
        vec![10.0, -7.0]
    );
    assert_eq!(plain(&duplicate(&nums(&[1.5, 2.5]))), vec![1.5, 2.5]);
}

#[test]
fn identity_matrix() {
    let h = InverseHessian::<Num>::identity(3);
    assert_eq!(h.dim(), 3);
    assert_eq!(
        entries(&h),
        vec![vec![1.0, 0.0, 0.0], vec![0.0, 1.0, 0.0], vec![0.0, 0.0, 1.0]]
    );
    assert_eq!(plain(&h.apply(&nums(&[2.0, -3.0, 4.0]))), vec![2.0, -3.0, 4.0]);
    assert_eq!(InverseHessian::<Num>::identity(0).dim(), 0);
}

#[test]
fn update_of_the_identity() {
    let h = InverseHessian::<Num>::identity(2);
    let (direction, updated) =
        update_search_direction(&nums(&[2.0, 0.0]), &h, &nums(&[4.0, 6.0]), &nums(&[1.0, 1.0]))
            .unwrap();
    assert_eq!(entries(&updated), vec![vec![3.0, -1.0], vec![-1.0, 1.0]]);
    assert_eq!(plain(&direction), vec![-4.0, -6.0]);
}

#[test]
fn direction_comes_from_the_matrix_before_the_update() {
    let h = InverseHessian::<Num>::identity(2);
    let (_, updated) =
        update_search_direction(&nums(&[2.0, 0.0]), &h, &nums(&[4.0, 6.0]), &nums(&[1.0, 1.0]))
            .unwrap();
    // updated is [[3, -1], [-1, 1]]
    let (direction, again) = update_search_direction(
        &nums(&[1.0, 1.0]),
        &updated,
        &nums(&[1.0, 2.0]),
        &nums(&[2.0, 2.0]),
    )
    .unwrap();
    assert_eq!(plain(&direction), vec![-1.0, -1.0]);
    assert_eq!(plain(&search_direction_of(&updated, &nums(&[1.0, 2.0]))), vec![-1.0, -1.0]);
    // v = (4, 0), c1 = 1/4, c2 = 1 + 8/4 = 3
    assert_eq!(entries(&again), vec![vec![1.75, -1.25], vec![-1.25, 1.75]]);
    assert!(is_symmetric(&again));
}

#[test]
fn update_refuses_a_zero_curvature() {
    let h = InverseHessian::<Num>::identity(2);
    let r = update_search_direction(&nums(&[1.0, 0.0]), &h, &nums(&[1.0, 1.0]), &nums(&[0.0, 1.0]));
    assert_eq!(r.err(), Some(BfgsError::DegenerateCurvature));
}

#[test]
fn update_refuses_a_curvature_that_is_not_finite() {
    let h = InverseHessian::<Num>::identity(2);
    let grad = nums(&[1.0, 1.0]);
    let d = nums(&[1.0, 0.0]);
    let infinite = update_search_direction(&d, &h, &grad, &nums(&[f64::INFINITY, 0.0]));
    assert_eq!(infinite.err(), Some(BfgsError::DegenerateCurvature));
    let undefined = update_search_direction(&d, &h, &grad, &nums(&[f64::NAN, 0.0]));
    assert_eq!(undefined.err(), Some(BfgsError::DegenerateCurvature));
}

#[test]
fn update_takes_a_negative_curvature() {
    let h = InverseHessian::<Num>::identity(1);
    let (_, updated) =
        update_search_direction(&nums(&[2.0]), &h, &nums(&[1.0]), &nums(&[-1.0])).unwrap();
    // v = -1, c1 = -1/2, c2 = 1 - 1/2 = 1/2: 1 - (1/2 * 4 + 4) / 2 = -2
    assert_eq!(entries(&updated), vec![vec![-2.0]]);
}

#[test]
fn line_search_halves_the_step_once() {
    let r = backtracking_line_search(
        &Bowl,
        &nums(&[3.5, 20.0]),
        Num(771.25),
        &nums(&[-13.0, 54.0]),
        &nums(&[13.0, -54.0]),
        &config(2),
    );
    assert_eq!(plain(&r.unwrap()), vec![10.0, -7.0]);
}

#[test]
fn line_search_gives_up_at_its_limit() {
    let mut cfg = config(2);
    cfg.line_search_max_iter = 1;
    let r = backtracking_line_search(
        &Bowl,
        &nums(&[3.5, 20.0]),
        Num(771.25),
        &nums(&[-13.0, 54.0]),
        &nums(&[13.0, -54.0]),
        &cfg,
    );
    assert_eq!(r.err(), Some(BfgsError::LineSearchExhausted));
    cfg.line_search_max_iter = 0;
    let r = backtracking_line_search(
        &Bowl,
        &nums(&[3.5, 20.0]),
        Num(771.25),
        &nums(&[-13.0, 54.0]),
        &nums(&[13.0, -54.0]),
        &cfg,
    );
    assert_eq!(r.err(), Some(BfgsError::LineSearchExhausted));
}

#[test]
fn line_search_shrinks_past_points_that_are_not_valid() {
    let r = backtracking_line_search(
        &Capped,
        &nums(&[0.0]),
        Num(16.0),
        &nums(&[-8.0]),
        &nums(&[8.0]),
        &config(1),
    );
    assert_eq!(plain(&r.unwrap()), vec![4.0]);
}

#[test]
fn line_search_uses_the_shrink_factor() {
    let mut cfg = config(1);
    cfg.tau = Num(0.25);
    let r = backtracking_line_search(
        &Capped,
        &nums(&[0.0]),
        Num(16.0),
        &nums(&[-8.0]),
        &nums(&[8.0]),
        &cfg,
    );
    // 8 is not valid; 0 + 8 * 0.25 = 2
    assert_eq!(plain(&r.unwrap()), vec![2.0]);
}

#[test]
fn line_search_needs_a_sufficient_decrease() {
    // From 0 along 8 the step 1/2 lowers the cost by 16, which must exceed
    // 1/2 * c * 64. The step 1/4 lowers it by 12, which must exceed 1/4 * c * 64.
    let mut cfg = config(1);
    cfg.c = Num(0.4375);
    let r = backtracking_line_search(
        &Capped,
        &nums(&[0.0]),
        Num(16.0),
        &nums(&[-8.0]),
        &nums(&[8.0]),
        &cfg,
    );
    assert_eq!(plain(&r.unwrap()), vec![4.0]);
    cfg.c = Num(0.5);
    let r = backtracking_line_search(
        &Capped,
        &nums(&[0.0]),
        Num(16.0),
        &nums(&[-8.0]),
        &nums(&[8.0]),
        &cfg,
    );
    assert_eq!(plain(&r.unwrap()), vec![2.0]);
}

#[test]
fn configuration_defaults_and_validity() {
    let cfg = config(2);
    assert_eq!(cfg.bfgs_max_iter, 10);
    assert_eq!(cfg.line_search_max_iter, 100);
    assert_eq!(DEFAULT_BFGS_MAX_ITER, 10);
    assert_eq!(DEFAULT_LINE_SEARCH_MAX_ITER, 100);
    assert_eq!(cfg.alpha_init, Num(1.0));
    assert_eq!(cfg.tau, Num(0.5));
    assert_eq!(cfg.c, Num(1e-4));
    assert_eq!(cfg.tol_grad, Num(1e-5));
    assert_eq!(cfg.tol_search, Num(4e-8));
    assert_eq!(cfg.tol_cost, Num(1e-10));
    assert!(cfg.is_valid());
    assert!(!config(0).is_valid());
    for bad in [0.0, 1.0, -0.5, 1.5, f64::NAN] {
        let mut wrong_tau = config(2);
        wrong_tau.tau = Num(bad);
        assert!(!wrong_tau.is_valid());
        let mut wrong_c = config(2);
        wrong_c.c = Num(bad);
        assert!(!wrong_c.is_valid());
    }
}

#[test]
fn first_state_of_a_run() {
    let (state, stop) = OptimizationState::start(&Bowl, nums(&[3.5, 20.0]), &config(2)).unwrap();
    assert_eq!(stop, None);
    assert_eq!(plain(state.params()), vec![3.5, 20.0]);
    assert_eq!(state.cost(), Num(771.25));
    assert_eq!(plain(state.grad()), vec![-13.0, 54.0]);
    assert_eq!(plain(state.direction()), vec![13.0, -54.0]);
    assert_eq!(entries(state.inv_hessian()), vec![vec![1.0, 0.0], vec![0.0, 1.0]]);
    assert_eq!(plain(state.best_params()), vec![3.5, 20.0]);
    assert_eq!(state.best_cost(), Num(771.25));
}

#[test]
fn start_at_the_minimum_stops_at_once() {
    let (state, stop) = OptimizationState::start(&Bowl, nums(&[10.0, -7.0]), &config(2)).unwrap();
    assert_eq!(stop, Some(Termination::SearchDirection));
    assert_eq!(plain(&state.into_best_params()), vec![10.0, -7.0]);
}

#[test]
fn one_iteration_on_the_bowl() {
    let cfg = config(2);
    let (state, _) = OptimizationState::start(&Bowl, nums(&[3.5, 20.0]), &cfg).unwrap();
    let (next, stop) = state.iterate(&Bowl, &cfg).unwrap();
    assert_eq!(stop, Some(Termination::Gradient));
    assert_eq!(plain(next.params()), vec![10.0, -7.0]);
    assert_eq!(next.cost(), Num(0.0));
    assert_eq!(plain(next.grad()), vec![0.0, 0.0]);
    assert_eq!(plain(next.best_params()), vec![10.0, -7.0]);
    assert_eq!(next.best_cost(), Num(0.0));
    // a run that stops does not update
    assert_eq!(plain(next.direction()), vec![13.0, -54.0]);
    assert_eq!(entries(next.inv_hessian()), vec![vec![1.0, 0.0], vec![0.0, 1.0]]);
}

#[test]
fn iteration_without_stop_updates() {
    let mut cfg = config(2);
    cfg.tol_grad = Num(0.0);
    let (state, _) = OptimizationState::start(&Bowl, nums(&[3.5, 20.0]), &cfg).unwrap();
    let (next, stop) = state.iterate(&Bowl, &cfg).unwrap();
    assert_eq!(stop, None);
    assert_eq!(plain(next.params()), vec![10.0, -7.0]);
    assert_eq!(squared_l2_norm(next.direction()), Num(0.0));
    assert!(is_symmetric(next.inv_hessian()));
    // the step along a direction of length zero finds no decrease
    assert_eq!(next.iterate(&Bowl, &cfg).err(), Some(BfgsError::LineSearchExhausted));
}

#[test]
fn stop_on_a_small_decrease_of_the_cost() {
    let mut cfg = config(1);
    cfg.tol_search = Num(0.0);
    let solution = bfgs(&Plain, nums(&[1.0]), &cfg).unwrap();
    assert_eq!(solution.termination, Termination::CostDelta);
    assert_eq!(plain(&solution.params), vec![0.999999999999]);
}

#[test]
fn stop_on_a_short_search_direction() {
    let mut cfg = config(2);
    cfg.tol_search = Num(100.0);
    let solution = bfgs(&Valley, nums(&[-1.2, 1.0]), &cfg).unwrap();
    assert_eq!(solution.termination, Termination::SearchDirection);
    let best = plain(&solution.params);
    assert!((best[0] + 1.0643320904579014).abs() < 1e-12);
    assert!((best[1] - 1.0441718697547913).abs() < 1e-12);
}

#[test]
fn search_direction_is_asked_before_the_cost() {
    // Both the search direction and the decrease of the cost are below
    // their tolerances after the first step.
    let mut cfg = config(1);
    cfg.tol_search = Num(0.0);
    let (state, stop) = OptimizationState::start(&Plain, nums(&[1.0]), &cfg).unwrap();
    assert_eq!(stop, None);
    cfg.tol_search = Num(1.0);
    let (_, stop) = state.iterate(&Plain, &cfg).unwrap();
    assert_eq!(stop, Some(Termination::SearchDirection));
}

#[test]
fn cost_is_asked_before_the_gradient() {
    let mut cfg = config(1);
    cfg.tol_search = Num(0.0);
    cfg.tol_grad = Num(1.0);
    let (state, _) = OptimizationState::start(&Plain, nums(&[1.0]), &cfg).unwrap();
    let (_, stop) = state.iterate(&Plain, &cfg).unwrap();
    assert_eq!(stop, Some(Termination::CostDelta));
    cfg.tol_cost = Num(0.0);
    let (state, _) = OptimizationState::start(&Plain, nums(&[1.0]), &cfg).unwrap();
    let (_, stop) = state.iterate(&Plain, &cfg).unwrap();
    assert_eq!(stop, Some(Termination::Gradient));
}

#[test]
fn best_point_stays_when_the_cost_rises() {
    let mut cfg = config(1);
    cfg.alpha_init = Num(2.0);
    cfg.c = Num(-10.0);
    let (state, _) = OptimizationState::start(&Square, nums(&[1.0]), &cfg).unwrap();
    let (next, stop) = state.iterate(&Square, &cfg).unwrap();
    assert_eq!(stop, Some(Termination::CostDelta));
    assert_eq!(plain(next.params()), vec![-3.0]);
    assert_eq!(next.cost(), Num(9.0));
    assert_eq!(plain(next.best_params()), vec![1.0]);
    assert_eq!(next.best_cost(), Num(1.0));
    let solution = bfgs(&Square, nums(&[1.0]), &cfg).unwrap();
    assert_eq!(plain(&solution.params), vec![1.0]);
}

#[test]
fn best_cost_never_rises_over_a_run() {
    let mut cfg = config(1);
    cfg.alpha_init = Num(2.0);
    cfg.c = Num(-10.0);
    cfg.tol_cost = Num(-1e300);
    cfg.tol_grad = Num(0.0);
    cfg.tol_search = Num(0.0);
    let (mut state, _) = OptimizationState::start(&Square, nums(&[1.0]), &cfg).unwrap();
    let mut costs = vec![state.cost().0];
    let mut best_costs = vec![state.best_cost().0];
    for _ in 0..3 {
        let (next, stop) = state.iterate(&Square, &cfg).unwrap();
        assert_eq!(stop, None);
        costs.push(next.cost().0);
        best_costs.push(next.best_cost().0);
        state = next;
    }
    assert_eq!(costs, vec![1.0, 9.0, 81.0, 0.0]);
    assert_eq!(best_costs, vec![1.0, 1.0, 1.0, 0.0]);
    assert_eq!(plain(state.best_params()), vec![0.0]);
}

#[test]
fn inverse_hessian_stays_symmetric_over_a_run() {
    let cfg = config(2);
    let (mut state, _) = OptimizationState::start(&Valley, nums(&[-1.2, 1.0]), &cfg).unwrap();
    let mut last_best = state.best_cost().0;
    for _ in 0..10 {
        let (next, stop) = state.iterate(&Valley, &cfg).unwrap();
        assert_eq!(stop, None);
        assert!(is_symmetric(next.inv_hessian()));
        assert!(next.best_cost().0 <= last_best);
        last_best = next.best_cost().0;
        state = next;
    }
    let h = entries(state.inv_hessian());
    assert!(h[0][1] != 0.0);
}

#[test]
fn reasons_to_stop_in_their_order() {
    assert_eq!(Termination::first_met(false, false, false), None);
    assert_eq!(Termination::first_met(true, true, true), Some(Termination::SearchDirection));
    assert_eq!(Termination::first_met(true, false, false), Some(Termination::SearchDirection));
    assert_eq!(Termination::first_met(false, true, true), Some(Termination::CostDelta));
    assert_eq!(Termination::first_met(false, true, false), Some(Termination::CostDelta));
    assert_eq!(Termination::first_met(false, false, true), Some(Termination::Gradient));
    assert!(Termination::SearchDirection.is_converged());
    assert!(Termination::CostDelta.is_converged());
    assert!(Termination::Gradient.is_converged());
    assert!(!Termination::IterationLimit.is_converged());
}

#[test]
fn matrix_from_its_upper_triangle() {
    let rows = vec![nums(&[1.0, 2.0, 3.0]), nums(&[9.0, 4.0, 5.0]), nums(&[9.0, 9.0, 6.0])];
    let h = InverseHessian::from_upper_triangle(&rows).unwrap();
    assert_eq!(
        entries(&h),
        vec![vec![1.0, 2.0, 3.0], vec![2.0, 4.0, 5.0], vec![3.0, 5.0, 6.0]]
    );
    assert_eq!(plain(&h.apply(&nums(&[1.0, 1.0, 1.0]))), vec![6.0, 11.0, 14.0]);
}

#[test]
fn matrix_must_be_square() {
    let short_row = vec![nums(&[1.0, 2.0]), nums(&[3.0])];
    assert!(InverseHessian::from_upper_triangle(&short_row).is_none());
    let missing_row = vec![nums(&[1.0, 2.0])];
    assert!(InverseHessian::from_upper_triangle(&missing_row).is_none());
    let empty: Vec<Vec<Num>> = Vec::new();
    assert_eq!(InverseHessian::from_upper_triangle(&empty).unwrap().dim(), 0);
}

#[test]
fn result_of_a_run_is_valid() {
    let mut cfg = config(1);
    cfg.tol_search = Num(0.0);
    // The first trial point, 8, is not valid.
    let solution = bfgs(&Capped, nums(&[0.0]), &cfg).unwrap();
    assert!(Capped::params_is_valid(&solution.params));
    assert_eq!(plain(&solution.params), vec![4.0]);
    assert_eq!(solution.termination, Termination::Gradient);
}

#[test]
fn run_fails_where_the_gradient_does_not_change() {
    let mut cfg = config(1);
    cfg.tol_search = Num(0.0);
    cfg.tol_cost = Num(-1.0);
    cfg.tol_grad = Num(0.0);
    let outcome = bfgs(&Plain, nums(&[1.0]), &cfg);
    assert_eq!(outcome.err(), Some(BfgsError::DegenerateCurvature));
}
