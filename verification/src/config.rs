//! The tuning constants of one optimisation run.
use vstd::prelude::*;
use crate::scalar::{deterministic_arithmetic, spec_lt, spec_one, spec_zero, Scalar};

verus! {

/// The number of outer iterations a run takes at most, unless told otherwise.
pub const DEFAULT_BFGS_MAX_ITER: usize = 10;

/// The number of step lengths one line search tries at most, unless told
/// otherwise.
pub const DEFAULT_LINE_SEARCH_MAX_ITER: usize = 100;

/// The hyperparameters of a run. A run reads them and never changes them.
#[derive(Debug)]
pub struct Config<S> {
    /// The number of parameters to optimise.
    pub param_dim: usize,
    /// The step length every line search starts from.
    pub alpha_init: S,
    /// The factor by which a rejected step length shrinks.
    pub tau: S,
    /// The constant of the sufficient-decrease condition.
    pub c: S,
    /// A run stops once the gradient's norm is below this.
    pub tol_grad: S,
    /// A run stops once the search direction's norm is below this.
    pub tol_search: S,
    /// A run stops once an accepted step lowers the cost by less than this.
    pub tol_cost: S,
    /// The number of outer iterations at most.
    pub bfgs_max_iter: usize,
    /// The number of step lengths one line search tries at most.
    pub line_search_max_iter: usize,
}

impl<S: Copy> Copy for Config<S> {

}

impl<S: Copy> Clone for Config<S> {
    fn clone(&self) -> (r: Self)
        ensures
            r == *self,
    {
        *self
    }
}

impl<S: Scalar> Config<S> {
    /// `x` lies strictly between zero and one.
    pub open spec fn in_unit_interval(x: S) -> bool {
        spec_lt(spec_zero::<S>(), x) && spec_lt(x, spec_one::<S>())
    }

    /// The dimension is positive, and the shrink factor and the
    /// sufficient-decrease constant lie strictly between zero and one.
    pub open spec fn spec_is_valid(self) -> bool {
        &&& self.param_dim > 0
        &&& Self::in_unit_interval(self.tau)
        &&& Self::in_unit_interval(self.c)
    }

    /// A configuration with the given constants and the default iteration
    /// limits.
    pub fn new(
        param_dim: usize,
        alpha_init: S,
        tau: S,
        c: S,
        tol_grad: S,
        tol_search: S,
        tol_cost: S,
    ) -> (r: Self)
        ensures
            r == (Config {
                param_dim,
                alpha_init,
                tau,
                c,
                tol_grad,
                tol_search,
                tol_cost,
                bfgs_max_iter: DEFAULT_BFGS_MAX_ITER,
                line_search_max_iter: DEFAULT_LINE_SEARCH_MAX_ITER,
            }),
    {
        Config {
            param_dim,
            alpha_init,
            tau,
            c,
            tol_grad,
            tol_search,
            tol_cost,
            bfgs_max_iter: DEFAULT_BFGS_MAX_ITER,
            line_search_max_iter: DEFAULT_LINE_SEARCH_MAX_ITER,
        }
    }

    /// Tells whether the constants are in their ranges.
    pub fn is_valid(&self) -> (r: bool)
        ensures
            deterministic_arithmetic::<S>() ==> r == self.spec_is_valid(),
    {
        let zero = S::zero();
        let one = S::one();
        self.param_dim > 0 && zero.lt(self.tau) && self.tau.lt(one) && zero.lt(self.c)
            && self.c.lt(one)
    }
}

} // verus!
