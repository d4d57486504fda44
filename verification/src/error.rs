//! How a run ends: the reasons for stopping and the failures.
use vstd::prelude::*;

verus! {

/// Why a run failed.
#[derive(Clone, Copy, Debug, PartialEq, Eq)]
pub enum BfgsError {
    /// The starting point is outside the problem's domain.
    InvalidInitialParameters,
    /// A vector does not have as many components as the configuration says.
    DimensionMismatch,
    /// No step length that the line search may try gives a valid point with a
    /// sufficient decrease of the cost.
    LineSearchExhausted,
    /// The change of the gradient along the last step is zero or not finite,
    /// so the update of the inverse Hessian is undefined.
    DegenerateCurvature,
}

/// Why a run stopped with a result.
#[derive(Clone, Copy, Debug, PartialEq, Eq)]
pub enum Termination {
    /// The search direction's norm fell below its tolerance.
    SearchDirection,
    /// The last step lowered the cost by less than its tolerance.
    CostDelta,
    /// The gradient's norm fell below its tolerance.
    Gradient,
    /// The iteration limit was reached before any tolerance was met.
    IterationLimit,
}

impl Termination {
    /// A tolerance was met, rather than the iteration limit reached.
    pub open spec fn spec_is_converged(self) -> bool {
        self != Termination::IterationLimit
    }

    /// The reason to stop after a step, given which quantities are below
    /// their tolerances: the search direction counts first, then the decrease
    /// of the cost, then the gradient.
    pub open spec fn spec_first_met(direction: bool, cost: bool, gradient: bool) -> Option<
        Termination,
    > {
        if direction {
            Some(Termination::SearchDirection)
        } else if cost {
            Some(Termination::CostDelta)
        } else if gradient {
            Some(Termination::Gradient)
        } else {
            None
        }
    }

    /// Picks the reason to stop after a step, if there is one, from what is
    /// below its tolerance.
    pub fn first_met(direction: bool, cost: bool, gradient: bool) -> (r: Option<Termination>)
        ensures
            r == Self::spec_first_met(direction, cost, gradient),
    {
        if direction {
            Some(Termination::SearchDirection)
        } else if cost {
            Some(Termination::CostDelta)
        } else if gradient {
            Some(Termination::Gradient)
        } else {
            None
        }
    }

    /// Tells whether a tolerance was met, rather than the iteration limit
    /// reached.
    pub fn is_converged(&self) -> (r: bool)
        ensures
            r == self.spec_is_converged(),
    {
        match self {
            Termination::IterationLimit => false,
            _ => true,
        }
    }
}

/// The result of a run that did not fail.
#[derive(Debug)]
pub struct Solution<S> {
    /// The point of lowest cost among those the run evaluated.
    pub params: Vec<S>,
    /// Why the run stopped.
    pub termination: Termination,
}

} // verus!
