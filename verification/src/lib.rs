//! A quasi-Newton optimiser of the BFGS/DFP family.
//!
//! Given a cost function with its gradient and a validity predicate over the
//! parameter domain, [`bfgs`] searches for a local minimum: a backtracking line
//! search picks each step, and a rank-two update refines an approximation of
//! the inverse Hessian that shapes the next search direction.
//!
//! The engine is generic over the number type ([`Scalar`]) and over the problem
//! ([`BFGS`]), and asks nothing of either beyond the signatures. Where the
//! scalar operations and the problem's methods are functions of their
//! arguments ([`problem::deterministic`]), the contracts say exactly what a
//! run computes, in terms of those operations and of the problem's answers.
pub mod config;
pub mod driver;
pub mod error;
pub mod laws;
pub mod line_search;
pub mod matrix;
pub mod problem;
pub mod scalar;
pub mod update;
pub mod vector;

pub use config::{Config, DEFAULT_BFGS_MAX_ITER, DEFAULT_LINE_SEARCH_MAX_ITER};
pub use driver::{bfgs, OptimizationState};
pub use error::{BfgsError, Solution, Termination};
pub use line_search::backtracking_line_search;
pub use matrix::InverseHessian;
pub use problem::BFGS;
pub use scalar::Scalar;
pub use update::update_search_direction;
pub use vector::squared_l2_norm;
