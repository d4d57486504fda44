//! The quasi-Newton update: from the last search direction, the gradient and
//! its change, a new approximation of the inverse Hessian and the next search
//! direction.
use vstd::prelude::*;
use crate::error::BfgsError;
use crate::matrix::{is_square, is_symmetric, rows_view, spec_mat_vec, InverseHessian};
use crate::scalar::{
    deterministic_arithmetic, spec_add, spec_div, spec_is_finite, spec_lt, spec_mul, spec_one,
    spec_sub, spec_zero, Scalar,
};
use crate::vector::{dot, negated, spec_dot, spec_negated};

verus! {

/// `x` cannot serve as a divisor: it is not finite, or it is neither below
/// nor above zero.
pub open spec fn is_degenerate<S: Scalar>(x: S) -> bool {
    !spec_is_finite(x) || !(spec_lt(x, spec_zero::<S>()) || spec_lt(spec_zero::<S>(), x))
}

/// The curvature along the last step: the change of the gradient `dg` times
/// the search direction `d`.
pub open spec fn curvature<S: Scalar>(d: Seq<S>, dg: Seq<S>) -> S {
    spec_dot(dg, d)
}

/// The entry in row `i` and column `j` of the updated matrix, for `i <= j`:
/// `h[i][j] + c1 * (c2 * d[i] * d[j] - (v[i] * d[j] + d[i] * v[j]))`.
pub open spec fn updated_entry<S: Scalar>(
    h: Seq<Seq<S>>,
    d: Seq<S>,
    v: Seq<S>,
    c1: S,
    c2: S,
    i: int,
    j: int,
) -> S {
    spec_add(
        h[i][j],
        spec_mul(
            c1,
            spec_sub(
                spec_mul(spec_mul(c2, d[i]), d[j]),
                spec_add(spec_mul(v[i], d[j]), spec_mul(d[i], v[j])),
            ),
        ),
    )
}

/// The updated approximation of the inverse Hessian. With `v = h * dg`,
/// `c1 = 1 / (dg . d)` and `c2 = 1 + c1 * (dg . v)`, the entries on and above
/// the diagonal are those of [`updated_entry`], and the entries below it
/// mirror them.
pub open spec fn updated_inverse_hessian<S: Scalar>(
    h: Seq<Seq<S>>,
    d: Seq<S>,
    dg: Seq<S>,
) -> Seq<Seq<S>> {
    let v = spec_mat_vec(h, dg);
    let c1 = spec_div(spec_one::<S>(), curvature(d, dg));
    let c2 = spec_add(spec_one::<S>(), spec_mul(c1, spec_dot(dg, v)));
    Seq::new(
        h.len(),
        |i: int|
            Seq::new(
                h.len(),
                |j: int|
                    if i <= j {
                        updated_entry(h, d, v, c1, c2, i, j)
                    } else {
                        updated_entry(h, d, v, c1, c2, j, i)
                    },
            ),
    )
}

/// The search direction for the gradient `g`: `-(h * g)`.
pub open spec fn spec_search_direction<S: Scalar>(h: Seq<Seq<S>>, g: Seq<S>) -> Seq<S> {
    spec_negated(spec_mat_vec(h, g))
}

/// What the update yields: the next search direction, taken from the matrix
/// as it was before the update, and the updated matrix; or the failure where
/// the curvature is degenerate.
pub open spec fn spec_update<S: Scalar>(
    d: Seq<S>,
    h: Seq<Seq<S>>,
    g: Seq<S>,
    dg: Seq<S>,
) -> Result<(Seq<S>, Seq<Seq<S>>), BfgsError> {
    if is_degenerate(curvature(d, dg)) {
        Err(BfgsError::DegenerateCurvature)
    } else {
        Ok((spec_search_direction(h, g), updated_inverse_hessian(h, d, dg)))
    }
}

/// The updated matrix is symmetric, whatever it was computed from.
pub proof fn lemma_updated_inverse_hessian_is_symmetric<S: Scalar>(
    h: Seq<Seq<S>>,
    d: Seq<S>,
    dg: Seq<S>,
)
    ensures
        updated_inverse_hessian(h, d, dg).len() == h.len(),
        is_symmetric(updated_inverse_hessian(h, d, dg)),
{
}

/// Computes the search direction `-(h * g)`.
pub fn search_direction_of<S: Scalar>(inv_hessian: &InverseHessian<S>, grad: &Vec<S>) -> (r: Vec<S>)
    requires
        grad.len() == inv_hessian@.len(),
    ensures
        r.len() == grad.len(),
        deterministic_arithmetic::<S>() ==> r@ == spec_search_direction(inv_hessian@, grad@),
{
    let product = inv_hessian.apply(grad);
    negated(&product)
}

/// Updates the approximation of the inverse Hessian and computes the next
/// search direction.
///
/// `search_direction` is the direction of the last step, `grad` the gradient
/// at the new point and `delta_grad` its change along the step. The update
/// fails with `DegenerateCurvature` where `delta_grad . search_direction`
/// cannot serve as a divisor.
pub fn update_search_direction<S: Scalar>(
    search_direction: &Vec<S>,
    inv_hessian: &InverseHessian<S>,
    grad: &Vec<S>,
    delta_grad: &Vec<S>,
) -> (r: Result<(Vec<S>, InverseHessian<S>), BfgsError>)
    requires
        search_direction.len() == inv_hessian@.len(),
        grad.len() == inv_hessian@.len(),
        delta_grad.len() == inv_hessian@.len(),
    ensures
        r matches Ok((d, h)) ==> d.len() == grad.len() && h@.len() == inv_hessian@.len()
            && is_symmetric(h@),
        r matches Err(e) ==> e == BfgsError::DegenerateCurvature,
        deterministic_arithmetic::<S>() ==> (match spec_update(
            search_direction@,
            inv_hessian@,
            grad@,
            delta_grad@,
        ) {
            Ok((d, h)) => r matches Ok((dv, hv)) && dv@ == d && hv@ == h,
            Err(e) => r matches Err(f) && f == e,
        }),
{
    let n = inv_hessian.dim();
    let zero = S::zero();
    let one = S::one();
    let denominator = dot(delta_grad, search_direction);
    if !denominator.is_finite() || !(denominator.lt(zero) || zero.lt(denominator)) {
        return Err(BfgsError::DegenerateCurvature);
    }
    let v = inv_hessian.apply(delta_grad);
    let c1 = one.div(denominator);
    let c2 = one.add(c1.mul(dot(delta_grad, &v)));
    let ghost h = inv_hessian@;
    let ghost d = search_direction@;
    let mut upper: Vec<Vec<S>> = Vec::with_capacity(n);
    let mut i: usize = 0;
    while i < n
        invariant
            i <= n,
            n == h.len(),
            h == inv_hessian@,
            d == search_direction@,
            d.len() == n,
            v.len() == n,
            upper.len() == i,
            forall|a: int| 0 <= a < i ==> (#[trigger] upper@[a])@.len() == n,
            deterministic_arithmetic::<S>() ==> forall|a: int, b: int|
                0 <= a < i && a <= b < n ==> (#[trigger] upper@[a]@[b]) == updated_entry(
                    h,
                    d,
                    v@,
                    c1,
                    c2,
                    a,
                    b,
                ),
        decreases n - i,
    {
        let mut row: Vec<S> = Vec::with_capacity(n);
        let mut j: usize = 0;
        while j < n
            invariant
                i < n,
                j <= n,
                n == h.len(),
                h == inv_hessian@,
                d == search_direction@,
                d.len() == n,
                v.len() == n,
                row.len() == j,
                deterministic_arithmetic::<S>() ==> forall|b: int|
                    i <= b < j ==> (#[trigger] row@[b]) == updated_entry(
                        h,
                        d,
                        v@,
                        c1,
                        c2,
                        i as int,
                        b,
                    ),
            decreases n - j,
        {
            let entry = if j >= i {
                let di = search_direction[i];
                let dj = search_direction[j];
                inv_hessian.get(i, j).add(
                    c1.mul(c2.mul(di).mul(dj).sub(v[i].mul(dj).add(di.mul(v[j])))),
                )
            } else {
                zero
            };
            row.push(entry);
            j += 1;
        }
        upper.push(row);
        i += 1;
    }
    let new_search_direction = search_direction_of(inv_hessian, grad);
    proof {
        assert(is_square(rows_view(upper@)));
    }
    let new_inv_hessian = InverseHessian::reflect(&upper);
    proof {
        if deterministic_arithmetic::<S>() {
            let m = new_inv_hessian@;
            let u = updated_inverse_hessian(h, d, delta_grad@);
            assert forall|a: int| 0 <= a < n implies #[trigger] m[a] == u[a] by {
                assert forall|b: int| 0 <= b < n implies m[a][b] == u[a][b] by {
                    if a <= b {
                        assert(upper@[a]@[b] == updated_entry(h, d, v@, c1, c2, a, b));
                    } else {
                        assert(upper@[b]@[a] == updated_entry(h, d, v@, c1, c2, b, a));
                    }
                }
                assert(m[a] =~= u[a]);
            }
            assert(m =~= u);
        }
    }
    Ok((new_search_direction, new_inv_hessian))
}

} // verus!
