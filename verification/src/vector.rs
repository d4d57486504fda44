//! Vectors of scalars: the inner product and the elementwise operations the
//! optimiser needs, each with the sequence-level function that defines it.
use vstd::prelude::*;
use crate::scalar::{
    deterministic_arithmetic, spec_add, spec_mul, spec_neg, spec_sub, spec_zero, Scalar,
};

verus! {

/// The inner product of `a` and `b`, summed from the first component on,
/// starting from zero.
pub open spec fn spec_dot<S: Scalar>(a: Seq<S>, b: Seq<S>) -> S
    recommends
        a.len() == b.len(),
    decreases a.len(),
{
    if a.len() == 0 {
        spec_zero::<S>()
    } else {
        spec_add(spec_dot(a.drop_last(), b.drop_last()), spec_mul(a.last(), b.last()))
    }
}

/// The squared Euclidean norm of `x`: its inner product with itself.
pub open spec fn spec_squared_l2_norm<S: Scalar>(x: Seq<S>) -> S {
    spec_dot(x, x)
}

/// `-x`, component by component.
pub open spec fn spec_negated<S: Scalar>(x: Seq<S>) -> Seq<S> {
    Seq::new(x.len(), |i: int| spec_neg(x[i]))
}

/// `a - b`, component by component.
pub open spec fn spec_difference<S: Scalar>(a: Seq<S>, b: Seq<S>) -> Seq<S>
    recommends
        a.len() == b.len(),
{
    Seq::new(a.len(), |i: int| spec_sub(a[i], b[i]))
}

/// `p + d * alpha`: the point reached from `p` by a step of length `alpha`
/// along `d`.
pub open spec fn spec_displaced<S: Scalar>(p: Seq<S>, d: Seq<S>, alpha: S) -> Seq<S>
    recommends
        p.len() == d.len(),
{
    Seq::new(p.len(), |i: int| spec_add(p[i], spec_mul(d[i], alpha)))
}

/// Computes the inner product of two vectors of one length.
pub fn dot<S: Scalar>(a: &Vec<S>, b: &Vec<S>) -> (r: S)
    requires
        a.len() == b.len(),
    ensures
        deterministic_arithmetic::<S>() ==> r == spec_dot(a@, b@),
{
    let n = a.len();
    let mut acc = S::zero();
    let mut i: usize = 0;
    while i < n
        invariant
            i <= n,
            n == a.len(),
            n == b.len(),
            deterministic_arithmetic::<S>() ==> acc == spec_dot(a@.take(i as int), b@.take(i as int)),
        decreases n - i,
    {
        proof {
            assert(a@.take(i + 1).drop_last() == a@.take(i as int));
            assert(b@.take(i + 1).drop_last() == b@.take(i as int));
        }
        acc = acc.add(a[i].mul(b[i]));
        i += 1;
    }
    proof {
        assert(a@.take(n as int) == a@);
        assert(b@.take(n as int) == b@);
    }
    acc
}

/// Computes the squared Euclidean norm of `x`.
pub fn squared_l2_norm<S: Scalar>(x: &Vec<S>) -> (r: S)
    ensures
        deterministic_arithmetic::<S>() ==> r == spec_squared_l2_norm(x@),
{
    dot(x, x)
}

/// Returns a vector with the components of `x`.
pub fn duplicate<S: Scalar>(x: &Vec<S>) -> (r: Vec<S>)
    ensures
        r@ == x@,
{
    let n = x.len();
    let mut out: Vec<S> = Vec::with_capacity(n);
    let mut i: usize = 0;
    while i < n
        invariant
            i <= n,
            n == x.len(),
            out@ == x@.take(i as int),
        decreases n - i,
    {
        out.push(x[i]);
        proof {
            assert(out@ == x@.take(i + 1));
        }
        i += 1;
    }
    proof {
        assert(x@.take(n as int) == x@);
    }
    out
}

/// Computes `-x`.
pub fn negated<S: Scalar>(x: &Vec<S>) -> (r: Vec<S>)
    ensures
        r.len() == x.len(),
        deterministic_arithmetic::<S>() ==> r@ == spec_negated(x@),
{
    let n = x.len();
    let mut out: Vec<S> = Vec::with_capacity(n);
    let mut i: usize = 0;
    while i < n
        invariant
            i <= n,
            n == x.len(),
            out.len() == i,
            deterministic_arithmetic::<S>() ==> forall|k: int| 0 <= k < i ==> out@[k] == spec_neg(x@[k]),
        decreases n - i,
    {
        out.push(x[i].neg());
        i += 1;
    }
    proof {
        if deterministic_arithmetic::<S>() {
            assert(out@ =~= spec_negated(x@));
        }
    }
    out
}

/// Computes `a - b` for two vectors of one length.
pub fn difference<S: Scalar>(a: &Vec<S>, b: &Vec<S>) -> (r: Vec<S>)
    requires
        a.len() == b.len(),
    ensures
        r.len() == a.len(),
        deterministic_arithmetic::<S>() ==> r@ == spec_difference(a@, b@),
{
    let n = a.len();
    let mut out: Vec<S> = Vec::with_capacity(n);
    let mut i: usize = 0;
    while i < n
        invariant
            i <= n,
            n == a.len(),
            n == b.len(),
            out.len() == i,
            deterministic_arithmetic::<S>() ==> forall|k: int| 0 <= k < i ==> out@[k] == spec_sub(a@[k], b@[k]),
        decreases n - i,
    {
        out.push(a[i].sub(b[i]));
        i += 1;
    }
    proof {
        if deterministic_arithmetic::<S>() {
            assert(out@ =~= spec_difference(a@, b@));
        }
    }
    out
}

/// Computes `p + d * alpha` for two vectors of one length.
pub fn displaced<S: Scalar>(p: &Vec<S>, d: &Vec<S>, alpha: S) -> (r: Vec<S>)
    requires
        p.len() == d.len(),
    ensures
        r.len() == p.len(),
        deterministic_arithmetic::<S>() ==> r@ == spec_displaced(p@, d@, alpha),
{
    let n = p.len();
    let mut out: Vec<S> = Vec::with_capacity(n);
    let mut i: usize = 0;
    while i < n
        invariant
            i <= n,
            n == p.len(),
            n == d.len(),
            out.len() == i,
            deterministic_arithmetic::<S>() ==> forall|k: int| 0 <= k < i ==> out@[k] == spec_add(p@[k], spec_mul(d@[k], alpha)),
        decreases n - i,
    {
        out.push(p[i].add(d[i].mul(alpha)));
        i += 1;
    }
    proof {
        if deterministic_arithmetic::<S>() {
            assert(out@ =~= spec_displaced(p@, d@, alpha));
        }
    }
    out
}

} // verus!
