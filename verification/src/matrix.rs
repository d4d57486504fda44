//! The approximation of the inverse Hessian: a square matrix that is
//! symmetric by construction.
use vstd::prelude::*;
use crate::scalar::{deterministic_arithmetic, spec_one, spec_zero, Scalar};
use crate::vector::{dot, spec_dot};

verus! {

/// Every row of `m` is as long as `m` has rows.
pub open spec fn is_square<S>(m: Seq<Seq<S>>) -> bool {
    forall|i: int| 0 <= i < m.len() ==> (#[trigger] m[i]).len() == m.len()
}

/// `m` is square and equal to its transpose.
pub open spec fn is_symmetric<S>(m: Seq<Seq<S>>) -> bool {
    &&& is_square(m)
    &&& forall|i: int, j: int| 0 <= i < m.len() && 0 <= j < m.len() ==> m[i][j] == m[j][i]
}

/// The identity matrix of dimension `n`.
pub open spec fn spec_identity<S: Scalar>(n: nat) -> Seq<Seq<S>> {
    Seq::new(
        n,
        |i: int| Seq::new(n, |j: int| if i == j { spec_one::<S>() } else { spec_zero::<S>() }),
    )
}

/// The product of the matrix `m` with the vector `x`.
pub open spec fn spec_mat_vec<S: Scalar>(m: Seq<Seq<S>>, x: Seq<S>) -> Seq<S> {
    Seq::new(m.len(), |i: int| spec_dot(m[i], x))
}

/// The symmetric matrix that agrees with `m` on and above the diagonal: the
/// entries below the diagonal mirror those above it.
pub open spec fn spec_reflected<S>(m: Seq<Seq<S>>) -> Seq<Seq<S>> {
    Seq::new(
        m.len(),
        |i: int| Seq::new(m.len(), |j: int| if i <= j { m[i][j] } else { m[j][i] }),
    )
}

/// Reflecting a matrix makes it symmetric.
pub proof fn lemma_reflected_is_symmetric<S>(m: Seq<Seq<S>>)
    ensures
        spec_reflected(m).len() == m.len(),
        is_symmetric(spec_reflected(m)),
{
}

/// Reflecting a symmetric matrix changes nothing.
pub proof fn lemma_reflected_of_symmetric<S>(m: Seq<Seq<S>>)
    requires
        is_symmetric(m),
    ensures
        spec_reflected(m) == m,
{
    assert forall|i: int| 0 <= i < m.len() implies #[trigger] spec_reflected(m)[i] == m[i] by {
        assert(spec_reflected(m)[i] =~= m[i]);
    }
    assert(spec_reflected(m) =~= m);
}

/// The rows of a matrix held as vectors.
pub open spec fn rows_view<S>(rows: Seq<Vec<S>>) -> Seq<Seq<S>> {
    Seq::new(rows.len(), |i: int| rows[i]@)
}

/// An approximation of the inverse of the cost function's Hessian.
///
/// Every value of this type is a symmetric square matrix.
pub struct InverseHessian<S: Scalar> {
    rows: Vec<Vec<S>>,
}

impl<S: Scalar> View for InverseHessian<S> {
    type V = Seq<Seq<S>>;

    closed spec fn view(&self) -> Seq<Seq<S>> {
        rows_view(self.rows@)
    }
}

impl<S: Scalar> InverseHessian<S> {
    #[verifier::type_invariant]
    spec fn symmetric(&self) -> bool {
        is_symmetric(rows_view(self.rows@))
    }

    /// Builds the matrix whose rows are `rows`.
    fn from_rows(rows: Vec<Vec<S>>) -> (r: Self)
        requires
            is_symmetric(rows_view(rows@)),
        ensures
            r@ == rows_view(rows@),
    {
        InverseHessian { rows }
    }

    /// Builds the symmetric matrix that agrees with the square matrix `rows`
    /// on and above the diagonal. What `rows` holds below the diagonal is not
    /// read.
    pub(crate) fn reflect(rows: &Vec<Vec<S>>) -> (r: Self)
        requires
            is_square(rows_view(rows@)),
        ensures
            r@ == spec_reflected(rows_view(rows@)),
            is_symmetric(r@),
    {
        let n = rows.len();
        let ghost m = rows_view(rows@);
        let mut out: Vec<Vec<S>> = Vec::with_capacity(n);
        let mut i: usize = 0;
        while i < n
            invariant
                i <= n,
                n == rows.len(),
                m == rows_view(rows@),
                is_square(m),
                out.len() == i,
                forall|a: int| 0 <= a < i ==> (#[trigger] out@[a])@ == spec_reflected(m)[a],
            decreases n - i,
        {
            let mut row: Vec<S> = Vec::with_capacity(n);
            let mut j: usize = 0;
            while j < n
                invariant
                    i < n,
                    j <= n,
                    n == rows.len(),
                    m == rows_view(rows@),
                    is_square(m),
                    row.len() == j,
                    forall|b: int|
                        0 <= b < j ==> (#[trigger] row@[b]) == spec_reflected(m)[i as int][b],
                decreases n - j,
            {
                proof {
                    assert(m[i as int].len() == n);
                    assert(m[j as int].len() == n);
                }
                let entry = if i <= j {
                    rows[i][j]
                } else {
                    rows[j][i]
                };
                row.push(entry);
                j += 1;
            }
            proof {
                assert(row@ =~= spec_reflected(m)[i as int]);
            }
            out.push(row);
            i += 1;
        }
        proof {
            lemma_reflected_is_symmetric(m);
            assert(rows_view(out@) =~= spec_reflected(m));
        }
        Self::from_rows(out)
    }

    /// Builds the symmetric matrix that agrees with `rows` on and above the
    /// diagonal. What `rows` holds below the diagonal is not read.
    ///
    /// Returns `None` where `rows` is not square.
    pub fn from_upper_triangle(rows: &Vec<Vec<S>>) -> (r: Option<Self>)
        ensures
            r is Some <==> is_square(rows_view(rows@)),
            r matches Some(h) ==> h@ == spec_reflected(rows_view(rows@)) && is_symmetric(h@),
            is_symmetric(rows_view(rows@)) ==> (r matches Some(h) && h@ == rows_view(rows@)),
    {
        let n = rows.len();
        let ghost m = rows_view(rows@);
        let mut k: usize = 0;
        while k < n
            invariant
                k <= n,
                n == rows.len(),
                m == rows_view(rows@),
                forall|a: int| 0 <= a < k ==> (#[trigger] m[a]).len() == n,
            decreases n - k,
        {
            if rows[k].len() != n {
                proof {
                    assert(m[k as int].len() != m.len());
                }
                return None;
            }
            k += 1;
        }
        proof {
            if is_symmetric(m) {
                lemma_reflected_of_symmetric(m);
            }
        }
        Some(Self::reflect(rows))
    }

    /// The identity matrix of dimension `n`, the first approximation of every
    /// run.
    pub fn identity(n: usize) -> (r: Self)
        ensures
            r@.len() == n,
            is_symmetric(r@),
            deterministic_arithmetic::<S>() ==> r@ == spec_identity::<S>(n as nat),
    {
        let zero = S::zero();
        let one = S::one();
        let mut rows: Vec<Vec<S>> = Vec::new();
        let mut i: usize = 0;
        while i < n
            invariant
                i <= n,
                rows.len() == i,
                forall|a: int| 0 <= a < i ==> (#[trigger] rows@[a])@.len() == n,
                forall|a: int, b: int|
                    0 <= a < i && 0 <= b < n ==> (#[trigger] rows@[a]@[b]) == (if a == b {
                        one
                    } else {
                        zero
                    }),
            decreases n - i,
        {
            let mut row: Vec<S> = Vec::new();
            let mut j: usize = 0;
            while j < n
                invariant
                    i < n,
                    j <= n,
                    row.len() == j,
                    forall|b: int|
                        0 <= b < j ==> (#[trigger] row@[b]) == (if i as int == b {
                            one
                        } else {
                            zero
                        }),
                decreases n - j,
            {
                row.push(if i == j { one } else { zero });
                j += 1;
            }
            rows.push(row);
            i += 1;
        }
        proof {
            let m = rows_view(rows@);
            assert(is_symmetric(m));
            if deterministic_arithmetic::<S>() {
                assert forall|a: int| 0 <= a < n implies #[trigger] m[a] == spec_identity::<S>(
                    n as nat,
                )[a] by {
                    assert(m[a] =~= spec_identity::<S>(n as nat)[a]);
                }
                assert(m =~= spec_identity::<S>(n as nat));
            }
        }
        Self::from_rows(rows)
    }

    /// The number of rows, which is the number of columns.
    pub fn dim(&self) -> (n: usize)
        ensures
            n == self@.len(),
            is_symmetric(self@),
    {
        proof {
            use_type_invariant(self);
        }
        self.rows.len()
    }

    /// The entry in row `i` and column `j`.
    pub fn get(&self, i: usize, j: usize) -> (r: S)
        requires
            i < self@.len(),
            j < self@.len(),
        ensures
            r == self@[i as int][j as int],
    {
        proof {
            use_type_invariant(self);
            assert(rows_view(self.rows@)[i as int].len() == self.rows@.len());
        }
        self.rows[i][j]
    }

    /// The product of this matrix with the vector `x`.
    pub fn apply(&self, x: &Vec<S>) -> (r: Vec<S>)
        requires
            x.len() == self@.len(),
        ensures
            r.len() == x.len(),
            deterministic_arithmetic::<S>() ==> r@ == spec_mat_vec(self@, x@),
    {
        proof {
            use_type_invariant(self);
        }
        let n = self.rows.len();
        let mut out: Vec<S> = Vec::with_capacity(n);
        let mut i: usize = 0;
        while i < n
            invariant
                i <= n,
                n == self.rows.len(),
                n == x.len(),
                is_symmetric(rows_view(self.rows@)),
                out.len() == i,
                deterministic_arithmetic::<S>() ==> forall|k: int|
                    0 <= k < i ==> out@[k] == spec_dot(self.rows@[k]@, x@),
            decreases n - i,
        {
            proof {
                assert(rows_view(self.rows@)[i as int].len() == n);
            }
            out.push(dot(&self.rows[i], x));
            i += 1;
        }
        proof {
            if deterministic_arithmetic::<S>() {
                assert(out@ =~= spec_mat_vec(self@, x@));
            }
        }
        out
    }
}

} // verus!
