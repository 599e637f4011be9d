//! Chebyshev coefficient fitting via the discrete-cosine-transform formula.
//!
//! Given function values at `n` Chebyshev nodes, computes the Chebyshev
//! coefficients `c_0, ..., c_{n-1}` by the identity
//!
//! ```text
//! c_0 = (1/n) * sum_k values[k]                                  (j = 0)
//! c_j = (2/n) * sum_k values[k] * cos(j*pi*(2k+1) / (2n))        (j >= 1)
//! ```
//!
//! (for `j = 0` the cosine factor is `cos(0)`, which the executable code
//! computes like any other angle). The cost is quadratic in `n`.
//!
//! `values[k]` must be the target function sampled at the `k`-th canonical
//! node of [`nodes`](crate::nodes) — the descending order of that sequence
//! is load-bearing; supplying samples in any other order yields silently
//! wrong coefficients. This is a documented precondition of the
//! mathematics, not a checked one: any sequence of scalars is accepted.

use vstd::prelude::*;

use crate::nodes::mapped_node_spec;
use crate::nodes::nodes_mapped;
use crate::scalar::{ChebyReal, ChebyScalar};

verus! {

/// The angle `j*pi*(2k+1) / (2n)` of the fitting formula, spelled out over
/// the operations of `R` exactly as the executable code combines them.
pub open spec fn fit_angle_spec<R: ChebyReal>(j: int, k: int, count: int) -> R {
    R::pi_spec().times_spec(R::from_count_spec(j)).times_spec(
        R::from_count_spec(2).times_spec(R::from_count_spec(k)).plus_spec(R::from_count_spec(1)),
    ).div_by_spec(R::from_count_spec(2).times_spec(R::from_count_spec(count)))
}

/// The sum of the first `upto` terms `values[k] * cos(angle(j, k))` of the
/// fitting formula for coefficient `j`.
pub open spec fn dct_partial_sum<R: ChebyReal, S: ChebyScalar<R>>(
    values: Seq<S>,
    j: int,
    upto: int,
) -> S
    decreases upto,
{
    if upto <= 0 {
        S::zero_spec()
    } else {
        dct_partial_sum::<R, S>(values, j, upto - 1).plus_spec(
            values[upto - 1].scale_spec(
                fit_angle_spec::<R>(j, upto - 1, values.len() as int).cos_spec(),
            ),
        )
    }
}

/// The `j`-th fitted coefficient: the full sum over all samples, divided
/// by `n` for the mean term `c_0` and scaled by `2/n` for every higher
/// term.
pub open spec fn fit_coeff_spec<R: ChebyReal, S: ChebyScalar<R>>(values: Seq<S>, j: int) -> S {
    let n = values.len() as int;
    let sum = dct_partial_sum::<R, S>(values, j, n);
    if j == 0 {
        sum.scale_div_spec(R::from_count_spec(n))
    } else {
        sum.scale_spec(R::from_count_spec(2).div_by_spec(R::from_count_spec(n)))
    }
}

/// The whole fitted coefficient sequence: as many coefficients as samples.
pub open spec fn fit_coeffs_spec<R: ChebyReal, S: ChebyScalar<R>>(values: Seq<S>) -> Seq<S> {
    Seq::new(values.len(), |j: int| fit_coeff_spec::<R, S>(values, j))
}

/// Whether `coeffs` is a fit of samples of `f` at the `count` canonical
/// nodes mapped onto `[start, end]`: some sequence of values, each a
/// possible result of `f` at its node, fits to exactly `coeffs`.
pub open spec fn fitted_from<R: ChebyReal, S: ChebyScalar<R>, F: Fn(R) -> S>(
    f: F,
    count: int,
    start: R,
    end: R,
    coeffs: Seq<S>,
) -> bool {
    exists|values: Seq<S>|
        #![trigger values.len()]
        values.len() == count && (forall|k: int|
            0 <= k < count ==> call_ensures(
                f,
                (mapped_node_spec::<R>(k, count, start, end),),
                #[trigger] values[k],
            )) && coeffs == fit_coeffs_spec::<R, S>(values)
}

/// Compute Chebyshev coefficients from function values sampled at the
/// canonical Chebyshev nodes.
///
/// `values[k]` must correspond to the function evaluated at the `k`-th
/// node returned by [`nodes`](crate::nodes). An empty sample sequence
/// yields an empty coefficient sequence.
pub fn fit_coeffs<R: ChebyReal, S: ChebyScalar<R>>(values: &Vec<S>) -> (r: Vec<S>)
    ensures
        r@.len() == values@.len(),
        r@ == fit_coeffs_spec::<R, S>(values@),
{
    let n: usize = values.len();
    let two = R::from_count(2);
    let one = R::from_count(1);
    let pi = R::pi();
    let nf = R::from_count(n);
    let denom = two.times(nf);

    let mut coeffs: Vec<S> = Vec::new();
    for j in 0..n
        invariant
            n == values@.len(),
            coeffs@.len() == j,
            forall|i: int| 0 <= i < j ==> coeffs@[i] == fit_coeff_spec::<R, S>(values@, i),
            two == R::from_count_spec(2),
            one == R::from_count_spec(1),
            pi == R::pi_spec(),
            nf == R::from_count_spec(n as int),
            denom == R::from_count_spec(2).times_spec(R::from_count_spec(n as int)),
    {
        let jf = R::from_count(j);
        let mut sum = S::zero();
        for k in 0..n
            invariant
                n == values@.len(),
                sum == dct_partial_sum::<R, S>(values@, j as int, k as int),
                two == R::from_count_spec(2),
                one == R::from_count_spec(1),
                pi == R::pi_spec(),
                jf == R::from_count_spec(j as int),
                denom == R::from_count_spec(2).times_spec(R::from_count_spec(n as int)),
        {
            let angle = pi.times(jf).times(two.times(R::from_count(k)).plus(one)).div_by(denom);
            sum = sum.plus(values[k].scale(angle.cos()));
        }
        let c = if j == 0 {
            sum.scale_div(nf)
        } else {
            sum.scale(two.div_by(nf))
        };
        coeffs.push(c);
    }
    proof {
        assert(coeffs@ =~= fit_coeffs_spec::<R, S>(values@));
    }
    coeffs
}

/// Sample a function at `count` Chebyshev nodes on `[start, end]` and fit
/// Chebyshev coefficients — a convenience pipeline combining
/// [`nodes_mapped`](crate::nodes_mapped), sampling, and [`fit_coeffs`].
///
/// `f` is called exactly once per node.
pub fn fit_from_fn<R: ChebyReal, S: ChebyScalar<R>, F: Fn(R) -> S>(
    f: F,
    start: R,
    end: R,
    count: usize,
) -> (r: Vec<S>)
    requires
        forall|k: int|
            0 <= k < count ==> call_requires(
                f,
                (mapped_node_spec::<R>(k, count as int, start, end),),
            ),
    ensures
        r@.len() == count,
        fitted_from(f, count as int, start, end, r@),
{
    let mapped = nodes_mapped::<R>(count, start, end);
    let mut values: Vec<S> = Vec::new();
    for k in 0..count
        invariant
            mapped@.len() == count,
            forall|i: int|
                0 <= i < count ==> mapped@[i] == mapped_node_spec::<R>(
                    i,
                    count as int,
                    start,
                    end,
                ),
            forall|i: int|
                0 <= i < count ==> call_requires(
                    f,
                    (mapped_node_spec::<R>(i, count as int, start, end),),
                ),
            values@.len() == k,
            forall|i: int|
                0 <= i < k ==> call_ensures(
                    f,
                    (mapped_node_spec::<R>(i, count as int, start, end),),
                    #[trigger] values@[i],
                ),
    {
        values.push(f(mapped[k]));
    }
    let r = fit_coeffs(&values);
    proof {
        let vs = values@;
        assert(vs.len() == count as int && (forall|k: int|
            0 <= k < count as int ==> call_ensures(
                f,
                (mapped_node_spec::<R>(k, count as int, start, end),),
                #[trigger] vs[k],
            )) && r@ == fit_coeffs_spec::<R, S>(vs));
    }
    r
}

} // verus!
