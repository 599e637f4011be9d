//! Chebyshev node generation.
//!
//! Chebyshev nodes (zeros of the Chebyshev polynomial of the first kind)
//! minimise the maximum interpolation error for smooth functions, avoiding
//! the Runge phenomenon that plagues equally-spaced nodes.
//!
//! For `count` nodes on the canonical interval:
//!
//! ```text
//! xi_k = cos(pi * (2k + 1) / (2 * count)),  k = 0, ..., count - 1
//! ```
//!
//! which is a descending sequence (near +1 first, near -1 last). Fitting
//! assumes `values[k]` corresponds to the `k`-th node of this ordering.

use vstd::prelude::*;

use crate::scalar::ChebyReal;

verus! {

/// The `k`-th of `count` canonical Chebyshev nodes:
/// `cos(pi * (2k + 1) / (2 * count))`, spelled out over the operations of
/// `R`.
pub open spec fn node_spec<R: ChebyReal>(k: int, count: int) -> R {
    R::pi_spec().times_spec(
        R::from_count_spec(2).times_spec(R::from_count_spec(k)).plus_spec(R::from_count_spec(1)),
    ).div_by_spec(R::from_count_spec(2).times_spec(R::from_count_spec(count))).cos_spec()
}

/// The midpoint `(start + end) / 2` of an interval.
pub open spec fn midpoint_spec<R: ChebyReal>(start: R, end: R) -> R {
    start.plus_spec(end).div_by_spec(R::from_count_spec(2))
}

/// The half-width `(end - start) / 2` of an interval.
pub open spec fn half_width_spec<R: ChebyReal>(start: R, end: R) -> R {
    end.minus_spec(start).div_by_spec(R::from_count_spec(2))
}

/// The `k`-th canonical node mapped affinely onto `[start, end]`:
/// `mid + half * xi_k`.
pub open spec fn mapped_node_spec<R: ChebyReal>(k: int, count: int, start: R, end: R) -> R {
    midpoint_spec(start, end).plus_spec(
        half_width_spec(start, end).times_spec(node_spec::<R>(k, count)),
    )
}

/// Compute `count` Chebyshev nodes on the canonical interval.
///
/// Returns the nodes in the descending order natural to the cosine
/// formula (from near +1 to near -1). A count of zero yields an empty
/// sequence.
pub fn nodes<R: ChebyReal>(count: usize) -> (r: Vec<R>)
    ensures
        r@.len() == count,
        forall|k: int| 0 <= k < count ==> r@[k] == node_spec::<R>(k, count as int),
{
    let two = R::from_count(2);
    let one = R::from_count(1);
    let pi = R::pi();
    let denom = two.times(R::from_count(count));
    let mut out: Vec<R> = Vec::new();
    for k in 0..count
        invariant
            out@.len() == k,
            forall|i: int| 0 <= i < k ==> out@[i] == node_spec::<R>(i, count as int),
            two == R::from_count_spec(2),
            one == R::from_count_spec(1),
            pi == R::pi_spec(),
            denom == R::from_count_spec(2).times_spec(R::from_count_spec(count as int)),
    {
        let arg = pi.times(two.times(R::from_count(k)).plus(one)).div_by(denom);
        out.push(arg.cos());
    }
    out
}

/// Compute `count` Chebyshev nodes mapped onto the interval `[start, end]`.
///
/// Each canonical node `xi_k` is mapped to `mid + half * xi_k` where
/// `mid = (start + end) / 2` and `half = (end - start) / 2`.
pub fn nodes_mapped<R: ChebyReal>(count: usize, start: R, end: R) -> (r: Vec<R>)
    ensures
        r@.len() == count,
        forall|k: int| 0 <= k < count ==> r@[k] == mapped_node_spec::<R>(
            k,
            count as int,
            start,
            end,
        ),
{
    let two = R::from_count(2);
    let mid = start.plus(end).div_by(two);
    let half = end.minus(start).div_by(two);
    let unit = nodes::<R>(count);
    let mut out: Vec<R> = Vec::new();
    for k in 0..count
        invariant
            out@.len() == k,
            unit@.len() == count,
            forall|i: int| 0 <= i < count ==> unit@[i] == node_spec::<R>(i, count as int),
            forall|i: int| 0 <= i < k ==> out@[i] == mapped_node_spec::<R>(
                i,
                count as int,
                start,
                end,
            ),
            mid == midpoint_spec(start, end),
            half == half_width_spec(start, end),
    {
        out.push(mid.plus(half.times(unit[k])));
    }
    out
}

} // verus!
