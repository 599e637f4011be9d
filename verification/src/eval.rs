//! Chebyshev polynomial evaluation using the Clenshaw recurrence.
//!
//! Given coefficients `c[0..n]` and a normalised argument `tau` (inside the
//! canonical interval for interpolation, outside it for extrapolation),
//! evaluates
//!
//! ```text
//! f(tau) = c[0]*T_0(tau) + c[1]*T_1(tau) + ... + c[n-1]*T_{n-1}(tau)
//! ```
//!
//! where `T_k` are Chebyshev polynomials of the first kind, without ever
//! forming the basis polynomials or powers of `tau`:
//!
//! ```text
//! b_{n+1} = 0,  b_n = 0
//! b_k     = 2*tau*b_{k+1} - b_{k+2} + c[k]   for k = n-1, ..., 1
//! value   = c[0] + tau*b_1 - b_2
//! ```
//!
//! The derivative tracks the differentiated recurrence alongside:
//!
//! ```text
//! db_k       = 2*tau*db_{k+1} - db_{k+2} + 2*b_{k+1}
//! derivative = b_1 + tau*db_1 - db_2
//! ```
//!
//! The contracts below pin each result to these recurrences, spelled out
//! over the operations of [`ChebyReal`] and [`ChebyScalar`]; in particular
//! [`evaluate_both`] returns exactly the pair that [`evaluate`] and
//! [`evaluate_derivative`] return separately.

use vstd::prelude::*;

use crate::scalar::{ChebyReal, ChebyScalar};

verus! {

/// The doubled argument `2 * tau` that drives both recurrences.
pub open spec fn two_tau_spec<R: ChebyReal>(tau: R) -> R {
    R::from_count_spec(2).times_spec(tau)
}

/// The Clenshaw auxiliary value `b_k` for the coefficients `coeffs`, with
/// `b_k = 0` for `k >= coeffs.len()` (the seeds) and for `k < 1` (never
/// used by the recurrence).
pub open spec fn clenshaw_b<R: ChebyReal, S: ChebyScalar<R>>(
    coeffs: Seq<S>,
    two_tau: R,
    k: int,
) -> S
    decreases coeffs.len() + 2 - k,
{
    if k >= coeffs.len() || k < 1 {
        S::zero_spec()
    } else {
        clenshaw_b(coeffs, two_tau, k + 1).scale_spec(two_tau).minus_spec(
            clenshaw_b(coeffs, two_tau, k + 2),
        ).plus_spec(coeffs[k])
    }
}

/// The differentiated Clenshaw auxiliary value `db_k`, sharing the `b`
/// sequence of [`clenshaw_b`], with the same zero seeds.
pub open spec fn clenshaw_db<R: ChebyReal, S: ChebyScalar<R>>(
    coeffs: Seq<S>,
    two_tau: R,
    k: int,
) -> S
    decreases coeffs.len() + 2 - k,
{
    if k >= coeffs.len() || k < 1 {
        S::zero_spec()
    } else {
        clenshaw_db(coeffs, two_tau, k + 1).scale_spec(two_tau).minus_spec(
            clenshaw_db(coeffs, two_tau, k + 2),
        ).plus_spec(clenshaw_b(coeffs, two_tau, k + 1).scale_spec(R::from_count_spec(2)))
    }
}

/// The value of the Chebyshev series `coeffs` at `tau`: zero for an empty
/// series, the sole coefficient for a constant one, and the Clenshaw
/// combination `c[0] + tau*b_1 - b_2` otherwise.
pub open spec fn clenshaw_value<R: ChebyReal, S: ChebyScalar<R>>(coeffs: Seq<S>, tau: R) -> S {
    if coeffs.len() == 0 {
        S::zero_spec()
    } else if coeffs.len() == 1 {
        coeffs[0]
    } else {
        coeffs[0].plus_spec(clenshaw_b(coeffs, two_tau_spec(tau), 1).scale_spec(tau)).minus_spec(
            clenshaw_b(coeffs, two_tau_spec(tau), 2),
        )
    }
}

/// The derivative of the Chebyshev series `coeffs` with respect to `tau`:
/// zero for an empty or constant series, and the differentiated Clenshaw
/// combination `b_1 + tau*db_1 - db_2` otherwise.
pub open spec fn clenshaw_derivative<R: ChebyReal, S: ChebyScalar<R>>(coeffs: Seq<S>, tau: R) -> S {
    if coeffs.len() <= 1 {
        S::zero_spec()
    } else {
        clenshaw_b(coeffs, two_tau_spec(tau), 1).plus_spec(
            clenshaw_db(coeffs, two_tau_spec(tau), 1).scale_spec(tau),
        ).minus_spec(clenshaw_db(coeffs, two_tau_spec(tau), 2))
    }
}

/// Evaluate a Chebyshev series at the normalised argument `tau` using the
/// Clenshaw recurrence.
///
/// - `coeffs`: Chebyshev coefficients `c[0..n]`.
/// - `tau`: normalised argument; arguments outside the canonical interval
///   are extrapolated, not rejected.
pub fn evaluate<R: ChebyReal, S: ChebyScalar<R>>(coeffs: &Vec<S>, tau: R) -> (r: S)
    ensures
        r == clenshaw_value(coeffs@, tau),
{
    let n: usize = coeffs.len();
    if n == 0 {
        return S::zero();
    }
    if n == 1 {
        return coeffs[0];
    }

    let two_tau = R::from_count(2).times(tau);
    let mut b_kp1 = S::zero();  // b_{k+1}
    let mut b_kp2 = S::zero();  // b_{k+2}

    let mut k: usize = n;
    while k > 1
        invariant
            1 <= k <= n,
            n == coeffs@.len(),
            two_tau == two_tau_spec(tau),
            b_kp1 == clenshaw_b(coeffs@, two_tau, k as int),
            b_kp2 == clenshaw_b(coeffs@, two_tau, k as int + 1),
        decreases k,
    {
        k = k - 1;
        let b_k = b_kp1.scale(two_tau).minus(b_kp2).plus(coeffs[k]);
        b_kp2 = b_kp1;
        b_kp1 = b_k;
    }

    coeffs[0].plus(b_kp1.scale(tau)).minus(b_kp2)
}

/// Evaluate the derivative of a Chebyshev series with respect to the
/// normalised argument `tau`.
///
/// To get a derivative with respect to physical time, divide by the
/// half-width of the interval (the chain rule); [`ChebySegment`] methods
/// do so automatically.
///
/// [`ChebySegment`]: crate::ChebySegment
pub fn evaluate_derivative<R: ChebyReal, S: ChebyScalar<R>>(coeffs: &Vec<S>, tau: R) -> (r: S)
    ensures
        r == clenshaw_derivative(coeffs@, tau),
{
    let n: usize = coeffs.len();
    if n <= 1 {
        return S::zero();
    }

    let two = R::from_count(2);
    let two_tau = two.times(tau);
    let mut b_kp1 = S::zero();
    let mut b_kp2 = S::zero();
    let mut db_kp1 = S::zero();
    let mut db_kp2 = S::zero();

    let mut k: usize = n;
    while k > 1
        invariant
            1 <= k <= n,
            n == coeffs@.len(),
            two == R::from_count_spec(2),
            two_tau == two_tau_spec(tau),
            b_kp1 == clenshaw_b(coeffs@, two_tau, k as int),
            b_kp2 == clenshaw_b(coeffs@, two_tau, k as int + 1),
            db_kp1 == clenshaw_db(coeffs@, two_tau, k as int),
            db_kp2 == clenshaw_db(coeffs@, two_tau, k as int + 1),
        decreases k,
    {
        k = k - 1;
        let b_k = b_kp1.scale(two_tau).minus(b_kp2).plus(coeffs[k]);
        let db_k = db_kp1.scale(two_tau).minus(db_kp2).plus(b_kp1.scale(two));
        b_kp2 = b_kp1;
        b_kp1 = b_k;
        db_kp2 = db_kp1;
        db_kp1 = db_k;
    }

    b_kp1.plus(db_kp1.scale(tau)).minus(db_kp2)
}

/// Evaluate both the value and the derivative of a Chebyshev series in one
/// pass, sharing the `b` recurrence.
///
/// Returns exactly the pair `(evaluate(coeffs, tau),
/// evaluate_derivative(coeffs, tau))`.
pub fn evaluate_both<R: ChebyReal, S: ChebyScalar<R>>(coeffs: &Vec<S>, tau: R) -> (r: (S, S))
    ensures
        r.0 == clenshaw_value(coeffs@, tau),
        r.1 == clenshaw_derivative(coeffs@, tau),
{
    let n: usize = coeffs.len();
    if n == 0 {
        return (S::zero(), S::zero());
    }
    if n == 1 {
        return (coeffs[0], S::zero());
    }

    let two = R::from_count(2);
    let two_tau = two.times(tau);
    let mut b_kp1 = S::zero();
    let mut b_kp2 = S::zero();
    let mut db_kp1 = S::zero();
    let mut db_kp2 = S::zero();

    let mut k: usize = n;
    while k > 1
        invariant
            1 <= k <= n,
            n == coeffs@.len(),
            two == R::from_count_spec(2),
            two_tau == two_tau_spec(tau),
            b_kp1 == clenshaw_b(coeffs@, two_tau, k as int),
            b_kp2 == clenshaw_b(coeffs@, two_tau, k as int + 1),
            db_kp1 == clenshaw_db(coeffs@, two_tau, k as int),
            db_kp2 == clenshaw_db(coeffs@, two_tau, k as int + 1),
        decreases k,
    {
        k = k - 1;
        let b_k = b_kp1.scale(two_tau).minus(b_kp2).plus(coeffs[k]);
        let db_k = db_kp1.scale(two_tau).minus(db_kp2).plus(b_kp1.scale(two));
        b_kp2 = b_kp1;
        b_kp1 = b_k;
        db_kp2 = db_kp1;
        db_kp1 = db_k;
    }

    let value = coeffs[0].plus(b_kp1.scale(tau)).minus(b_kp2);
    let deriv = b_kp1.plus(db_kp1.scale(tau)).minus(db_kp2);
    (value, deriv)
}

} // verus!
