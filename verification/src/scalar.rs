//! Capability contracts for the numbers the Chebyshev engine works on.
//!
//! The numerical pipeline never fixes a concrete number type. Instead it is
//! generic over two capability traits:
//!
//! - [`ChebyReal`]: the dimensionless reals used for arguments, angles and
//!   domain bounds. Each operation comes in a pair: an uninterpreted spec
//!   member naming the operation's mathematical meaning, and an executable
//!   method whose contract ties it to that name. The algorithms in this
//!   crate are verified to combine these operations exactly as the
//!   Chebyshev formulas demand, for every implementation of the trait.
//! - [`ChebyScalar`]: the values being approximated. A scalar only needs
//!   addition, subtraction, scaling by a real, division by a real, and a
//!   zero element, so plain reals and physically-dimensioned quantities
//!   participate uniformly.
//!
//! Implementations live with the caller (a floating-point wrapper, a typed
//! quantity, an exact rational): the engine itself never inspects a value.

use vstd::prelude::*;

verus! {

/// The dimensionless real numbers of the engine: arguments `t` and `tau`,
/// angles, midpoints, half-widths and durations.
///
/// Every operation is named by a spec member and delivered by an executable
/// method that must return exactly the named value. The trait states no
/// algebraic laws (an implementation over floating point satisfies none
/// exactly); contracts downstream therefore pin results to the precise
/// combination of these operations, never to idealized arithmetic.
///
/// The spec members default to an unspecified value, so an ordinary Rust
/// implementation outside the verified world (a floating-point wrapper)
/// only supplies the executable methods; a verified implementation
/// overrides the spec members it wants its callers to reason with.
///
/// Implementations must be total: the methods may not panic, whatever the
/// arguments (division by zero must yield some value of the type).
pub trait ChebyReal: Copy + Sized {
    /// The additive identity.
    open spec fn zero_spec() -> Self {
        arbitrary()
    }

    /// The circle constant pi, as this type represents it.
    open spec fn pi_spec() -> Self {
        arbitrary()
    }

    /// The image of a non-negative integer count in this type.
    open spec fn from_count_spec(n: int) -> Self {
        arbitrary()
    }

    /// The sum of two reals.
    open spec fn plus_spec(self, other: Self) -> Self {
        arbitrary()
    }

    /// The difference `self - other`.
    open spec fn minus_spec(self, other: Self) -> Self {
        arbitrary()
    }

    /// The product of two reals.
    open spec fn times_spec(self, other: Self) -> Self {
        arbitrary()
    }

    /// The quotient `self / other`.
    open spec fn div_by_spec(self, other: Self) -> Self {
        arbitrary()
    }

    /// The cosine of `self` (an angle in radians).
    open spec fn cos_spec(self) -> Self {
        arbitrary()
    }

    /// `self` rounded up to an integral value.
    open spec fn ceil_spec(self) -> Self {
        arbitrary()
    }

    /// `self` truncated towards zero and clamped into `usize`.
    open spec fn trunc_spec(self) -> usize {
        arbitrary()
    }

    /// The strict order `self < other`.
    open spec fn less_than_spec(self, other: Self) -> bool {
        arbitrary()
    }

    fn zero() -> (r: Self)
        ensures
            r == Self::zero_spec(),
    ;

    fn pi() -> (r: Self)
        ensures
            r == Self::pi_spec(),
    ;

    fn from_count(n: usize) -> (r: Self)
        ensures
            r == Self::from_count_spec(n as int),
    ;

    fn plus(self, other: Self) -> (r: Self)
        ensures
            r == self.plus_spec(other),
    ;

    fn minus(self, other: Self) -> (r: Self)
        ensures
            r == self.minus_spec(other),
    ;

    fn times(self, other: Self) -> (r: Self)
        ensures
            r == self.times_spec(other),
    ;

    fn div_by(self, other: Self) -> (r: Self)
        ensures
            r == self.div_by_spec(other),
    ;

    fn cos(self) -> (r: Self)
        ensures
            r == self.cos_spec(),
    ;

    fn ceil(self) -> (r: Self)
        ensures
            r == self.ceil_spec(),
    ;

    fn trunc(self) -> (r: usize)
        ensures
            r == self.trunc_spec(),
    ;

    fn less_than(self, other: Self) -> (r: bool)
        ensures
            r == self.less_than_spec(other),
    ;
}

/// A scalar type usable as a Chebyshev coefficient or sampled value.
///
/// This is the arithmetic needed by the Clenshaw recurrence and the
/// discrete-cosine-transform coefficient computation:
///
/// - addition and subtraction of two values of the same type,
/// - multiplication and division by a dimensionless real `R`,
/// - a zero element.
///
/// As with [`ChebyReal`], each operation is an uninterpreted spec member
/// with an executable counterpart, and implementations must be total.
pub trait ChebyScalar<R: ChebyReal>: Copy + Sized {
    /// The additive identity (zero).
    open spec fn zero_spec() -> Self {
        arbitrary()
    }

    /// The sum of two scalars.
    open spec fn plus_spec(self, other: Self) -> Self {
        arbitrary()
    }

    /// The difference `self - other`.
    open spec fn minus_spec(self, other: Self) -> Self {
        arbitrary()
    }

    /// `self` multiplied by the dimensionless real `factor`.
    open spec fn scale_spec(self, factor: R) -> Self {
        arbitrary()
    }

    /// `self` divided by the dimensionless real `divisor`.
    open spec fn scale_div_spec(self, divisor: R) -> Self {
        arbitrary()
    }

    /// The additive identity (zero).
    fn zero() -> (r: Self)
        ensures
            r == Self::zero_spec(),
    ;

    fn plus(self, other: Self) -> (r: Self)
        ensures
            r == self.plus_spec(other),
    ;

    fn minus(self, other: Self) -> (r: Self)
        ensures
            r == self.minus_spec(other),
    ;

    fn scale(self, factor: R) -> (r: Self)
        ensures
            r == self.scale_spec(factor),
    ;

    fn scale_div(self, divisor: R) -> (r: Self)
        ensures
            r == self.scale_div_spec(divisor),
    ;
}

} // verus!
