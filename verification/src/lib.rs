//! Chebyshev polynomial toolkit: node generation, coefficient fitting, and
//! Clenshaw evaluation, generic over a pair of scalar capability traits.
//!
//! The pipeline for piecewise Chebyshev interpolation:
//!
//! 1. [`nodes`] / [`nodes_mapped`] — Chebyshev node generation on the
//!    canonical interval or mapped onto an arbitrary one.
//! 2. [`fit_coeffs`] / [`fit_from_fn`] — coefficient computation from
//!    function values at the nodes, by the discrete-cosine-transform
//!    identity.
//! 3. [`evaluate`] / [`evaluate_derivative`] / [`evaluate_both`] —
//!    Clenshaw-recurrence evaluation of a Chebyshev series (value,
//!    derivative, or both in one pass).
//! 4. [`ChebySegment`] / [`ChebySegmentTable`] — piecewise approximation
//!    over uniform-duration segments, with constant-time lookup and the
//!    `t -> tau` normalisation handled per segment.
//!
//! Every function is generic over [`ChebyReal`] (the dimensionless reals)
//! and [`ChebyScalar`] (the values being approximated, whether plain reals
//! or physically-dimensioned quantities), and its contract pins the result
//! to the exact combination of those traits' operations that the Chebyshev
//! formulas prescribe.

mod eval;
mod fit;
mod nodes;
pub mod scalar;
pub mod segment;

pub use eval::{
    clenshaw_b, clenshaw_db, clenshaw_derivative, clenshaw_value, evaluate, evaluate_both,
    evaluate_derivative, two_tau_spec,
};
pub use fit::{
    dct_partial_sum, fit_angle_spec, fit_coeff_spec, fit_coeffs, fit_coeffs_spec, fit_from_fn,
    fitted_from,
};
pub use nodes::{half_width_spec, mapped_node_spec, midpoint_spec, node_spec, nodes, nodes_mapped};
pub use scalar::{ChebyReal, ChebyScalar};
pub use segment::{
    lemma_segment_count_floor, num_segments_spec, segment_start_spec, ChebySegment,
    ChebySegmentTable,
};
