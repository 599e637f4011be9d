//! Piecewise Chebyshev segment management.
//!
//! A [`ChebySegment`] couples one fitted coefficient set with a physical
//! sub-interval, owning the affine `t -> tau` normalisation.
//!
//! A [`ChebySegmentTable`] partitions a physical domain into
//! uniform-duration segments, each independently fitted, and provides
//! constant-time lookup plus evaluation dispatch. Both are immutable once
//! built: every operation is a pure read.

use vstd::prelude::*;

use crate::eval::{clenshaw_derivative, clenshaw_value, evaluate, evaluate_both,
    evaluate_derivative};
use crate::fit::{fit_coeffs, fit_coeffs_spec, fitted_from};
use crate::nodes::{mapped_node_spec, nodes_mapped};
use crate::scalar::{ChebyReal, ChebyScalar};

verus! {

/// A single Chebyshev interpolation segment.
///
/// Stores the coefficients and the domain `[mid - half, mid + half]`; the
/// `eval*` methods handle the `t -> tau` mapping automatically. A segment
/// performs no range checking — it happily normalises and evaluates any
/// `t`, including outside its nominal domain (that is extrapolation);
/// range enforcement belongs to [`ChebySegmentTable`]. The half-width is
/// likewise taken as given: for a half-width that is zero or negative the
/// methods still return exactly the value of the normalisation formula,
/// ill-suited to interpolation as it then is.
#[derive(Debug, Clone)]
pub struct ChebySegment<R: ChebyReal, S: ChebyScalar<R>> {
    /// Chebyshev coefficients `c[0..n]`.
    pub coeffs: Vec<S>,
    /// Midpoint of the segment domain.
    pub mid: R,
    /// Half-width of the segment domain.
    pub half: R,
}

impl<R: ChebyReal, S: ChebyScalar<R>> ChebySegment<R, S> {
    /// The normalised argument `(t - mid) / half`.
    pub open spec fn spec_normalise(self, t: R) -> R {
        t.minus_spec(self.mid).div_by_spec(self.half)
    }

    /// The series value at physical time `t`.
    pub open spec fn spec_eval(self, t: R) -> S {
        clenshaw_value(self.coeffs@, self.spec_normalise(t))
    }

    /// The derivative with respect to physical time at `t`: the chain rule
    /// divides the `tau`-derivative by the half-width.
    pub open spec fn spec_eval_derivative(self, t: R) -> S {
        clenshaw_derivative(self.coeffs@, self.spec_normalise(t)).scale_div_spec(self.half)
    }

    /// Create a segment from pre-computed coefficients and domain.
    pub fn new(coeffs: Vec<S>, mid: R, half: R) -> (r: Self)
        ensures
            r.coeffs == coeffs,
            r.mid == mid,
            r.half == half,
    {
        Self { coeffs, mid, half }
    }

    /// Normalise `t` to the canonical argument `tau` within this segment.
    pub fn normalise(&self, t: R) -> (r: R)
        ensures
            r == self.spec_normalise(t),
    {
        t.minus(self.mid).div_by(self.half)
    }

    /// Evaluate the Chebyshev series at physical time `t`.
    pub fn eval(&self, t: R) -> (r: S)
        ensures
            r == self.spec_eval(t),
    {
        let tau = self.normalise(t);
        evaluate(&self.coeffs, tau)
    }

    /// Evaluate the derivative with respect to physical time at `t`.
    ///
    /// Accounts for the chain rule: the derivative of the series with
    /// respect to `tau` is divided by the half-width, since
    /// `tau = (t - mid) / half` is affine in `t`.
    pub fn eval_derivative(&self, t: R) -> (r: S)
        ensures
            r == self.spec_eval_derivative(t),
    {
        let tau = self.normalise(t);
        evaluate_derivative(&self.coeffs, tau).scale_div(self.half)
    }

    /// Evaluate both value and physical-time derivative in one pass,
    /// sharing the recurrence — the pair equals exactly
    /// `(eval(t), eval_derivative(t))`.
    pub fn eval_both(&self, t: R) -> (r: (S, S))
        ensures
            r.0 == self.spec_eval(t),
            r.1 == self.spec_eval_derivative(t),
    {
        let tau = self.normalise(t);
        let (v, d) = evaluate_both(&self.coeffs, tau);
        (v, d.scale_div(self.half))
    }
}

/// The start of the `i`-th uniform segment: `start + i * segment_len`.
pub open spec fn segment_start_spec<R: ChebyReal>(start: R, segment_len: R, i: int) -> R {
    start.plus_spec(R::from_count_spec(i).times_spec(segment_len))
}

/// How many uniform segments cover `[start, end)`:
/// `ceil((end - start) / segment_len)`, with a floor of one — a degenerate
/// span still yields a single segment.
pub open spec fn num_segments_spec<R: ChebyReal>(start: R, end: R, segment_len: R) -> usize {
    let m = end.minus_spec(start).div_by_spec(segment_len).ceil_spec().trunc_spec();
    if m < 1 {
        1
    } else {
        m
    }
}

/// A table built over any span holds at least one segment: the count
/// `ceil((end - start) / segment_len)` is floored at one, so even an empty
/// or backwards span yields a single segment rather than an empty table.
pub proof fn lemma_segment_count_floor<R: ChebyReal>(start: R, end: R, segment_len: R)
    ensures
        num_segments_spec(start, end, segment_len) >= 1,
{
}

/// A table of uniform-duration Chebyshev segments covering a time range.
///
/// Segment `i` covers `[start + i*segment_len, start + (i+1)*segment_len)`;
/// lookup is constant-time by index, with a half-open upper bound (the
/// table's own reported end is out of range). The table is immutable after
/// construction.
///
/// The segment duration is taken as given and never validated: building or
/// querying a table with a zero or negative duration yields exactly what
/// the index formula says, which is not a meaningful partition.
#[derive(Debug, Clone)]
pub struct ChebySegmentTable<R: ChebyReal, S: ChebyScalar<R>> {
    /// Start of the first segment.
    start: R,
    /// Duration of each segment.
    segment_len: R,
    /// Segments, in chronological order.
    segments: Vec<ChebySegment<R, S>>,
}

impl<R: ChebyReal, S: ChebyScalar<R>> ChebySegmentTable<R, S> {
    /// The start of the covered domain.
    pub closed spec fn spec_start(self) -> R {
        self.start
    }

    /// The duration of each segment.
    pub closed spec fn spec_segment_len(self) -> R {
        self.segment_len
    }

    /// The segments, in chronological order.
    pub closed spec fn spec_segments(self) -> Seq<ChebySegment<R, S>> {
        self.segments@
    }

    /// The index `trunc((t - start) / segment_len)` that lookup computes.
    pub open spec fn spec_index_of(self, t: R) -> usize {
        t.minus_spec(self.spec_start()).div_by_spec(self.spec_segment_len()).trunc_spec()
    }

    /// Whether `t` resolves to a segment: the offset from the start is not
    /// negative and the computed index is within the segment sequence.
    pub open spec fn spec_has(self, t: R) -> bool {
        &&& !t.minus_spec(self.spec_start()).less_than_spec(R::zero_spec())
        &&& self.spec_index_of(t) < self.spec_segments().len()
    }

    /// The end of the covered domain: `start + count * segment_len`.
    pub open spec fn spec_end(self) -> R {
        self.spec_start().plus_spec(
            R::from_count_spec(self.spec_segments().len() as int).times_spec(
                self.spec_segment_len(),
            ),
        )
    }

    /// Build a segment table by sampling `f` at the Chebyshev nodes of
    /// each segment and fitting each segment independently.
    ///
    /// Divides `[start, end)` into `ceil((end - start) / segment_len)`
    /// segments (at least one) of identical duration `segment_len`; the
    /// last segment may extend past `end` when the span is not an exact
    /// multiple — the table's reported end is then past the requested one.
    /// Each segment gets `n_coeffs` coefficients.
    pub fn from_fn<F: Fn(R) -> S>(f: F, start: R, end: R, segment_len: R, n_coeffs: usize) -> (r:
        Self)
        requires
            forall|i: int, k: int|
                0 <= i < num_segments_spec(start, end, segment_len) && 0 <= k < n_coeffs
                    ==> call_requires(
                    f,
                    (mapped_node_spec::<R>(
                        k,
                        n_coeffs as int,
                        segment_start_spec(start, segment_len, i),
                        segment_start_spec(start, segment_len, i).plus_spec(segment_len),
                    ),),
                ),
        ensures
            r.spec_start() == start,
            r.spec_segment_len() == segment_len,
            r.spec_segments().len() == num_segments_spec(start, end, segment_len),
            forall|i: int|
                0 <= i < r.spec_segments().len() ==> {
                    &&& (#[trigger] r.spec_segments()[i]).half == segment_len.div_by_spec(
                        R::from_count_spec(2),
                    )
                    &&& r.spec_segments()[i].mid == segment_start_spec(
                        start,
                        segment_len,
                        i,
                    ).plus_spec(segment_len.div_by_spec(R::from_count_spec(2)))
                    &&& r.spec_segments()[i].coeffs@.len() == n_coeffs
                    &&& fitted_from(
                        f,
                        n_coeffs as int,
                        segment_start_spec(start, segment_len, i),
                        segment_start_spec(start, segment_len, i).plus_spec(segment_len),
                        r.spec_segments()[i].coeffs@,
                    )
                },
    {
        let m: usize = end.minus(start).div_by(segment_len).ceil().trunc();
        let num_segments: usize = if m < 1 {
            1
        } else {
            m
        };
        let two = R::from_count(2);
        let half = segment_len.div_by(two);

        let mut segments: Vec<ChebySegment<R, S>> = Vec::new();
        for i in 0..num_segments
            invariant
                num_segments == num_segments_spec(start, end, segment_len),
                half == segment_len.div_by_spec(R::from_count_spec(2)),
                forall|ii: int, k: int|
                    0 <= ii < num_segments && 0 <= k < n_coeffs ==> call_requires(
                        f,
                        (mapped_node_spec::<R>(
                            k,
                            n_coeffs as int,
                            segment_start_spec(start, segment_len, ii),
                            segment_start_spec(start, segment_len, ii).plus_spec(segment_len),
                        ),),
                    ),
                segments@.len() == i,
                forall|ii: int|
                    0 <= ii < i ==> {
                        &&& (#[trigger] segments@[ii]).half == segment_len.div_by_spec(
                            R::from_count_spec(2),
                        )
                        &&& segments@[ii].mid == segment_start_spec(
                            start,
                            segment_len,
                            ii,
                        ).plus_spec(segment_len.div_by_spec(R::from_count_spec(2)))
                        &&& segments@[ii].coeffs@.len() == n_coeffs
                        &&& fitted_from(
                            f,
                            n_coeffs as int,
                            segment_start_spec(start, segment_len, ii),
                            segment_start_spec(start, segment_len, ii).plus_spec(segment_len),
                            segments@[ii].coeffs@,
                        )
                    },
        {
            let seg_start = start.plus(R::from_count(i).times(segment_len));
            let seg_end = seg_start.plus(segment_len);
            let mid = seg_start.plus(half);

            let ts = nodes_mapped::<R>(n_coeffs, seg_start, seg_end);
            let mut values: Vec<S> = Vec::new();
            for k in 0..n_coeffs
                invariant
                    i < num_segments,
                    num_segments == num_segments_spec(start, end, segment_len),
                    seg_start == segment_start_spec(start, segment_len, i as int),
                    seg_end == segment_start_spec(start, segment_len, i as int).plus_spec(
                        segment_len,
                    ),
                    ts@.len() == n_coeffs,
                    forall|kk: int|
                        0 <= kk < n_coeffs ==> ts@[kk] == mapped_node_spec::<R>(
                            kk,
                            n_coeffs as int,
                            seg_start,
                            seg_end,
                        ),
                    forall|ii: int, kk: int|
                        0 <= ii < num_segments && 0 <= kk < n_coeffs ==> call_requires(
                            f,
                            (mapped_node_spec::<R>(
                                kk,
                                n_coeffs as int,
                                segment_start_spec(start, segment_len, ii),
                                segment_start_spec(start, segment_len, ii).plus_spec(segment_len),
                            ),),
                        ),
                    values@.len() == k,
                    forall|kk: int|
                        0 <= kk < k ==> call_ensures(
                            f,
                            (mapped_node_spec::<R>(kk, n_coeffs as int, seg_start, seg_end),),
                            #[trigger] values@[kk],
                        ),
            {
                values.push(f(ts[k]));
            }
            let coeffs = fit_coeffs(&values);
            proof {
                let vs = values@;
                assert(vs.len() == n_coeffs as int && (forall|kk: int|
                    0 <= kk < n_coeffs as int ==> call_ensures(
                        f,
                        (mapped_node_spec::<R>(kk, n_coeffs as int, seg_start, seg_end),),
                        #[trigger] vs[kk],
                    )) && coeffs@ == fit_coeffs_spec::<R, S>(vs));
            }
            segments.push(ChebySegment { coeffs, mid, half });
        }

        Self { start, segment_len, segments }
    }

    /// Build a table from pre-computed segments.
    ///
    /// The caller is responsible for the segments being contiguous, in
    /// chronological order and of duration `segment_len` from `start`
    /// onward; the table performs no validation.
    pub fn from_segments(segments: Vec<ChebySegment<R, S>>, start: R, segment_len: R) -> (r: Self)
        ensures
            r.spec_start() == start,
            r.spec_segment_len() == segment_len,
            r.spec_segments() == segments@,
    {
        Self { start, segment_len, segments }
    }

    /// Number of segments in the table.
    pub fn len(&self) -> (r: usize)
        ensures
            r == self.spec_segments().len(),
    {
        self.segments.len()
    }

    /// Whether the table holds no segment.
    pub fn is_empty(&self) -> (r: bool)
        ensures
            r == (self.spec_segments().len() == 0),
    {
        self.segments.len() == 0
    }

    /// Start of the covered domain.
    pub fn start(&self) -> (r: R)
        ensures
            r == self.spec_start(),
    {
        self.start
    }

    /// End of the covered domain: `start + count * segment_len`.
    pub fn end(&self) -> (r: R)
        ensures
            r == self.spec_end(),
    {
        self.start.plus(R::from_count(self.segments.len()).times(self.segment_len))
    }

    /// Duration of each segment.
    pub fn segment_len(&self) -> (r: R)
        ensures
            r == self.spec_segment_len(),
    {
        self.segment_len
    }

    /// Look up the segment containing `t`.
    ///
    /// Absent exactly when `t` lies before the start or the index
    /// `trunc((t - start) / segment_len)` is past the last segment — the
    /// upper bound is half-open, so the table's own reported end is out of
    /// range.
    pub fn get_segment(&self, t: R) -> (r: Option<&ChebySegment<R, S>>)
        ensures
            r.is_some() <==> self.spec_has(t),
            match r {
                Some(seg) => *seg == self.spec_segments()[self.spec_index_of(t) as int],
                None => true,
            },
    {
        let offset = t.minus(self.start);
        if offset.less_than(R::zero()) {
            return None;
        }
        let idx: usize = offset.div_by(self.segment_len).trunc();
        if idx < self.segments.len() {
            Some(&self.segments[idx])
        } else {
            None
        }
    }

    /// Evaluate at `t`; absent exactly when [`get_segment`] is absent.
    ///
    /// [`get_segment`]: Self::get_segment
    pub fn eval(&self, t: R) -> (r: Option<S>)
        ensures
            r.is_some() <==> self.spec_has(t),
            match r {
                Some(v) => v == self.spec_segments()[self.spec_index_of(t) as int].spec_eval(t),
                None => true,
            },
    {
        match self.get_segment(t) {
            Some(seg) => Some(seg.eval(t)),
            None => None,
        }
    }

    /// Evaluate the physical-time derivative at `t`; absent exactly when
    /// [`get_segment`] is absent.
    ///
    /// [`get_segment`]: Self::get_segment
    pub fn eval_derivative(&self, t: R) -> (r: Option<S>)
        ensures
            r.is_some() <==> self.spec_has(t),
            match r {
                Some(v) => v == self.spec_segments()[self.spec_index_of(t) as int]
                    .spec_eval_derivative(t),
                None => true,
            },
    {
        match self.get_segment(t) {
            Some(seg) => Some(seg.eval_derivative(t)),
            None => None,
        }
    }

    /// Evaluate value and derivative at `t` in one pass; absent exactly
    /// when [`get_segment`] is absent.
    ///
    /// [`get_segment`]: Self::get_segment
    pub fn eval_both(&self, t: R) -> (r: Option<(S, S)>)
        ensures
            r.is_some() <==> self.spec_has(t),
            match r {
                Some(p) => {
                    &&& p.0 == self.spec_segments()[self.spec_index_of(t) as int].spec_eval(t)
                    &&& p.1 == self.spec_segments()[self.spec_index_of(t) as int]
                        .spec_eval_derivative(t)
                },
                None => true,
            },
    {
        match self.get_segment(t) {
            Some(seg) => Some(seg.eval_both(t)),
            None => None,
        }
    }

    /// Read-only access to the underlying segment sequence.
    pub fn segments(&self) -> (r: &Vec<ChebySegment<R, S>>)
        ensures
            r@ == self.spec_segments(),
    {
        &self.segments
    }
}

} // verus!
