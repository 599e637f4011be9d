use cheby::{
    evaluate, evaluate_both, evaluate_derivative, fit_coeffs, fit_from_fn, nodes, nodes_mapped,
    ChebyReal, ChebyScalar, ChebySegment, ChebySegmentTable,
};

/// A dimensionless real backed by `f64`.
#[derive(Clone, Copy, PartialEq, Debug)]
struct R64(f64);

impl ChebyReal for R64 {
    fn zero() -> Self {
        R64(0.0)
    }
    fn pi() -> Self {
        R64(std::f64::consts::PI)
    }
    fn from_count(n: usize) -> Self {
        R64(n as f64)
    }
    fn plus(self, other: Self) -> Self {
        R64(self.0 + other.0)
    }
    fn minus(self, other: Self) -> Self {
        R64(self.0 - other.0)
    }
    fn times(self, other: Self) -> Self {
        R64(self.0 * other.0)
    }
    fn div_by(self, other: Self) -> Self {
        R64(self.0 / other.0)
    }
    fn cos(self) -> Self {
        R64(self.0.cos())
    }
    fn ceil(self) -> Self {
        R64(self.0.ceil())
    }
    fn trunc(self) -> usize {
        self.0 as usize
    }
    fn less_than(self, other: Self) -> bool {
        self.0 < other.0
    }
}

impl ChebyScalar<R64> for R64 {
    fn zero() -> Self {
        R64(0.0)
    }
    fn plus(self, other: Self) -> Self {
        R64(self.0 + other.0)
    }
    fn minus(self, other: Self) -> Self {
        R64(self.0 - other.0)
    }
    fn scale(self, factor: R64) -> Self {
        R64(self.0 * factor.0)
    }
    fn scale_div(self, divisor: R64) -> Self {
        R64(self.0 / divisor.0)
    }
}

/// A physically-typed scalar: kilometres, backed by `qtty`.
#[derive(Clone, Copy)]
struct Kms(qtty::Kilometer);

impl ChebyScalar<R64> for Kms {
    fn zero() -> Self {
        Kms(qtty::Kilometer::new(0.0))
    }
    fn plus(self, other: Self) -> Self {
        Kms(self.0 + other.0)
    }
    fn minus(self, other: Self) -> Self {
        Kms(self.0 - other.0)
    }
    fn scale(self, factor: R64) -> Self {
        Kms(self.0 * factor.0)
    }
    fn scale_div(self, divisor: R64) -> Self {
        Kms(self.0 / divisor.0)
    }
}

fn r64vec(xs: &[f64]) -> Vec<R64> {
    xs.iter().map(|&x| R64(x)).collect()
}

// ── evaluation ───────────────────────────────────────────────────────────

#[test]
fn test_empty() {
    assert_eq!(evaluate::<R64, R64>(&vec![], R64(0.5)), R64(0.0));
    assert_eq!(evaluate_derivative::<R64, R64>(&vec![], R64(0.5)), R64(0.0));
    let (v, d) = evaluate_both::<R64, R64>(&vec![], R64(0.5));
    assert_eq!(v, R64(0.0));
    assert_eq!(d, R64(0.0));
}

#[test]
fn test_constant() {
    // T_0(x) = 1, so [c] evaluates to c for any tau
    assert!((evaluate(&r64vec(&[3.5]), R64(0.0)).0 - 3.5).abs() < 1e-15);
    assert!((evaluate(&r64vec(&[3.5]), R64(0.7)).0 - 3.5).abs() < 1e-15);
    assert!(evaluate_derivative(&r64vec(&[3.5]), R64(0.7)).0.abs() < 1e-15);
}

#[test]
fn test_linear() {
    // c[0]*T_0 + c[1]*T_1 = 2 + 3*tau
    let coeffs = r64vec(&[2.0, 3.0]);
    assert!((evaluate(&coeffs, R64(0.0)).0 - 2.0).abs() < 1e-15);
    assert!((evaluate(&coeffs, R64(1.0)).0 - 5.0).abs() < 1e-15);
    assert!((evaluate(&coeffs, R64(-1.0)).0 - (-1.0)).abs() < 1e-15);
    assert!((evaluate_derivative(&coeffs, R64(0.0)).0 - 3.0).abs() < 1e-15);
    assert!((evaluate_derivative(&coeffs, R64(1.0)).0 - 3.0).abs() < 1e-15);
}

#[test]
fn test_quadratic() {
    // c[0]*T_0 + c[1]*T_1 + c[2]*T_2 = 1 + 0*tau + 2*(2*tau^2 - 1)
    // = 1 + 4*tau^2 - 2 = -1 + 4*tau^2
    let coeffs = r64vec(&[1.0, 0.0, 2.0]);
    assert!((evaluate(&coeffs, R64(0.0)).0 - (-1.0)).abs() < 1e-14);
    assert!((evaluate(&coeffs, R64(1.0)).0 - 3.0).abs() < 1e-14);
    // derivative: 8*tau
    assert!((evaluate_derivative(&coeffs, R64(0.5)).0 - 4.0).abs() < 1e-14);
}

#[test]
fn test_evaluate_both_matches() {
    let coeffs = r64vec(&[1.0, 2.0, 3.0, 4.0, 5.0]);
    let tau = R64(0.37);
    let (val, deriv) = evaluate_both(&coeffs, tau);
    assert!((val.0 - evaluate(&coeffs, tau).0).abs() < 1e-14);
    assert!((deriv.0 - evaluate_derivative(&coeffs, tau).0).abs() < 1e-14);
}

#[test]
fn test_quantity_type() {
    let coeffs: Vec<Kms> = vec![
        Kms(qtty::Kilometer::new(100.0)),
        Kms(qtty::Kilometer::new(50.0)),
        Kms(qtty::Kilometer::new(10.0)),
    ];
    let tau = R64(0.5);
    let val = evaluate(&coeffs, tau);
    // Compare with a plain evaluation
    let f64_coeffs = r64vec(&[100.0, 50.0, 10.0]);
    let f64_val = evaluate(&f64_coeffs, tau);
    assert!((val.0.value() - f64_val.0).abs() < 1e-12);
}

// ── fitting ──────────────────────────────────────────────────────────────

#[test]
fn test_fit_constant() {
    // Fitting a constant function: all coeffs except c_0 should be ≈ 0
    let values = r64vec(&[5.0; 9]);
    let coeffs = fit_coeffs(&values);
    assert!((coeffs[0].0 - 5.0).abs() < 1e-14);
    for c in &coeffs[1..] {
        assert!(c.0.abs() < 1e-14, "non-zero higher coeff: {}", c.0);
    }
}

#[test]
fn test_fit_linear() {
    // f(x) = x on the canonical interval → c_0 = 0, c_1 = 1, rest = 0
    let xi: Vec<R64> = nodes(9);
    let coeffs = fit_coeffs(&xi);
    assert!(coeffs[0].0.abs() < 1e-14, "c_0 = {}", coeffs[0].0);
    assert!((coeffs[1].0 - 1.0).abs() < 1e-14, "c_1 = {}", coeffs[1].0);
    for c in &coeffs[2..] {
        assert!(c.0.abs() < 1e-14, "non-zero higher coeff: {}", c.0);
    }
}

#[test]
fn test_fit_sin_roundtrip() {
    // Fit sin(x) on [-1, 1] with degree 14 (15 coefficients)
    let coeffs = fit_from_fn(|t: R64| R64(t.0.sin()), R64(-1.0), R64(1.0), 15);

    for &x in &[-0.9, -0.5, 0.0, 0.3, 0.8] {
        let approx = evaluate(&coeffs, R64(x));
        let exact = x.sin();
        assert!(
            (approx.0 - exact).abs() < 1e-12,
            "sin({x}): approx={}, exact={exact}",
            approx.0
        );
    }
}

#[test]
fn test_fit_from_fn_mapped() {
    // Fit sin(t) on [0, π], evaluate at midpoint
    let coeffs = fit_from_fn(
        |t: R64| R64(t.0.sin()),
        R64(0.0),
        R64(std::f64::consts::PI),
        15,
    );

    // Evaluate at t = π/2 → tau = 0.0 (midpoint maps to tau=0)
    let approx = evaluate(&coeffs, R64(0.0));
    assert!((approx.0 - 1.0).abs() < 1e-12, "sin(π/2) ≈ {}", approx.0);

    // Evaluate at t = π/4 → tau = -0.5
    let approx2 = evaluate(&coeffs, R64(-0.5));
    let exact2 = (std::f64::consts::PI / 4.0).sin();
    assert!(
        (approx2.0 - exact2).abs() < 1e-10,
        "sin(π/4) ≈ {}, exact = {exact2}",
        approx2.0
    );
}

#[test]
fn test_fit_quantity_type() {
    let xi: Vec<R64> = nodes(9);
    let values: Vec<Kms> = xi
        .iter()
        .map(|x| Kms(qtty::Kilometer::new(x.0.sin() * 1000.0)))
        .collect();
    let coeffs = fit_coeffs(&values);
    // Evaluate and compare
    let val = evaluate(&coeffs, R64(0.0));
    let f64_values: Vec<R64> = xi.iter().map(|x| R64(x.0.sin() * 1000.0)).collect();
    let f64_coeffs = fit_coeffs(&f64_values);
    let f64_val = evaluate(&f64_coeffs, R64(0.0));
    assert!(
        (val.0.value() - f64_val.0).abs() < 1e-10,
        "quantity val = {}, f64 val = {}",
        val.0.value(),
        f64_val.0
    );
}

#[test]
fn test_fit_empty() {
    // Zero samples fit to zero coefficients; evaluating yields zero.
    let coeffs = fit_coeffs::<R64, R64>(&vec![]);
    assert!(coeffs.is_empty());
    assert_eq!(evaluate(&coeffs, R64(0.3)), R64(0.0));
}

// ── nodes ────────────────────────────────────────────────────────────────

#[test]
fn test_nodes_count() {
    let n3: Vec<R64> = nodes(3);
    assert_eq!(n3.len(), 3);
    let n9: Vec<R64> = nodes(9);
    assert_eq!(n9.len(), 9);
}

#[test]
fn test_nodes_in_range() {
    let xi: Vec<R64> = nodes(9);
    for x in &xi {
        assert!(x.0 > -1.0 && x.0 < 1.0, "node {} out of (-1, 1)", x.0);
    }
}

#[test]
fn test_nodes_descending() {
    let xi: Vec<R64> = nodes(9);
    for w in xi.windows(2) {
        assert!(
            w[0].0 > w[1].0,
            "nodes not descending: {} <= {}",
            w[0].0,
            w[1].0
        );
    }
}

#[test]
fn test_nodes_empty() {
    let xi: Vec<R64> = nodes(0);
    assert!(xi.is_empty());
}

#[test]
fn test_nodes_mapped_range() {
    let t: Vec<R64> = nodes_mapped(9, R64(10.0), R64(20.0));
    for x in &t {
        assert!(
            x.0 >= 10.0 && x.0 <= 20.0,
            "mapped node {} out of [10, 20]",
            x.0
        );
    }
}

#[test]
fn test_nodes_mapped_midpoint() {
    // The midpoint of a mapped set should be close to (start+end)/2
    let t: Vec<R64> = nodes_mapped(9, R64(0.0), R64(4.0));
    let mean: f64 = t.iter().map(|x| x.0).sum::<f64>() / 9.0;
    assert!((mean - 2.0).abs() < 1e-10);
}

// ── segments ─────────────────────────────────────────────────────────────

#[test]
fn test_segment_eval_sin() {
    // Fit sin(t) on [0, π] as a single segment with 15 coefficients
    let coeffs = fit_from_fn(
        |t: R64| R64(t.0.sin()),
        R64(0.0),
        R64(std::f64::consts::PI),
        15,
    );
    let seg = ChebySegment::new(
        coeffs,
        R64(std::f64::consts::PI / 2.0),
        R64(std::f64::consts::PI / 2.0),
    );

    // sin(π/2) = 1
    let val = seg.eval(R64(std::f64::consts::FRAC_PI_2));
    assert!((val.0 - 1.0).abs() < 1e-12, "sin(π/2) ≈ {}", val.0);

    // sin(π/4) ≈ 0.7071
    let val2 = seg.eval(R64(std::f64::consts::FRAC_PI_4));
    let exact = std::f64::consts::FRAC_PI_4.sin();
    assert!((val2.0 - exact).abs() < 1e-10, "sin(π/4) ≈ {}", val2.0);
}

#[test]
fn test_segment_derivative() {
    // d/dt sin(t) = cos(t)
    let coeffs = fit_from_fn(
        |t: R64| R64(t.0.sin()),
        R64(0.0),
        R64(std::f64::consts::PI),
        15,
    );
    let seg = ChebySegment::new(
        coeffs,
        R64(std::f64::consts::PI / 2.0),
        R64(std::f64::consts::PI / 2.0),
    );

    let t = 1.0_f64;
    let deriv = seg.eval_derivative(R64(t));
    let exact = t.cos();
    assert!(
        (deriv.0 - exact).abs() < 1e-10,
        "cos({t}) ≈ {}, exact = {exact}",
        deriv.0
    );
}

#[test]
fn test_segment_eval_both() {
    let coeffs = fit_from_fn(
        |t: R64| R64(t.0.sin()),
        R64(0.0),
        R64(std::f64::consts::PI),
        15,
    );
    let seg = ChebySegment::new(
        coeffs,
        R64(std::f64::consts::PI / 2.0),
        R64(std::f64::consts::PI / 2.0),
    );

    let t = R64(1.5);
    let (v, d) = seg.eval_both(t);
    assert!((v.0 - seg.eval(t).0).abs() < 1e-14);
    assert!((d.0 - seg.eval_derivative(t).0).abs() < 1e-14);
}

#[test]
fn test_segment_normalise() {
    let seg = ChebySegment::new(r64vec(&[1.0; 3]), R64(5.0), R64(2.0));
    assert!((seg.normalise(R64(5.0)).0 - 0.0).abs() < 1e-15);
    assert!((seg.normalise(R64(3.0)).0 - (-1.0)).abs() < 1e-15);
    assert!((seg.normalise(R64(7.0)).0 - 1.0).abs() < 1e-15);
}

// ── segment tables ───────────────────────────────────────────────────────

#[test]
fn test_table_from_fn() {
    // Approximate sin(t) on [0, 2π] with segments of length π/2
    let table: ChebySegmentTable<R64, R64> = ChebySegmentTable::from_fn(
        |t: R64| R64(t.0.sin()),
        R64(0.0),
        R64(2.0 * std::f64::consts::PI),
        R64(std::f64::consts::FRAC_PI_2),
        9,
    );

    assert_eq!(table.len(), 4);

    // Check a few evaluation points
    for &t in &[0.1, 1.0, 2.0, 3.0, 5.0, 6.0] {
        let approx = table.eval(R64(t)).unwrap();
        let exact = t.sin();
        assert!(
            (approx.0 - exact).abs() < 1e-8,
            "sin({t}): approx={}, exact={exact}",
            approx.0
        );
    }
}

#[test]
fn test_table_derivative() {
    let table: ChebySegmentTable<R64, R64> = ChebySegmentTable::from_fn(
        |t: R64| R64(t.0.sin()),
        R64(0.0),
        R64(2.0 * std::f64::consts::PI),
        R64(std::f64::consts::FRAC_PI_2),
        9,
    );

    let t = 2.0_f64;
    let d = table.eval_derivative(R64(t)).unwrap();
    let exact = t.cos();
    assert!(
        (d.0 - exact).abs() < 1e-8,
        "cos({t}): approx={}, exact={exact}",
        d.0
    );
}

#[test]
fn test_table_metadata() {
    let table: ChebySegmentTable<R64, R64> =
        ChebySegmentTable::from_fn(|t: R64| R64(t.0.sin()), R64(1.0), R64(3.0), R64(0.5), 9);
    assert_eq!(table.start(), R64(1.0));
    assert_eq!(table.segment_len(), R64(0.5));
    assert_eq!(table.end(), R64(3.0));
    assert_eq!(table.segments().len(), table.len());
}

#[test]
fn test_table_span_floor() {
    // A degenerate (empty or backwards) span still yields one segment.
    let flat: ChebySegmentTable<R64, R64> =
        ChebySegmentTable::from_fn(|t: R64| R64(t.0.sin()), R64(1.0), R64(1.0), R64(0.5), 5);
    assert_eq!(flat.len(), 1);
    assert!(!flat.is_empty());

    let backwards: ChebySegmentTable<R64, R64> =
        ChebySegmentTable::from_fn(|t: R64| R64(t.0.sin()), R64(1.0), R64(0.5), R64(0.5), 5);
    assert_eq!(backwards.len(), 1);

    // The lower bound is inclusive: exactly at the start is in range.
    let table: ChebySegmentTable<R64, R64> =
        ChebySegmentTable::from_fn(|t: R64| R64(t.0.sin()), R64(0.0), R64(1.0), R64(0.5), 9);
    assert!(table.eval(R64(0.0)).is_some());
}

#[test]
fn test_table_out_of_range() {
    let table: ChebySegmentTable<R64, R64> =
        ChebySegmentTable::from_fn(|t: R64| R64(t.0.sin()), R64(0.0), R64(1.0), R64(0.5), 9);
    assert!(table.eval(R64(-0.1)).is_none());
    // Just past the end
    assert!(table.eval(R64(1.1)).is_none());
}

// ── the whole pipeline ───────────────────────────────────────────────────

#[test]
fn functional_roundtrip_on_unit_interval() {
    const N: usize = 17;
    let xi: Vec<R64> = nodes(N);
    let values: Vec<R64> = xi
        .iter()
        .map(|x| R64((2.5 * x.0).sin() + 0.2 * x.0 * x.0))
        .collect();
    let coeffs = fit_coeffs(&values);

    for &tau in &[-0.95, -0.5, 0.0, 0.37, 0.9] {
        let approx = evaluate(&coeffs, R64(tau));
        let exact = (2.5 * tau).sin() + 0.2 * tau * tau;
        assert!((approx.0 - exact).abs() <= 1e-12);
    }
}

#[test]
fn functional_roundtrip_on_physical_interval() {
    const N: usize = 21;
    let start = -2.0_f64;
    let end = 4.0_f64;
    let coeffs = fit_from_fn(|t: R64| R64(t.0.exp() / 10.0), R64(start), R64(end), N);

    // t -> tau conversion for a mapped segment.
    let mid = 0.5 * (start + end);
    let half = 0.5 * (end - start);

    for &t in &[-1.8, -0.3, 1.0, 2.4, 3.7] {
        let tau = (t - mid) / half;
        let approx = evaluate(&coeffs, R64(tau));
        let exact = t.exp() / 10.0;
        assert!((approx.0 - exact).abs() <= 1e-8);
    }
}

#[test]
fn functional_value_and_derivative_consistency() {
    let coeffs = fit_from_fn(|t: R64| R64(t.0.sin()), R64(-1.0), R64(1.0), 15);

    for &tau in &[-0.8, -0.2, 0.0, 0.6] {
        let (v, d) = evaluate_both(&coeffs, R64(tau));
        assert!((v.0 - evaluate(&coeffs, R64(tau)).0).abs() <= 1e-13);
        assert!((d.0 - evaluate_derivative(&coeffs, R64(tau)).0).abs() <= 1e-13);
    }
}

#[test]
fn nodes_mapping_matches_affine_formula() {
    const N: usize = 11;
    let start = 10.0_f64;
    let end = 22.0_f64;
    let mapped: Vec<R64> = nodes_mapped(N, R64(start), R64(end));
    let unit: Vec<R64> = nodes(N);
    let mid = 0.5 * (start + end);
    let half = 0.5 * (end - start);

    for k in 0..N {
        let expected = mid + half * unit[k].0;
        assert!((mapped[k].0 - expected).abs() <= 1e-15);
    }
}

#[test]
fn segment_table_end_to_end() {
    const N: usize = 13;
    let start = 0.0_f64;
    let end = 6.0_f64;
    let segment_len = 1.5_f64;
    let table: ChebySegmentTable<R64, R64> = ChebySegmentTable::from_fn(
        |t: R64| R64(0.5 * t.0.cos() + 2.0),
        R64(start),
        R64(end),
        R64(segment_len),
        N,
    );

    assert_eq!(table.len(), 4);
    assert!(!table.is_empty());
    assert_eq!(table.start(), R64(start));
    assert_eq!(table.end(), R64(end));
    assert_eq!(table.segment_len(), R64(segment_len));
    assert_eq!(table.segments().len(), table.len());

    for &t in &[0.1, 1.0, 2.1, 3.2, 4.7, 5.9] {
        let approx = table.eval(R64(t)).expect("in range");
        let exact = 0.5 * t.cos() + 2.0;
        assert!((approx.0 - exact).abs() <= 1e-9);
    }

    // Table uses half-open indexing: [start, end), so exactly at end is out of range.
    assert!(table.eval(R64(start - 1e-6)).is_none());
    assert!(table.eval(R64(end)).is_none());
}

#[test]
fn segment_table_from_precomputed_segments_and_empty_case() {
    const N: usize = 9;
    let start = 2.0_f64;
    let segment_len = 2.0_f64;
    let half = segment_len / 2.0;

    let mk = |seg_start: f64| -> ChebySegment<R64, R64> {
        let coeffs = fit_from_fn(
            |t: R64| R64(t.0 * t.0 + 1.0),
            R64(seg_start),
            R64(seg_start + segment_len),
            N,
        );
        ChebySegment::new(coeffs, R64(seg_start + half), R64(half))
    };

    let table = ChebySegmentTable::from_segments(
        vec![mk(2.0), mk(4.0)],
        R64(start),
        R64(segment_len),
    );
    assert_eq!(table.len(), 2);
    assert!(!table.is_empty());

    let t = 5.25_f64;
    let approx = table.eval(R64(t)).expect("inside second segment");
    let exact = t * t + 1.0;
    assert!((approx.0 - exact).abs() <= 1e-9);

    let empty: ChebySegmentTable<R64, R64> =
        ChebySegmentTable::from_segments(vec![], R64(10.0), R64(1.0));
    assert!(empty.is_empty());
    assert_eq!(empty.len(), 0);
    assert!(empty.get_segment(R64(10.0)).is_none());
    assert!(empty.eval(R64(10.0)).is_none());
    assert!(empty.eval_derivative(R64(10.0)).is_none());
    assert!(empty.eval_both(R64(10.0)).is_none());
}
