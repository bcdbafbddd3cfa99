use pytucanos::metric::{Exponent, MetricKind};

#[test]
fn component_counts() {
    assert_eq!(MetricKind::Iso2d.n_comps(), 1);
    assert_eq!(MetricKind::Iso3d.n_comps(), 1);
    assert_eq!(MetricKind::Aniso2d.n_comps(), 3);
    assert_eq!(MetricKind::Aniso3d.n_comps(), 6);
    assert_eq!(MetricKind::Aniso3d.dim(), 3);
    assert_eq!(MetricKind::Iso2d.dim(), 2);
}

#[test]
fn kinds_by_dimension() {
    assert_eq!(MetricKind::aniso(2), Some(MetricKind::Aniso2d));
    assert_eq!(MetricKind::aniso(3), Some(MetricKind::Aniso3d));
    assert_eq!(MetricKind::aniso(4), None);
    assert_eq!(MetricKind::iso(3), Some(MetricKind::Iso3d));
    assert_eq!(MetricKind::iso(1), None);
}

#[test]
fn lp_exponent_values() {
    assert_eq!(Exponent::lp(MetricKind::Aniso3d, Some(2)), Exponent { num: -2, den: 7 });
    assert_eq!(Exponent::lp(MetricKind::Aniso2d, Some(1)), Exponent { num: -2, den: 4 });
    assert_eq!(Exponent::lp(MetricKind::Iso3d, Some(4)), Exponent { num: -2, den: 11 });
    let e = Exponent::lp(MetricKind::Aniso2d, Some(2));
    assert_eq!(e.num as f64 / e.den as f64, -1.0 / 3.0);
}

#[test]
fn lp_exponent_without_rescaling() {
    assert_eq!(Exponent::lp(MetricKind::Aniso3d, None), Exponent { num: 0, den: 1 });
    assert_eq!(Exponent::lp(MetricKind::Aniso2d, Some(0)), Exponent { num: 0, den: 1 });
}

#[test]
fn lp_exponent_largest_index() {
    let e = Exponent::lp(MetricKind::Aniso3d, Some(u32::MAX));
    assert_eq!(e.num, -2);
    assert_eq!(e.den, 2 * (u32::MAX as u64) + 3);
}
