//! Component layouts of metric fields and the exponent that turns a Hessian into a
//! metric.
use vstd::prelude::*;
use crate::Idx;

verus! {

/// Number of independent entries of a symmetric `dim x dim` tensor.
pub open spec fn sym_tensor_len(dim: nat) -> nat {
    dim * (dim + 1) / 2
}

/// How a metric is stored at a vertex: one size (isotropic) or the independent
/// entries of a symmetric tensor (anisotropic), in 2 or 3 dimensions.
#[derive(Clone, Copy, Debug, PartialEq, Eq, Structural)]
pub enum MetricKind {
    Iso2d,
    Iso3d,
    Aniso2d,
    Aniso3d,
}

impl MetricKind {
    pub open spec fn spec_dim(self) -> nat {
        match self {
            MetricKind::Iso2d | MetricKind::Aniso2d => 2,
            MetricKind::Iso3d | MetricKind::Aniso3d => 3,
        }
    }

    pub open spec fn is_aniso(self) -> bool {
        self is Aniso2d || self is Aniso3d
    }

    pub open spec fn spec_n_comps(self) -> nat {
        if self.is_aniso() {
            sym_tensor_len(self.spec_dim())
        } else {
            1
        }
    }

    /// Space dimension.
    pub fn dim(&self) -> (d: usize)
        ensures
            d == self.spec_dim(),
    {
        match self {
            MetricKind::Iso2d | MetricKind::Aniso2d => 2,
            MetricKind::Iso3d | MetricKind::Aniso3d => 3,
        }
    }

    /// Number of stored values per vertex.
    pub fn n_comps(&self) -> (n: usize)
        ensures
            n == self.spec_n_comps(),
    {
        match self {
            MetricKind::Iso2d | MetricKind::Iso3d => 1,
            MetricKind::Aniso2d => 3,
            MetricKind::Aniso3d => 6,
        }
    }

    /// The anisotropic kind in `dim` dimensions, if there is one.
    pub fn aniso(dim: usize) -> (r: Option<MetricKind>)
        ensures
            r is Some <==> dim == 2 || dim == 3,
            r matches Some(k) ==> k.is_aniso() && k.spec_dim() == dim,
    {
        if dim == 2 {
            Some(MetricKind::Aniso2d)
        } else if dim == 3 {
            Some(MetricKind::Aniso3d)
        } else {
            None
        }
    }

    /// The isotropic kind in `dim` dimensions, if there is one.
    pub fn iso(dim: usize) -> (r: Option<MetricKind>)
        ensures
            r is Some <==> dim == 2 || dim == 3,
            r matches Some(k) ==> !k.is_aniso() && k.spec_dim() == dim,
    {
        if dim == 2 {
            Some(MetricKind::Iso2d)
        } else if dim == 3 {
            Some(MetricKind::Iso3d)
        } else {
            None
        }
    }
}

/// The exponent `num / den` to which the metric volume is raised when a Hessian is
/// turned into the metric that is optimal for the error in Lp norm.
#[derive(Clone, Copy, Debug, PartialEq, Eq, Structural)]
pub struct Exponent {
    pub num: i64,
    pub den: u64,
}

/// `-2 / (2p + d)` for a norm index `p > 0`; `0 / 1` (no rescaling) where no index or
/// index 0 is given.
pub open spec fn lp_exponent_spec(p: Option<Idx>, dim: nat) -> (int, int) {
    match p {
        Some(q) if q > 0 => (-2, 2 * q + dim),
        _ => (0, 1),
    }
}

impl Exponent {
    pub open spec fn spec_pair(self) -> (int, int) {
        (self.num as int, self.den as int)
    }

    /// Exponent of the volume factor of a Hessian-based metric of kind `kind` for the
    /// Lp norm of index `p`.
    pub fn lp(kind: MetricKind, p: Option<Idx>) -> (r: Exponent)
        ensures
            r.spec_pair() == lp_exponent_spec(p, kind.spec_dim()),
            r.den > 0,
    {
        match p {
            Some(q) if q > 0 => Exponent { num: -2, den: 2 * (q as u64) + kind.dim() as u64 },
            _ => Exponent { num: 0, den: 1 },
        }
    }
}

} // verus!
