//! Remeshing options given by name, and the defaults of the domain decomposition.
use vstd::prelude::*;
use crate::error::InputError;
use crate::Idx;

verus! {

/// Whether `a` and `b` hold the same characters.
pub fn same_text(a: &str, b: &str) -> (r: bool)
    ensures
        r == (a@ == b@),
{
    let n = a.unicode_len();
    if n != b.unicode_len() {
        return false;
    }
    let mut i: usize = 0;
    while i < n
        invariant
            n == a@.len(),
            n == b@.len(),
            i <= n,
            forall|k: int| 0 <= k < i ==> a@[k] == b@[k],
        decreases n - i,
    {
        if a.get_char(i) != b.get_char(i) {
            return false;
        }
        i += 1;
    }
    assert(a@ =~= b@);
    true
}

/// How vertices are moved in the smoothing step.
#[derive(Clone, Copy, Debug, PartialEq, Eq, Structural)]
pub enum Smoother {
    /// Average of the neighbours, weighted by the metric.
    Laplacian,
    /// The second weighting of the neighbour average.
    Laplacian2,
    /// The optimization-based smoother.
    Avro,
}

/// The smoother that a name selects: `laplacian`, `laplacian2`, the unavailable
/// `nlopt`, and any other name for the optimization-based one.
pub open spec fn smoother_of(name: Seq<char>) -> Result<Smoother, InputError> {
    if name == "laplacian"@ {
        Ok(Smoother::Laplacian)
    } else if name == "laplacian2"@ {
        Ok(Smoother::Laplacian2)
    } else if name == "nlopt"@ {
        Err(InputError::UnavailableSmoother)
    } else {
        Ok(Smoother::Avro)
    }
}

/// The smoother selected by `name`, `laplacian` where none is given.
pub fn parse_smoother(name: Option<&str>) -> (r: Result<Smoother, InputError>)
    ensures
        name is None ==> r == Ok::<Smoother, InputError>(Smoother::Laplacian),
        name matches Some(s) ==> r == smoother_of(s@),
{
    match name {
        None => Ok(Smoother::Laplacian),
        Some(s) => {
            if same_text(s, "laplacian") {
                Ok(Smoother::Laplacian)
            } else if same_text(s, "laplacian2") {
                Ok(Smoother::Laplacian2)
            } else if same_text(s, "nlopt") {
                Err(InputError::UnavailableSmoother)
            } else {
                Ok(Smoother::Avro)
            }
        },
    }
}

/// The method that splits a mesh into parts for parallel remeshing.
#[derive(Clone, Copy, Debug, PartialEq, Eq, Structural)]
pub enum Partitioner {
    Scotch,
    MetisKWay,
    MetisRecursive,
    /// Ordering of the elements along a Hilbert curve.
    Hilbert,
}

/// A partitioning method and the number of parts it is asked for.
#[derive(Clone, Copy, Debug, PartialEq, Eq, Structural)]
pub struct Partitioning {
    pub method: Partitioner,
    pub n_parts: Idx,
}

/// The method that a name selects, if any.
pub open spec fn partitioner_of(name: Seq<char>) -> Option<Partitioner> {
    if name == "scotch"@ {
        Some(Partitioner::Scotch)
    } else if name == "metis_kway"@ {
        Some(Partitioner::MetisKWay)
    } else if name == "metis_recursive"@ {
        Some(Partitioner::MetisRecursive)
    } else if name == "hilbert"@ {
        Some(Partitioner::Hilbert)
    } else {
        None
    }
}

/// The partitioning selected by `name` into `n_parts` parts; an unknown name is an
/// error.
pub fn parse_partitioning(name: &str, n_parts: Idx) -> (r: Result<Partitioning, InputError>)
    ensures
        match partitioner_of(name@) {
            Some(m) => r == Ok::<Partitioning, InputError>(Partitioning { method: m, n_parts }),
            None => r == Err::<Partitioning, InputError>(InputError::UnknownPartitioner),
        },
{
    let method = if same_text(name, "scotch") {
        Partitioner::Scotch
    } else if same_text(name, "metis_kway") {
        Partitioner::MetisKWay
    } else if same_text(name, "metis_recursive") {
        Partitioner::MetisRecursive
    } else if same_text(name, "hilbert") {
        Partitioner::Hilbert
    } else {
        return Err(InputError::UnknownPartitioner);
    };
    Ok(Partitioning { method, n_parts })
}

/// Exponent of the inverse-distance weights in least-squares reconstructions.
pub const DEFAULT_WEIGHT_EXP: i32 = 2;

/// Whether Hessian reconstruction uses the neighbours of the neighbours too.
pub const DEFAULT_SECOND_ORDER_NEIGHBORS: bool = true;

/// Most rescaling steps taken to reach a target element count.
pub const DEFAULT_SCALE_MAX_ITER: Idx = 10;

/// Layers of overlap grown around each part.
pub const DEFAULT_N_LAYERS: Idx = 2;

/// Rounds of partition, remesh and merge.
pub const DEFAULT_N_LEVELS: Idx = 1;

/// Parts with fewer vertices than this are not remeshed on their own.
pub const DEFAULT_MIN_VERTS: Idx = 0;

/// Settings of the domain decomposition used by the parallel remesher.
#[derive(Clone, Copy, Debug, PartialEq, Eq, Structural)]
pub struct DecompositionParams {
    pub n_layers: Idx,
    pub n_levels: Idx,
    pub min_verts: Idx,
}

impl DecompositionParams {
    /// The settings given, with the defaults for those left out.
    pub fn with_defaults(n_layers: Option<Idx>, n_levels: Option<Idx>, min_verts: Option<Idx>) -> (r:
        DecompositionParams)
        ensures
            r.n_layers == (match n_layers {
                Some(v) => v,
                None => DEFAULT_N_LAYERS,
            }),
            r.n_levels == (match n_levels {
                Some(v) => v,
                None => DEFAULT_N_LEVELS,
            }),
            r.min_verts == (match min_verts {
                Some(v) => v,
                None => DEFAULT_MIN_VERTS,
            }),
    {
        DecompositionParams {
            n_layers: match n_layers {
                Some(v) => v,
                None => DEFAULT_N_LAYERS,
            },
            n_levels: match n_levels {
                Some(v) => v,
                None => DEFAULT_N_LEVELS,
            },
            min_verts: match min_verts {
                Some(v) => v,
                None => DEFAULT_MIN_VERTS,
            },
        }
    }
}

} // verus!
