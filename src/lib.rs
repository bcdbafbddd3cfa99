//! Input handling for a metric-driven simplex remesher: array layouts, shape
//! validation, element kinds, metric component layouts and remeshing options.
use vstd::prelude::*;

pub mod array;
pub mod cells;
pub mod checks;
pub mod error;
pub mod metric;
pub mod options;
pub mod tags;

verus! {

/// Index of a vertex, element or face.
pub type Idx = u32;

/// Tag of an element or face: the region or boundary part it belongs to.
pub type Tag = i16;

} // verus!
