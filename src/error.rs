//! Errors raised on malformed input, before any mesh or metric is touched.
use vstd::prelude::*;

verus! {

/// What was wrong with the arrays or options handed to the remesher.
#[derive(Clone, Copy, Debug, PartialEq, Eq, Structural)]
pub enum InputError {
    /// The vertex coordinates do not have one column per space dimension.
    CoordsColumns,
    /// The element connectivity does not have one column per element vertex.
    ElemsColumns,
    /// The element tags do not have one entry per element.
    EtagsRows,
    /// The face connectivity does not have one column per face vertex.
    FacesColumns,
    /// The face tags do not have one entry per face.
    FtagsRows,
    /// A field does not have one row per vertex (or per element).
    Rows,
    /// A field does not have the expected number of components.
    Columns,
    /// The elements to add and their tags differ in number.
    ElemsTagsRows,
    /// Normal sizes per tag were given without the tags they belong to.
    MissingNormalSizeTags,
    /// The partitioning method is not one of the known names.
    UnknownPartitioner,
    /// The optimization-based smoother was asked for; it is not available.
    UnavailableSmoother,
}

impl InputError {
    pub open spec fn spec_message(self) -> Seq<char> {
        match self {
            InputError::CoordsColumns => "Invalid dimension 1 for coords"@,
            InputError::ElemsColumns => "Invalid dimension 1 for elems"@,
            InputError::EtagsRows => "Invalid dimension 0 for etags"@,
            InputError::FacesColumns => "Invalid dimension 1 for faces"@,
            InputError::FtagsRows => "Invalid dimension 0 for ftags"@,
            InputError::Rows => "Invalid dimension 0"@,
            InputError::Columns => "Invalid dimension 1"@,
            InputError::ElemsTagsRows => "Invalid dimension 0 for elems / tags"@,
            InputError::MissingNormalSizeTags => "h_n_tags not given"@,
            InputError::UnknownPartitioner =>
                "Invalid partition type: allowed values are scotch, metis_kway, metis_recursive, hilbert"@,
            InputError::UnavailableSmoother => "Invalid smoothing type: nlopt is not available"@,
        }
    }

    /// A one-line description of the error.
    pub fn message(&self) -> (r: String)
        ensures
            r@ == self.spec_message(),
    {
        match self {
            InputError::CoordsColumns => String::from_str("Invalid dimension 1 for coords"),
            InputError::ElemsColumns => String::from_str("Invalid dimension 1 for elems"),
            InputError::EtagsRows => String::from_str("Invalid dimension 0 for etags"),
            InputError::FacesColumns => String::from_str("Invalid dimension 1 for faces"),
            InputError::FtagsRows => String::from_str("Invalid dimension 0 for ftags"),
            InputError::Rows => String::from_str("Invalid dimension 0"),
            InputError::Columns => String::from_str("Invalid dimension 1"),
            InputError::ElemsTagsRows => String::from_str("Invalid dimension 0 for elems / tags"),
            InputError::MissingNormalSizeTags => String::from_str("h_n_tags not given"),
            InputError::UnknownPartitioner => String::from_str(
                "Invalid partition type: allowed values are scotch, metis_kway, metis_recursive, hilbert",
            ),
            InputError::UnavailableSmoother => String::from_str(
                "Invalid smoothing type: nlopt is not available",
            ),
        }
    }
}

} // verus!
