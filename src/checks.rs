//! Shape checks on the arrays that describe meshes and fields. Each check runs before
//! any data is read, and the first mismatch found is the error reported.
use vstd::prelude::*;
use crate::array::{rows_view, Array2};
use crate::cells::{CellKind, MeshLayout};
use crate::error::InputError;
use crate::metric::MetricKind;
use crate::{Idx, Tag};

verus! {

/// The first mismatch between the arrays of a mesh and its layout, checked in the order
/// coordinates, elements, element tags, faces, face tags.
pub open spec fn mesh_arrays_error(
    layout: MeshLayout,
    coords_cols: nat,
    elems_rows: nat,
    elems_cols: nat,
    etags_len: nat,
    faces_rows: nat,
    faces_cols: nat,
    ftags_len: nat,
) -> Option<InputError> {
    if coords_cols != layout.spec_dim() {
        Some(InputError::CoordsColumns)
    } else if elems_cols != layout.spec_cell().spec_n_verts() {
        Some(InputError::ElemsColumns)
    } else if etags_len != elems_rows {
        Some(InputError::EtagsRows)
    } else if faces_cols != layout.spec_face().spec_n_verts() {
        Some(InputError::FacesColumns)
    } else if ftags_len != faces_rows {
        Some(InputError::FtagsRows)
    } else {
        None
    }
}

/// The connectivity of a mesh, one vector per element and per face.
pub struct Connectivity {
    pub elems: Vec<Vec<Idx>>,
    pub etags: Vec<Tag>,
    pub faces: Vec<Vec<Idx>>,
    pub ftags: Vec<Tag>,
}

/// Checks the arrays of a mesh against its layout, and splits the element and face
/// arrays into one vector per entity. The coordinates are only checked.
pub fn mesh_connectivity<C>(
    layout: &MeshLayout,
    coords: &Array2<C>,
    elems: &Array2<Idx>,
    etags: Vec<Tag>,
    faces: &Array2<Idx>,
    ftags: Vec<Tag>,
) -> (r: Result<Connectivity, InputError>)
    ensures
        match mesh_arrays_error(
            *layout,
            coords.spec_n_cols(),
            elems.spec_n_rows(),
            elems.spec_n_cols(),
            etags@.len(),
            faces.spec_n_rows(),
            faces.spec_n_cols(),
            ftags@.len(),
        ) {
            Some(e) => r == Err::<Connectivity, InputError>(e),
            None => r matches Ok(c) && rows_view(c.elems@) == elems@ && c.etags@ == etags@
                && rows_view(c.faces@) == faces@ && c.ftags@ == ftags@,
        },
{
    if coords.n_cols() != layout.dim() {
        return Err(InputError::CoordsColumns);
    }
    if elems.n_cols() != layout.elem_width() {
        return Err(InputError::ElemsColumns);
    }
    if etags.len() != elems.n_rows() {
        return Err(InputError::EtagsRows);
    }
    if faces.n_cols() != layout.face_width() {
        return Err(InputError::FacesColumns);
    }
    if ftags.len() != faces.n_rows() {
        return Err(InputError::FtagsRows);
    }
    Ok(Connectivity { elems: elems.to_rows(), etags, faces: faces.to_rows(), ftags })
}

/// Checks that a field has `n` rows, one per vertex or per element.
pub fn check_rows<T>(arr: &Array2<T>, n: usize) -> (r: Result<(), InputError>)
    ensures
        r is Err <==> arr.spec_n_rows() != n,
        r matches Err(e) ==> e == InputError::Rows,
{
    if arr.n_rows() != n {
        Err(InputError::Rows)
    } else {
        Ok(())
    }
}

/// Checks that a field is scalar and has `n` rows, one per vertex.
pub fn check_scalar_field<T>(arr: &Array2<T>, n: usize) -> (r: Result<(), InputError>)
    ensures
        arr.spec_n_rows() != n ==> r == Err::<(), InputError>(InputError::Rows),
        arr.spec_n_rows() == n && arr.spec_n_cols() != 1 ==> r == Err::<(), InputError>(
            InputError::Columns,
        ),
        arr.spec_n_rows() == n && arr.spec_n_cols() == 1 ==> r is Ok,
{
    if arr.n_rows() != n {
        Err(InputError::Rows)
    } else if arr.n_cols() != 1 {
        Err(InputError::Columns)
    } else {
        Ok(())
    }
}

/// Checks that a metric field of kind `kind` has `n` rows, and splits it into the
/// stored values of each row.
pub fn metric_rows<T: Copy>(arr: &Array2<T>, n: usize, kind: MetricKind) -> (r: Result<
    Vec<Vec<T>>,
    InputError,
>)
    ensures
        arr.spec_n_rows() != n ==> r == Err::<Vec<Vec<T>>, InputError>(InputError::Rows),
        arr.spec_n_rows() == n && arr.spec_n_cols() != kind.spec_n_comps() ==> r == Err::<
            Vec<Vec<T>>,
            InputError,
        >(InputError::Columns),
        arr.spec_n_rows() == n && arr.spec_n_cols() == kind.spec_n_comps() ==> (r matches Ok(
            rows,
        ) && rows_view(rows@) == arr@),
{
    if arr.n_rows() != n {
        Err(InputError::Rows)
    } else if arr.n_cols() != kind.n_comps() {
        Err(InputError::Columns)
    } else {
        Ok(arr.to_rows())
    }
}

/// Checks that vertex coordinates have `dim` columns, and splits them into one vector
/// per vertex.
pub fn vertex_rows<T: Copy>(coords: &Array2<T>, dim: usize) -> (r: Result<
    Vec<Vec<T>>,
    InputError,
>)
    ensures
        coords.spec_n_cols() != dim ==> r == Err::<Vec<Vec<T>>, InputError>(
            InputError::CoordsColumns,
        ),
        coords.spec_n_cols() == dim ==> (r matches Ok(rows) && rows_view(rows@) == coords@),
{
    if coords.n_cols() != dim {
        Err(InputError::CoordsColumns)
    } else {
        Ok(coords.to_rows())
    }
}

/// Checks elements of kind `kind` to be added to a mesh, with one tag each, and splits
/// them into one vector per element.
pub fn added_cells(kind: CellKind, elems: &Array2<Idx>, tags: &Vec<Tag>) -> (r: Result<
    Vec<Vec<Idx>>,
    InputError,
>)
    ensures
        elems.spec_n_cols() != kind.spec_n_verts() ==> r == Err::<Vec<Vec<Idx>>, InputError>(
            InputError::ElemsColumns,
        ),
        elems.spec_n_cols() == kind.spec_n_verts() && elems.spec_n_rows() != tags@.len() ==> r
            == Err::<Vec<Vec<Idx>>, InputError>(InputError::ElemsTagsRows),
        elems.spec_n_cols() == kind.spec_n_verts() && elems.spec_n_rows() == tags@.len() ==> (r
            matches Ok(rows) && rows_view(rows@) == elems@),
{
    if elems.n_cols() != kind.n_verts() {
        Err(InputError::ElemsColumns)
    } else if elems.n_rows() != tags.len() {
        Err(InputError::ElemsTagsRows)
    } else {
        Ok(elems.to_rows())
    }
}

/// Pairs optional normal sizes with the tags they belong to. Sizes without tags are an
/// error; tags without sizes are ignored.
pub fn normal_sizes<S, G>(sizes: Option<S>, tags: Option<G>) -> (r: Result<
    Option<(S, G)>,
    InputError,
>)
    ensures
        sizes is None ==> r == Ok::<Option<(S, G)>, InputError>(None),
        sizes is Some && tags is None ==> r == Err::<Option<(S, G)>, InputError>(
            InputError::MissingNormalSizeTags,
        ),
        sizes is Some && tags is Some ==> r == Ok::<Option<(S, G)>, InputError>(
            Some((sizes->0, tags->0)),
        ),
{
    match sizes {
        None => Ok(None),
        Some(s) => match tags {
            None => Err(InputError::MissingNormalSizeTags),
            Some(g) => Ok(Some((s, g))),
        },
    }
}

} // verus!
