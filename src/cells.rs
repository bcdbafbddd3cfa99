//! Element kinds and the simplex mesh families built from them.
use vstd::prelude::*;

verus! {

/// The kinds of mesh entities, by shape.
#[derive(Clone, Copy, Debug, PartialEq, Eq, Structural)]
pub enum CellKind {
    Vertex,
    Edge,
    Triangle,
    Quadrangle,
    Tetrahedron,
    Pyramid,
    Prism,
    Hexahedron,
}

impl CellKind {
    pub open spec fn spec_n_verts(self) -> nat {
        match self {
            CellKind::Vertex => 1,
            CellKind::Edge => 2,
            CellKind::Triangle => 3,
            CellKind::Quadrangle => 4,
            CellKind::Tetrahedron => 4,
            CellKind::Pyramid => 5,
            CellKind::Prism => 6,
            CellKind::Hexahedron => 8,
        }
    }

    pub open spec fn spec_topo_dim(self) -> nat {
        match self {
            CellKind::Vertex => 0,
            CellKind::Edge => 1,
            CellKind::Triangle | CellKind::Quadrangle => 2,
            _ => 3,
        }
    }

    pub open spec fn is_simplex(self) -> bool {
        self.spec_n_verts() == self.spec_topo_dim() + 1
    }

    /// The kind of the faces of a simplex: the simplex one dimension lower.
    pub open spec fn spec_face(self) -> Option<CellKind> {
        match self {
            CellKind::Edge => Some(CellKind::Vertex),
            CellKind::Triangle => Some(CellKind::Edge),
            CellKind::Tetrahedron => Some(CellKind::Triangle),
            _ => None,
        }
    }

    /// Number of vertices of an entity of this kind.
    pub fn n_verts(&self) -> (n: usize)
        ensures
            n == self.spec_n_verts(),
    {
        match self {
            CellKind::Vertex => 1,
            CellKind::Edge => 2,
            CellKind::Triangle => 3,
            CellKind::Quadrangle => 4,
            CellKind::Tetrahedron => 4,
            CellKind::Pyramid => 5,
            CellKind::Prism => 6,
            CellKind::Hexahedron => 8,
        }
    }

    /// Topological dimension: 0 for a vertex, 1 for an edge, 2 for a surface
    /// element, 3 for a volume element.
    pub fn topo_dim(&self) -> (d: usize)
        ensures
            d == self.spec_topo_dim(),
    {
        match self {
            CellKind::Vertex => 0,
            CellKind::Edge => 1,
            CellKind::Triangle | CellKind::Quadrangle => 2,
            _ => 3,
        }
    }

    /// The kind of the faces, for a simplex of dimension one or more.
    pub fn face(&self) -> (f: Option<CellKind>)
        ensures
            f == self.spec_face(),
            f matches Some(k) ==> self.is_simplex() && k.is_simplex() && k.spec_topo_dim() + 1
                == self.spec_topo_dim(),
    {
        match self {
            CellKind::Edge => Some(CellKind::Vertex),
            CellKind::Triangle => Some(CellKind::Edge),
            CellKind::Tetrahedron => Some(CellKind::Triangle),
            _ => None,
        }
    }
}

/// A family of simplex meshes: vertices in `dim` space dimensions (2 or 3), elements of
/// a simplex kind whose dimension is between 1 and `dim`.
#[derive(Clone, Copy, Debug, PartialEq, Eq, Structural)]
pub struct MeshLayout {
    dim: usize,
    cell: CellKind,
}

pub open spec fn valid_layout(dim: nat, cell: CellKind) -> bool {
    &&& 2 <= dim <= 3
    &&& cell.is_simplex()
    &&& 1 <= cell.spec_topo_dim() <= dim
}

impl MeshLayout {
    #[verifier::type_invariant]
    spec fn inv(&self) -> bool {
        valid_layout(self.dim as nat, self.cell)
    }

    pub closed spec fn spec_dim(&self) -> nat {
        self.dim as nat
    }

    pub closed spec fn spec_cell(&self) -> CellKind {
        self.cell
    }

    /// The face kind of the layout's elements.
    pub open spec fn spec_face(&self) -> CellKind {
        self.spec_cell().spec_face().unwrap()
    }

    /// The layout of `cell` elements in `dim` dimensions; `None` where that is no valid
    /// simplex mesh family.
    pub fn new(dim: usize, cell: CellKind) -> (r: Option<MeshLayout>)
        ensures
            r is Some <==> valid_layout(dim as nat, cell),
            r matches Some(l) ==> l.spec_dim() == dim && l.spec_cell() == cell,
    {
        let d = cell.topo_dim();
        if 2 <= dim && dim <= 3 && cell.n_verts() == d + 1 && 1 <= d && d <= dim {
            Some(MeshLayout { dim, cell })
        } else {
            None
        }
    }

    pub fn dim(&self) -> (d: usize)
        ensures
            d == self.spec_dim(),
            2 <= d <= 3,
    {
        proof {
            use_type_invariant(self);
        }
        self.dim
    }

    pub fn cell(&self) -> (c: CellKind)
        ensures
            c == self.spec_cell(),
            valid_layout(self.spec_dim(), c),
    {
        proof {
            use_type_invariant(self);
        }
        self.cell
    }

    /// The kind of the boundary and interface faces.
    pub fn face(&self) -> (f: CellKind)
        ensures
            f == self.spec_face(),
            self.spec_cell().spec_face() == Some(f),
    {
        proof {
            use_type_invariant(self);
        }
        match self.cell.face() {
            Some(f) => f,
            None => CellKind::Vertex,
        }
    }

    /// Number of vertices per element.
    pub fn elem_width(&self) -> (n: usize)
        ensures
            n == self.spec_cell().spec_n_verts(),
    {
        self.cell.n_verts()
    }

    /// Number of vertices per face.
    pub fn face_width(&self) -> (n: usize)
        ensures
            n == self.spec_face().spec_n_verts(),
    {
        self.face().n_verts()
    }
}

} // verus!
