use pytucanos::cells::{CellKind, MeshLayout};

#[test]
fn vertex_counts() {
    assert_eq!(CellKind::Vertex.n_verts(), 1);
    assert_eq!(CellKind::Edge.n_verts(), 2);
    assert_eq!(CellKind::Triangle.n_verts(), 3);
    assert_eq!(CellKind::Quadrangle.n_verts(), 4);
    assert_eq!(CellKind::Tetrahedron.n_verts(), 4);
    assert_eq!(CellKind::Pyramid.n_verts(), 5);
    assert_eq!(CellKind::Prism.n_verts(), 6);
    assert_eq!(CellKind::Hexahedron.n_verts(), 8);
}

#[test]
fn faces_of_simplices() {
    assert_eq!(CellKind::Tetrahedron.face(), Some(CellKind::Triangle));
    assert_eq!(CellKind::Triangle.face(), Some(CellKind::Edge));
    assert_eq!(CellKind::Edge.face(), Some(CellKind::Vertex));
    assert_eq!(CellKind::Vertex.face(), None);
    assert_eq!(CellKind::Hexahedron.face(), None);
    assert_eq!(CellKind::Quadrangle.face(), None);
}

#[test]
fn topological_dimensions() {
    assert_eq!(CellKind::Vertex.topo_dim(), 0);
    assert_eq!(CellKind::Edge.topo_dim(), 1);
    assert_eq!(CellKind::Quadrangle.topo_dim(), 2);
    assert_eq!(CellKind::Prism.topo_dim(), 3);
}

#[test]
fn the_five_mesh_families() {
    let cases = [
        (3, CellKind::Tetrahedron, 4, 3),
        (3, CellKind::Triangle, 3, 2),
        (3, CellKind::Edge, 2, 1),
        (2, CellKind::Triangle, 3, 2),
        (2, CellKind::Edge, 2, 1),
    ];
    for (dim, cell, ew, fw) in cases {
        let l = MeshLayout::new(dim, cell).unwrap();
        assert_eq!(l.dim(), dim);
        assert_eq!(l.cell(), cell);
        assert_eq!(l.elem_width(), ew);
        assert_eq!(l.face_width(), fw);
    }
    assert_eq!(MeshLayout::new(3, CellKind::Tetrahedron).unwrap().face(), CellKind::Triangle);
}

#[test]
fn invalid_layouts() {
    assert!(MeshLayout::new(2, CellKind::Tetrahedron).is_none());
    assert!(MeshLayout::new(3, CellKind::Hexahedron).is_none());
    assert!(MeshLayout::new(3, CellKind::Vertex).is_none());
    assert!(MeshLayout::new(1, CellKind::Edge).is_none());
    assert!(MeshLayout::new(4, CellKind::Tetrahedron).is_none());
}
