use fold::Edge;
use fold::EdgeAssignment;
use fold::EdgeOrder;
use fold::Error;
use fold::FaceOrder;
use fold::Graph;
use fold::LengthPair;
use fold::OrderList;
use fold::RefArray;
use fold::ReflexivePair;
use fold::WindingPair;

/// A triangle with its three vertices, three edges and one face.
fn triangle() -> Graph {
    let mut g = Graph::new();
    g.vertices_coordinates = vec![vec![0, 0], vec![1000, 0], vec![0, 1000]];
    g.edges_vertices = vec![Edge(0, 1), Edge(1, 2), Edge(2, 0)];
    g.faces_vertices = vec![vec![0, 1, 2]];
    g
}

#[test]
fn triangle_is_valid() {
    assert_eq!(triangle().validate(), Ok(()));
}

#[test]
fn empty_graph_is_valid() {
    assert_eq!(Graph::new().validate(), Ok(()));
}

#[test]
fn abstract_triangle_without_coordinates_is_valid() {
    // With no coordinates and no vertex-indexed adjacency array, nothing
    // sizes the vertex space, so no vertex reference can be out of range.
    let mut g = Graph::new();
    g.edges_vertices = vec![Edge(0, 1), Edge(1, 2), Edge(2, 0)];
    g.faces_vertices = vec![vec![0, 1, 2]];
    assert_eq!(g.validate(), Ok(()));
}

#[test]
fn validation_is_deterministic() {
    let g = triangle();
    assert_eq!(g.validate(), g.validate());
    let mut bad = triangle();
    bad.faces_edges = vec![vec![0, 1]];
    assert_eq!(bad.validate(), bad.validate());
}

#[test]
fn short_faces_edges_row_is_rejected() {
    // Two edges cannot bound a three-vertex face: the row's length must
    // match its face's vertex count.
    let mut g = Graph::new();
    g.edges_vertices = vec![Edge(0, 1), Edge(1, 2), Edge(2, 0)];
    g.faces_vertices = vec![vec![0, 1, 2]];
    g.faces_edges = vec![vec![0, 1]];
    assert_eq!(g.validate(), Err(Error::LengthMismatch(LengthPair::FE)));
    let mut with_coords = triangle();
    with_coords.faces_edges = vec![vec![0, 1]];
    assert_eq!(with_coords.validate(), Err(Error::LengthMismatch(LengthPair::FE)));
}

#[test]
fn rotated_faces_edges_row_is_a_winding_mismatch() {
    let mut g = triangle();
    g.faces_edges = vec![vec![0, 2, 1]];
    assert_eq!(g.validate(), Err(Error::WindingMismatch(WindingPair::FVFE)));
}

#[test]
fn full_faces_edges_row_is_accepted() {
    let mut g = triangle();
    g.faces_edges = vec![vec![0, 1, 2]];
    assert_eq!(g.validate(), Ok(()));
}

#[test]
fn mountain_with_positive_angle_is_rejected() {
    let mut g = Graph::new();
    g.vertices_coordinates = vec![vec![0, 0], vec![1000, 0]];
    g.edges_vertices = vec![Edge(0, 1)];
    g.edges_assignment = vec![EdgeAssignment::Mountain];
    g.edges_fold_angle = vec![45000];
    assert_eq!(g.validate(), Err(Error::AssignmentAngleMismatch(0)));
}

#[test]
fn mountain_with_negative_angle_is_accepted() {
    let mut g = Graph::new();
    g.vertices_coordinates = vec![vec![0, 0], vec![1000, 0]];
    g.edges_vertices = vec![Edge(0, 1)];
    g.edges_assignment = vec![EdgeAssignment::Mountain];
    g.edges_fold_angle = vec![-45000];
    assert_eq!(g.validate(), Ok(()));
}

#[test]
fn valley_needs_positive_angle() {
    let mut g = Graph::new();
    g.vertices_coordinates = vec![vec![0, 0], vec![1000, 0]];
    g.edges_vertices = vec![Edge(0, 1)];
    g.edges_assignment = vec![EdgeAssignment::Valley];
    g.edges_fold_angle = vec![-1];
    assert_eq!(g.validate(), Err(Error::AssignmentAngleMismatch(0)));
    g.edges_fold_angle = vec![90000];
    assert_eq!(g.validate(), Ok(()));
}

#[test]
fn flat_assignment_needs_zero_angle() {
    let mut g = Graph::new();
    g.vertices_coordinates = vec![vec![0, 0], vec![1000, 0]];
    g.edges_vertices = vec![Edge(0, 1)];
    g.edges_assignment = vec![EdgeAssignment::Flat];
    g.edges_fold_angle = vec![1];
    assert_eq!(g.validate(), Err(Error::AssignmentAngleMismatch(0)));
    g.edges_fold_angle = vec![0];
    assert_eq!(g.validate(), Ok(()));
}

#[test]
fn sign_check_skipped_when_angles_absent() {
    let mut g = Graph::new();
    g.vertices_coordinates = vec![vec![0, 0], vec![1000, 0]];
    g.edges_vertices = vec![Edge(0, 1)];
    g.edges_assignment = vec![EdgeAssignment::Mountain];
    assert_eq!(g.validate(), Ok(()));
}

#[test]
fn aligned_neighbor_and_edge_lists_are_valid() {
    // No coordinates: the neighbor lists themselves size the vertex space.
    let mut g = Graph::new();
    g.vertices_vertices = vec![vec![1], vec![0]];
    g.vertices_edges = vec![vec![0], vec![0]];
    g.edges_vertices = vec![Edge(0, 1)];
    assert_eq!(g.validate(), Ok(()));
}

#[test]
fn derived_vertex_count_still_bounds_references() {
    // Without coordinates the neighbor array sizes the vertex space, and
    // an index beyond it is still out of range.
    let mut g = Graph::new();
    g.vertices_vertices = vec![vec![5], vec![0]];
    assert_eq!(g.validate(), Err(Error::OutOfRangeReference(RefArray::VV, 5, 2)));
}

#[test]
fn misaligned_neighbor_and_edge_lists_are_rejected() {
    let mut g = Graph::new();
    g.vertices_coordinates = vec![vec![0, 0], vec![1000, 0], vec![0, 1000]];
    // Vertex 0's neighbor list is rotated against its edge list: position 0
    // pairs neighbor 2 with the edge to vertex 1.
    g.vertices_vertices = vec![vec![2, 1], vec![0], vec![0]];
    g.vertices_edges = vec![vec![0, 1], vec![0], vec![1]];
    g.edges_vertices = vec![Edge(0, 1), Edge(0, 2)];
    assert_eq!(g.validate(), Err(Error::WindingMismatch(WindingPair::VVVE)));
}

#[test]
fn asymmetric_neighbors_are_rejected() {
    let mut g = Graph::new();
    g.vertices_coordinates = vec![vec![0, 0], vec![1000, 0]];
    g.vertices_vertices = vec![vec![1], vec![]];
    assert_eq!(g.validate(), Err(Error::ReflexiveMismatch(ReflexivePair::VVWithVV)));
}

#[test]
fn symmetric_neighbors_are_accepted() {
    let mut g = Graph::new();
    g.vertices_coordinates = vec![vec![0, 0], vec![1000, 0]];
    g.vertices_vertices = vec![vec![1], vec![0]];
    assert_eq!(g.validate(), Ok(()));
}

#[test]
fn vertex_edge_lists_must_match_edge_endpoints() {
    let mut g = Graph::new();
    g.vertices_coordinates = vec![vec![0, 0], vec![1000, 0]];
    g.vertices_edges = vec![vec![], vec![0]];
    g.edges_vertices = vec![Edge(0, 1)];
    assert_eq!(g.validate(), Err(Error::ReflexiveMismatch(ReflexivePair::VEWithEV)));
}

#[test]
fn vertex_face_lists_must_match_face_vertices() {
    let mut g = triangle();
    g.vertices_faces = vec![vec![Some(0)], vec![Some(0)], vec![]];
    assert_eq!(g.validate(), Err(Error::ReflexiveMismatch(ReflexivePair::VFWithFV)));
    g.vertices_faces = vec![vec![Some(0)], vec![Some(0)], vec![Some(0)]];
    assert_eq!(g.validate(), Ok(()));
}

#[test]
fn null_face_slots_are_tolerated() {
    let mut g = triangle();
    g.vertices_faces = vec![vec![Some(0), None], vec![Some(0)], vec![Some(0), None]];
    assert_eq!(g.validate(), Ok(()));
}

#[test]
fn edge_face_lists_must_match_face_edges() {
    let mut g = triangle();
    g.faces_edges = vec![vec![0, 1, 2]];
    g.edges_faces = vec![vec![Some(0), None], vec![Some(0)], vec![]];
    assert_eq!(g.validate(), Err(Error::ReflexiveMismatch(ReflexivePair::EFWithFE)));
    g.edges_faces = vec![vec![Some(0), None], vec![Some(0)], vec![Some(0)]];
    assert_eq!(g.validate(), Ok(()));
}

#[test]
fn face_neighbor_lists_must_be_symmetric() {
    let mut g = Graph::new();
    g.vertices_coordinates = vec![vec![0, 0], vec![1000, 0], vec![0, 1000], vec![1000, 1000]];
    g.edges_vertices = vec![Edge(0, 1), Edge(1, 2), Edge(2, 0), Edge(1, 3), Edge(3, 2)];
    g.faces_vertices = vec![vec![0, 1, 2], vec![1, 3, 2]];
    g.faces_faces = vec![vec![Some(1)], vec![]];
    assert_eq!(g.validate(), Err(Error::ReflexiveMismatch(ReflexivePair::FFWithFF)));
}

#[test]
fn uneven_coordinate_dimensions_are_rejected() {
    let mut g = Graph::new();
    g.vertices_coordinates = vec![vec![0, 0], vec![0]];
    assert_eq!(g.validate(), Err(Error::NonUniformCoordinateDimension(1)));
}

#[test]
fn negative_edge_length_is_rejected() {
    let mut g = Graph::new();
    g.vertices_coordinates = vec![vec![0, 0], vec![1000, 0]];
    g.edges_vertices = vec![Edge(0, 1)];
    g.edges_length = vec![-1];
    assert_eq!(g.validate(), Err(Error::NegativeLength(0)));
    g.edges_length = vec![1414];
    assert_eq!(g.validate(), Ok(()));
}

#[test]
fn self_paired_edge_order_is_rejected() {
    let mut g = Graph::new();
    g.vertices_coordinates = vec![vec![0, 0], vec![1000, 0]];
    g.edges_vertices = vec![Edge(0, 1)];
    g.edge_orders = vec![(0, 0, EdgeOrder::Unknown)];
    assert_eq!(g.validate(), Err(Error::DegenerateOrderPair(OrderList::Edges, 0)));
}

#[test]
fn duplicate_edge_order_pair_is_rejected() {
    let mut g = Graph::new();
    g.vertices_coordinates = vec![vec![0, 0], vec![1000, 0], vec![0, 1000]];
    g.edges_vertices = vec![Edge(0, 1), Edge(1, 2)];
    g.edge_orders = vec![(0, 1, EdgeOrder::Left), (1, 0, EdgeOrder::Right)];
    assert_eq!(g.validate(), Err(Error::DuplicateOrderPair(OrderList::Edges, 1)));
}

#[test]
fn duplicate_face_order_pair_is_rejected() {
    let mut g = Graph::new();
    g.vertices_coordinates = vec![vec![0, 0], vec![1000, 0], vec![0, 1000], vec![1000, 1000]];
    g.edges_vertices = vec![Edge(0, 1), Edge(1, 2), Edge(2, 0), Edge(1, 3), Edge(3, 2)];
    g.faces_vertices = vec![vec![0, 1, 2], vec![1, 3, 2]];
    g.face_orders = vec![(0, 1, FaceOrder::Above), (0, 1, FaceOrder::Below)];
    assert_eq!(g.validate(), Err(Error::DuplicateOrderPair(OrderList::Faces, 1)));
}

#[test]
fn two_vertex_face_is_rejected() {
    let mut g = Graph::new();
    g.vertices_coordinates = vec![vec![0, 0], vec![1000, 0]];
    g.edges_vertices = vec![Edge(0, 1)];
    g.faces_vertices = vec![vec![0, 1]];
    assert_eq!(g.validate(), Err(Error::DegenerateFace(0)));
}

#[test]
fn partial_neighbor_array_is_rejected() {
    let mut g = Graph::new();
    g.vertices_coordinates = vec![vec![0, 0], vec![1000, 0]];
    g.vertices_vertices = vec![vec![1]];
    assert_eq!(g.validate(), Err(Error::LengthMismatch(LengthPair::VV)));
}

#[test]
fn partial_fold_angle_array_is_rejected() {
    let mut g = Graph::new();
    g.vertices_coordinates = vec![vec![0, 0], vec![1000, 0], vec![0, 1000]];
    g.edges_vertices = vec![Edge(0, 1), Edge(1, 2)];
    g.edges_fold_angle = vec![0];
    assert_eq!(g.validate(), Err(Error::LengthMismatch(LengthPair::EFA)));
}

#[test]
fn out_of_range_neighbor_is_rejected() {
    let mut g = Graph::new();
    g.vertices_coordinates = vec![vec![0, 0], vec![1000, 0]];
    g.vertices_vertices = vec![vec![5], vec![0]];
    assert_eq!(g.validate(), Err(Error::OutOfRangeReference(RefArray::VV, 5, 2)));
}

#[test]
fn out_of_range_edge_endpoint_is_rejected() {
    let mut g = Graph::new();
    g.vertices_coordinates = vec![vec![0, 0], vec![1000, 0]];
    g.edges_vertices = vec![Edge(0, 7)];
    assert_eq!(g.validate(), Err(Error::OutOfRangeReference(RefArray::EV, 7, 2)));
}

#[test]
fn out_of_range_order_endpoint_is_rejected() {
    let mut g = Graph::new();
    g.vertices_coordinates = vec![vec![0, 0], vec![1000, 0]];
    g.edges_vertices = vec![Edge(0, 1)];
    g.edge_orders = vec![(0, 3, EdgeOrder::Unknown)];
    assert_eq!(g.validate(), Err(Error::OutOfRangeReference(RefArray::EO, 3, 1)));
}

#[test]
fn face_winding_against_neighbor_faces_is_checked() {
    let mut g = Graph::new();
    g.vertices_coordinates = vec![vec![0, 0], vec![1000, 0], vec![0, 1000], vec![1000, 1000]];
    g.edges_vertices = vec![Edge(0, 1), Edge(1, 2), Edge(2, 0), Edge(1, 3), Edge(3, 2)];
    g.faces_vertices = vec![vec![0, 1, 2], vec![1, 3, 2]];
    // Face 0 borders face 1 along the edge between vertices 1 and 2.
    g.faces_faces = vec![vec![None, Some(1), None], vec![None, None, Some(0)]];
    assert_eq!(g.validate(), Ok(()));
    // Claiming the shared edge lies between vertices 0 and 1 breaks the winding.
    g.faces_faces = vec![vec![Some(1), None, None], vec![None, None, Some(0)]];
    assert_eq!(g.validate(), Err(Error::WindingMismatch(WindingPair::FVFF)));
}

#[test]
fn edge_winding_against_neighbor_faces_is_checked() {
    let mut g = Graph::new();
    g.vertices_coordinates = vec![vec![0, 0], vec![1000, 0], vec![0, 1000], vec![1000, 1000]];
    g.edges_vertices = vec![Edge(0, 1), Edge(1, 2), Edge(2, 0), Edge(1, 3), Edge(3, 2)];
    g.faces_vertices = vec![vec![0, 1, 2], vec![1, 3, 2]];
    g.faces_edges = vec![vec![0, 1, 2], vec![3, 4, 1]];
    g.edges_faces = vec![
        vec![Some(0)],
        vec![Some(0), Some(1)],
        vec![Some(0)],
        vec![Some(1)],
        vec![Some(1)],
    ];
    g.faces_faces = vec![vec![None, Some(1), None], vec![None, None, Some(0)]];
    assert_eq!(g.validate(), Ok(()));
    // Edge 0 does not border face 1, so face 0 cannot meet face 1 across it.
    g.faces_faces = vec![vec![Some(1), None, None], vec![None, None, Some(0)]];
    assert_eq!(g.validate(), Err(Error::WindingMismatch(WindingPair::FVFF)));
}

#[test]
fn oversized_faces_edges_array_is_rejected() {
    let mut g = triangle();
    g.faces_edges = vec![vec![0, 1, 2], vec![0, 1, 2]];
    assert_eq!(g.validate(), Err(Error::LengthMismatch(LengthPair::FE)));
}
