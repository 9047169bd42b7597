pub mod length;
pub mod orchestrator;
pub mod parents;
pub mod references;
pub mod reflexive;
pub mod sign;
pub mod types;
pub mod winding;

pub use crate::validation::length::validate_edges_assignment_length;
pub use crate::validation::length::validate_edges_faces_length;
pub use crate::validation::length::validate_edges_fold_angle_length;
pub use crate::validation::length::validate_edges_length_length;
pub use crate::validation::length::validate_faces_edges_length;
pub use crate::validation::length::validate_faces_faces_length;
pub use crate::validation::length::validate_vertices_edges_length;
pub use crate::validation::length::validate_vertices_faces_length;
pub use crate::validation::length::validate_vertices_vertices_length;
pub use crate::validation::orchestrator::graph_validate_spec;
pub use crate::validation::parents::validate_frame_parents;
pub use crate::validation::references::validate_edge_orders_indices;
pub use crate::validation::references::validate_edges_faces_indices;
pub use crate::validation::references::validate_edges_vertices_indices;
pub use crate::validation::references::validate_face_orders_indices;
pub use crate::validation::references::validate_faces_edges_indices;
pub use crate::validation::references::validate_faces_faces_indices;
pub use crate::validation::references::validate_faces_vertices_indices;
pub use crate::validation::references::validate_vertices_edges_indices;
pub use crate::validation::references::validate_vertices_faces_indices;
pub use crate::validation::references::validate_vertices_vertices_indices;
pub use crate::validation::reflexive::validate_edges_faces_with_faces_edges;
pub use crate::validation::reflexive::validate_faces_faces_with_faces_faces;
pub use crate::validation::reflexive::validate_vertices_edges_with_edges_vertices;
pub use crate::validation::reflexive::validate_vertices_faces_with_faces_vertices;
pub use crate::validation::reflexive::validate_vertices_vertices_with_vertices_vertices;
pub use crate::validation::sign::validate_edges_assignment_with_edges_fold_angle;
pub use crate::validation::types::validate_edge_orders;
pub use crate::validation::types::validate_edges_length;
pub use crate::validation::types::validate_face_orders;
pub use crate::validation::types::validate_faces_vertices;
pub use crate::validation::types::validate_vertices_coordinates;
pub use crate::validation::winding::validate_faces_edges_and_faces_faces_winding;
pub use crate::validation::winding::validate_faces_vertices_and_faces_edges_winding;
pub use crate::validation::winding::validate_faces_vertices_and_faces_faces_winding;
pub use crate::validation::winding::validate_vertices_edges_and_vertices_faces_winding;
pub use crate::validation::winding::validate_vertices_vertices_and_vertices_edges_winding;
pub use crate::validation::winding::validate_vertices_vertices_and_vertices_faces_winding;
