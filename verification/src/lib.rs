//! Validation engine for a JSON-encoded polygon-mesh interchange format:
//! documents hold frames, frames hold combinatorial graphs described by
//! redundant adjacency arrays, and this crate checks that the arrays agree
//! with one another and resolves inheritance between frames.

mod custom;
mod edge;
mod error;
mod fold;
mod frame;
mod graph;
mod laws;
mod make;
mod util;
pub mod validation;

pub use crate::custom::CustomEntry;
pub use crate::custom::CustomEntryView;
pub use crate::edge::Edge;
pub use crate::edge::EdgeAssignment;
pub use crate::edge::EdgeIterator;
pub use crate::error::Error;
pub use crate::error::LengthPair;
pub use crate::error::OrderList;
pub use crate::error::RefArray;
pub use crate::error::ReflexivePair;
pub use crate::error::WindingPair;
pub use crate::fold::Fold;
pub use crate::fold::FoldClass;
pub use crate::fold::FoldView;
pub use crate::frame::Frame;
pub use crate::frame::FrameAttribute;
pub use crate::frame::FrameClass;
pub use crate::frame::FrameUnit;
pub use crate::frame::FrameView;
pub use crate::graph::EdgeOrder;
pub use crate::graph::FaceOrder;
pub use crate::graph::Graph;
pub use crate::graph::GraphView;
pub use crate::laws::lemma_all_inheriting_parents_cycle;
pub use crate::laws::lemma_assignment_angle_signs;
pub use crate::laws::lemma_bare_graph_skips_reflexive_and_winding;
pub use crate::laws::lemma_neighbor_symmetry;
pub use crate::laws::lemma_parent_ring_cycles;
pub use crate::laws::lemma_resolve_without_parent_is_identity;
pub use crate::laws::lemma_validate_deterministic;
pub use crate::make::lookup_pair;
pub use crate::make::make_cyclical_pairs_map;
pub use crate::make::make_vertices_edges;
pub use crate::make::make_vertices_edges_unsorted;
