use vstd::prelude::*;

use crate::edge::Edge;
use crate::edge::EdgeAssignment;
use crate::util::clone_row;
use crate::util::clone_rows;
use crate::util::rows_view;

verus! {

/// The layering relation between two edges.
#[derive(Clone, Copy, Debug)]
pub enum EdgeOrder {
    Left,
    Right,
    Unknown,
}

/// The layering relation between two faces.
#[derive(Clone, Copy, Debug)]
pub enum FaceOrder {
    Above,
    Below,
    Unknown,
}

/// The combinatorial mesh of one frame: entity arrays and the optional,
/// mutually redundant adjacency arrays over them.
///
/// Entity counts derive from the arrays themselves: the edge count is
/// `edges_vertices.len()`, the face count `faces_vertices.len()`, and the
/// vertex count comes from `vertices_coordinates` when coordinates are
/// present, otherwise from the first present vertex-indexed adjacency array
/// (an abstract graph may size its vertex space without coordinates, or not
/// size it at all). Every array is optional: length 0 means "not supplied".
/// Real-valued fields (coordinates, fold angles in degrees, lengths) are
/// carried as integers in thousandths of a unit; the checks only ever read
/// their sign.
pub struct Graph {
    pub vertices_coordinates: Vec<Vec<i64>>,
    pub vertices_vertices: Vec<Vec<usize>>,
    pub vertices_edges: Vec<Vec<usize>>,
    pub vertices_faces: Vec<Vec<Option<usize>>>,
    pub edges_vertices: Vec<Edge>,
    pub edges_faces: Vec<Vec<Option<usize>>>,
    pub edges_assignment: Vec<EdgeAssignment>,
    pub edges_fold_angle: Vec<i64>,
    pub edges_length: Vec<i64>,
    pub edge_orders: Vec<(usize, usize, EdgeOrder)>,
    pub faces_vertices: Vec<Vec<usize>>,
    pub faces_edges: Vec<Vec<usize>>,
    pub faces_faces: Vec<Vec<Option<usize>>>,
    pub face_orders: Vec<(usize, usize, FaceOrder)>,
}

/// The mathematical contents of a [`Graph`].
#[verifier::ext_equal]
pub ghost struct GraphView {
    pub vertices_coordinates: Seq<Seq<i64>>,
    pub vertices_vertices: Seq<Seq<usize>>,
    pub vertices_edges: Seq<Seq<usize>>,
    pub vertices_faces: Seq<Seq<Option<usize>>>,
    pub edges_vertices: Seq<Edge>,
    pub edges_faces: Seq<Seq<Option<usize>>>,
    pub edges_assignment: Seq<EdgeAssignment>,
    pub edges_fold_angle: Seq<i64>,
    pub edges_length: Seq<i64>,
    pub edge_orders: Seq<(usize, usize, EdgeOrder)>,
    pub faces_vertices: Seq<Seq<usize>>,
    pub faces_edges: Seq<Seq<usize>>,
    pub faces_faces: Seq<Seq<Option<usize>>>,
    pub face_orders: Seq<(usize, usize, FaceOrder)>,
}

impl View for Graph {
    type V = GraphView;

    open spec fn view(&self) -> GraphView {
        GraphView {
            vertices_coordinates: rows_view(self.vertices_coordinates@),
            vertices_vertices: rows_view(self.vertices_vertices@),
            vertices_edges: rows_view(self.vertices_edges@),
            vertices_faces: rows_view(self.vertices_faces@),
            edges_vertices: self.edges_vertices@,
            edges_faces: rows_view(self.edges_faces@),
            edges_assignment: self.edges_assignment@,
            edges_fold_angle: self.edges_fold_angle@,
            edges_length: self.edges_length@,
            edge_orders: self.edge_orders@,
            faces_vertices: rows_view(self.faces_vertices@),
            faces_edges: rows_view(self.faces_edges@),
            faces_faces: rows_view(self.faces_faces@),
            face_orders: self.face_orders@,
        }
    }
}

impl GraphView {
    /// The graph with every array absent.
    pub open spec fn empty() -> GraphView {
        GraphView {
            vertices_coordinates: Seq::empty(),
            vertices_vertices: Seq::empty(),
            vertices_edges: Seq::empty(),
            vertices_faces: Seq::empty(),
            edges_vertices: Seq::empty(),
            edges_faces: Seq::empty(),
            edges_assignment: Seq::empty(),
            edges_fold_angle: Seq::empty(),
            edges_length: Seq::empty(),
            edge_orders: Seq::empty(),
            faces_vertices: Seq::empty(),
            faces_edges: Seq::empty(),
            faces_faces: Seq::empty(),
            face_orders: Seq::empty(),
        }
    }

    /// The vertex count the arrays imply: the coordinate array's length when
    /// coordinates are present, else the length of the first present
    /// vertex-indexed adjacency array; nothing when no array sizes the
    /// vertex space.
    pub open spec fn vertex_count(self) -> Option<nat> {
        if self.vertices_coordinates.len() > 0 {
            Some(self.vertices_coordinates.len())
        } else if self.vertices_vertices.len() > 0 {
            Some(self.vertices_vertices.len())
        } else if self.vertices_edges.len() > 0 {
            Some(self.vertices_edges.len())
        } else if self.vertices_faces.len() > 0 {
            Some(self.vertices_faces.len())
        } else {
            None
        }
    }

    /// Field-by-field inheritance: wherever the child's array is absent the
    /// parent's array is taken wholesale, and a non-empty child array wins
    /// entirely.
    pub open spec fn merged(c: GraphView, p: GraphView) -> GraphView {
        GraphView {
            vertices_coordinates: if c.vertices_coordinates.len() == 0 {
                p.vertices_coordinates
            } else {
                c.vertices_coordinates
            },
            vertices_vertices: if c.vertices_vertices.len() == 0 {
                p.vertices_vertices
            } else {
                c.vertices_vertices
            },
            vertices_edges: if c.vertices_edges.len() == 0 {
                p.vertices_edges
            } else {
                c.vertices_edges
            },
            vertices_faces: if c.vertices_faces.len() == 0 {
                p.vertices_faces
            } else {
                c.vertices_faces
            },
            edges_vertices: if c.edges_vertices.len() == 0 {
                p.edges_vertices
            } else {
                c.edges_vertices
            },
            edges_faces: if c.edges_faces.len() == 0 {
                p.edges_faces
            } else {
                c.edges_faces
            },
            edges_assignment: if c.edges_assignment.len() == 0 {
                p.edges_assignment
            } else {
                c.edges_assignment
            },
            edges_fold_angle: if c.edges_fold_angle.len() == 0 {
                p.edges_fold_angle
            } else {
                c.edges_fold_angle
            },
            edges_length: if c.edges_length.len() == 0 {
                p.edges_length
            } else {
                c.edges_length
            },
            edge_orders: if c.edge_orders.len() == 0 {
                p.edge_orders
            } else {
                c.edge_orders
            },
            faces_vertices: if c.faces_vertices.len() == 0 {
                p.faces_vertices
            } else {
                c.faces_vertices
            },
            faces_edges: if c.faces_edges.len() == 0 {
                p.faces_edges
            } else {
                c.faces_edges
            },
            faces_faces: if c.faces_faces.len() == 0 {
                p.faces_faces
            } else {
                c.faces_faces
            },
            face_orders: if c.face_orders.len() == 0 {
                p.face_orders
            } else {
                c.face_orders
            },
        }
    }
}

impl Clone for Graph {
    fn clone(&self) -> (r: Self)
        ensures
            r@ == self@,
    {
        Graph {
            vertices_coordinates: clone_rows(&self.vertices_coordinates),
            vertices_vertices: clone_rows(&self.vertices_vertices),
            vertices_edges: clone_rows(&self.vertices_edges),
            vertices_faces: clone_rows(&self.vertices_faces),
            edges_vertices: clone_row(&self.edges_vertices),
            edges_faces: clone_rows(&self.edges_faces),
            edges_assignment: clone_row(&self.edges_assignment),
            edges_fold_angle: clone_row(&self.edges_fold_angle),
            edges_length: clone_row(&self.edges_length),
            edge_orders: clone_row(&self.edge_orders),
            faces_vertices: clone_rows(&self.faces_vertices),
            faces_edges: clone_rows(&self.faces_edges),
            faces_faces: clone_rows(&self.faces_faces),
            face_orders: clone_row(&self.face_orders),
        }
    }
}

impl Graph {
    /// A graph with every array absent.
    pub fn new() -> (r: Self)
        ensures
            r@ == GraphView::empty(),
    {
        let r = Graph {
            vertices_coordinates: Vec::new(),
            vertices_vertices: Vec::new(),
            vertices_edges: Vec::new(),
            vertices_faces: Vec::new(),
            edges_vertices: Vec::new(),
            edges_faces: Vec::new(),
            edges_assignment: Vec::new(),
            edges_fold_angle: Vec::new(),
            edges_length: Vec::new(),
            edge_orders: Vec::new(),
            faces_vertices: Vec::new(),
            faces_edges: Vec::new(),
            faces_faces: Vec::new(),
            face_orders: Vec::new(),
        };
        proof {
            assert(r@ =~~= GraphView::empty());
        }
        r
    }

    /// The vertex count the arrays imply, as [`GraphView::vertex_count`].
    pub fn vertex_count(&self) -> (r: Option<usize>)
        ensures
            match r {
                Some(n) => self@.vertex_count() == Some(n as nat),
                None => self@.vertex_count() is None,
            },
    {
        if self.vertices_coordinates.len() > 0 {
            Some(self.vertices_coordinates.len())
        } else if self.vertices_vertices.len() > 0 {
            Some(self.vertices_vertices.len())
        } else if self.vertices_edges.len() > 0 {
            Some(self.vertices_edges.len())
        } else if self.vertices_faces.len() > 0 {
            Some(self.vertices_faces.len())
        } else {
            None
        }
    }

    /// Fill each array that this graph leaves absent from `graph`.
    pub fn inherit_properties(&mut self, graph: &Self)
        ensures
            final(self)@ == GraphView::merged(old(self)@, graph@),
    {
        if self.vertices_coordinates.len() == 0 {
            self.vertices_coordinates = clone_rows(&graph.vertices_coordinates);
        }
        if self.vertices_vertices.len() == 0 {
            self.vertices_vertices = clone_rows(&graph.vertices_vertices);
        }
        if self.vertices_edges.len() == 0 {
            self.vertices_edges = clone_rows(&graph.vertices_edges);
        }
        if self.vertices_faces.len() == 0 {
            self.vertices_faces = clone_rows(&graph.vertices_faces);
        }
        if self.edges_vertices.len() == 0 {
            self.edges_vertices = clone_row(&graph.edges_vertices);
        }
        if self.edges_faces.len() == 0 {
            self.edges_faces = clone_rows(&graph.edges_faces);
        }
        if self.edges_assignment.len() == 0 {
            self.edges_assignment = clone_row(&graph.edges_assignment);
        }
        if self.edges_fold_angle.len() == 0 {
            self.edges_fold_angle = clone_row(&graph.edges_fold_angle);
        }
        if self.edges_length.len() == 0 {
            self.edges_length = clone_row(&graph.edges_length);
        }
        if self.edge_orders.len() == 0 {
            self.edge_orders = clone_row(&graph.edge_orders);
        }
        if self.faces_vertices.len() == 0 {
            self.faces_vertices = clone_rows(&graph.faces_vertices);
        }
        if self.faces_edges.len() == 0 {
            self.faces_edges = clone_rows(&graph.faces_edges);
        }
        if self.faces_faces.len() == 0 {
            self.faces_faces = clone_rows(&graph.faces_faces);
        }
        if self.face_orders.len() == 0 {
            self.face_orders = clone_row(&graph.face_orders);
        }
        proof {
            assert(self@ =~~= GraphView::merged(old(self)@, graph@));
        }
    }
}

} // verus!
