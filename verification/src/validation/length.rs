use vstd::prelude::*;

use crate::error::Error;
use crate::error::LengthPair;
use crate::graph::Graph;
use crate::graph::GraphView;

verus! {

broadcast use vstd::seq::group_seq_axioms;

/// The length rule for an optional array: absent (length 0) or exactly as
/// long as its owning entity's array.
pub open spec fn length_ok(source_len: nat, owner_len: nat) -> bool {
    source_len == 0 || source_len == owner_len
}

/// The length rule for a vertex-indexed array: absent, or exactly the
/// vertex count the graph's arrays imply. When coordinates are absent the
/// first present vertex-indexed array sizes the vertex space itself, so an
/// abstract graph is not rejected for leaving coordinates out.
pub open spec fn vertex_length_check(g: GraphView, source_len: nat, pair: LengthPair) -> Result<
    (),
    Error,
> {
    if source_len == 0 || g.vertex_count() == Some(source_len) {
        Ok(())
    } else {
        Err(Error::LengthMismatch(pair))
    }
}

/// Each faces_edges row lists one edge per boundary step, so its length is
/// its face's vertex count.
pub open spec fn fe_rows_aligned(fe: Seq<Seq<usize>>, fv: Seq<Seq<usize>>) -> bool {
    forall|f: int| 0 <= f < fe.len() ==> (#[trigger] fe[f]).len() == fv[f].len()
}

pub open spec fn length_check(source_len: nat, owner_len: nat, pair: LengthPair) -> Result<
    (),
    Error,
> {
    if length_ok(source_len, owner_len) {
        Ok(())
    } else {
        Err(Error::LengthMismatch(pair))
    }
}

pub open spec fn vertices_vertices_length_check(g: GraphView) -> Result<(), Error> {
    vertex_length_check(g, g.vertices_vertices.len(), LengthPair::VV)
}

pub open spec fn vertices_edges_length_check(g: GraphView) -> Result<(), Error> {
    vertex_length_check(g, g.vertices_edges.len(), LengthPair::VE)
}

pub open spec fn vertices_faces_length_check(g: GraphView) -> Result<(), Error> {
    vertex_length_check(g, g.vertices_faces.len(), LengthPair::VF)
}

pub open spec fn edges_faces_length_check(g: GraphView) -> Result<(), Error> {
    length_check(g.edges_faces.len(), g.edges_vertices.len(), LengthPair::EF)
}

pub open spec fn edges_assignment_length_check(g: GraphView) -> Result<(), Error> {
    length_check(g.edges_assignment.len(), g.edges_vertices.len(), LengthPair::EA)
}

pub open spec fn edges_fold_angle_length_check(g: GraphView) -> Result<(), Error> {
    length_check(g.edges_fold_angle.len(), g.edges_vertices.len(), LengthPair::EFA)
}

pub open spec fn edges_length_length_check(g: GraphView) -> Result<(), Error> {
    length_check(g.edges_length.len(), g.edges_vertices.len(), LengthPair::EL)
}

/// faces_edges must match the face count outer-length-wise and, row by row,
/// each face's own vertex count.
pub open spec fn faces_edges_length_check(g: GraphView) -> Result<(), Error> {
    if g.faces_edges.len() == 0 {
        Ok(())
    } else if g.faces_edges.len() == g.faces_vertices.len() && fe_rows_aligned(
        g.faces_edges,
        g.faces_vertices,
    ) {
        Ok(())
    } else {
        Err(Error::LengthMismatch(LengthPair::FE))
    }
}

pub open spec fn faces_faces_length_check(g: GraphView) -> Result<(), Error> {
    length_check(g.faces_faces.len(), g.faces_vertices.len(), LengthPair::FF)
}

pub fn validate_vertices_vertices_length(graph: &Graph) -> (r: Result<(), Error>)
    ensures
        r == vertices_vertices_length_check(graph@),
{
    let length = graph.vertices_vertices.len();
    if length == 0 {
        return Ok(());
    }
    match graph.vertex_count() {
        Some(n) => if length == n {
            Ok(())
        } else {
            Err(Error::LengthMismatch(LengthPair::VV))
        },
        None => Err(Error::LengthMismatch(LengthPair::VV)),
    }
}

pub fn validate_vertices_edges_length(graph: &Graph) -> (r: Result<(), Error>)
    ensures
        r == vertices_edges_length_check(graph@),
{
    let length = graph.vertices_edges.len();
    if length == 0 {
        return Ok(());
    }
    match graph.vertex_count() {
        Some(n) => if length == n {
            Ok(())
        } else {
            Err(Error::LengthMismatch(LengthPair::VE))
        },
        None => Err(Error::LengthMismatch(LengthPair::VE)),
    }
}

pub fn validate_vertices_faces_length(graph: &Graph) -> (r: Result<(), Error>)
    ensures
        r == vertices_faces_length_check(graph@),
{
    let length = graph.vertices_faces.len();
    if length == 0 {
        return Ok(());
    }
    match graph.vertex_count() {
        Some(n) => if length == n {
            Ok(())
        } else {
            Err(Error::LengthMismatch(LengthPair::VF))
        },
        None => Err(Error::LengthMismatch(LengthPair::VF)),
    }
}

pub fn validate_edges_faces_length(graph: &Graph) -> (r: Result<(), Error>)
    ensures
        r == edges_faces_length_check(graph@),
{
    let length = graph.edges_faces.len();
    if !(length == 0 || length == graph.edges_vertices.len()) {
        return Err(Error::LengthMismatch(LengthPair::EF));
    }
    Ok(())
}

pub fn validate_edges_assignment_length(graph: &Graph) -> (r: Result<(), Error>)
    ensures
        r == edges_assignment_length_check(graph@),
{
    let length = graph.edges_assignment.len();
    if !(length == 0 || length == graph.edges_vertices.len()) {
        return Err(Error::LengthMismatch(LengthPair::EA));
    }
    Ok(())
}

pub fn validate_edges_fold_angle_length(graph: &Graph) -> (r: Result<(), Error>)
    ensures
        r == edges_fold_angle_length_check(graph@),
{
    let length = graph.edges_fold_angle.len();
    if !(length == 0 || length == graph.edges_vertices.len()) {
        return Err(Error::LengthMismatch(LengthPair::EFA));
    }
    Ok(())
}

pub fn validate_edges_length_length(graph: &Graph) -> (r: Result<(), Error>)
    ensures
        r == edges_length_length_check(graph@),
{
    let length = graph.edges_length.len();
    if !(length == 0 || length == graph.edges_vertices.len()) {
        return Err(Error::LengthMismatch(LengthPair::EL));
    }
    Ok(())
}

pub fn validate_faces_edges_length(graph: &Graph) -> (r: Result<(), Error>)
    ensures
        r == faces_edges_length_check(graph@),
{
    let ghost fe = graph@.faces_edges;
    let ghost fv = graph@.faces_vertices;
    let length = graph.faces_edges.len();
    if length == 0 {
        return Ok(());
    }
    if length != graph.faces_vertices.len() {
        return Err(Error::LengthMismatch(LengthPair::FE));
    }
    let mut f: usize = 0;
    while f < graph.faces_edges.len()
        invariant
            fe == graph@.faces_edges,
            fv == graph@.faces_vertices,
            fe.len() > 0,
            fe.len() == fv.len(),
            f <= fe.len(),
            forall|f0: int| 0 <= f0 < f ==> (#[trigger] fe[f0]).len() == fv[f0].len(),
        decreases fe.len() - f,
    {
        if graph.faces_edges[f].len() != graph.faces_vertices[f].len() {
            proof {
                assert(fe[f as int].len() != fv[f as int].len());
                assert(!fe_rows_aligned(fe, fv));
            }
            return Err(Error::LengthMismatch(LengthPair::FE));
        }
        f += 1;
    }
    proof {
        assert(fe_rows_aligned(fe, fv));
    }
    Ok(())
}

pub fn validate_faces_faces_length(graph: &Graph) -> (r: Result<(), Error>)
    ensures
        r == faces_faces_length_check(graph@),
{
    let length = graph.faces_faces.len();
    if !(length == 0 || length == graph.faces_vertices.len()) {
        return Err(Error::LengthMismatch(LengthPair::FF));
    }
    Ok(())
}

} // verus!
