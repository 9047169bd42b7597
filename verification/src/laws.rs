use vstd::prelude::*;

use crate::error::Error;
use crate::fold::fold_validate_spec;
use crate::fold::resolve_spec;
use crate::fold::resolve_walk;
use crate::fold::FoldView;
use crate::frame::FrameView;
use crate::graph::GraphView;
use crate::validation::reflexive::edges_faces_reflexive_check;
use crate::validation::reflexive::faces_faces_reflexive_check;
use crate::validation::reflexive::vertices_edges_reflexive_check;
use crate::validation::reflexive::vertices_faces_reflexive_check;
use crate::validation::reflexive::vertices_vertices_reflexive_check;
use crate::validation::reflexive::vv_entry_ok;
use crate::validation::reflexive::vv_symmetric;
use crate::validation::sign::sign_check;
use crate::validation::sign::sign_check_from;
use crate::validation::sign::sign_ok;
use crate::validation::winding::feff_winding_check;
use crate::validation::winding::fvfe_winding_check;
use crate::validation::winding::fvff_winding_check;
use crate::validation::winding::vevf_winding_check;
use crate::validation::winding::vvve_winding_check;
use crate::validation::winding::vvvf_winding_check;
use crate::edge::EdgeAssignment;

verus! {

/// A graph that supplies nothing beyond the three authoritative arrays
/// (coordinates, edge endpoints, face vertex lists) passes every reflexive
/// and every winding check vacuously: each of those checks is skipped as
/// soon as one of the arrays it compares is absent.
pub proof fn lemma_bare_graph_skips_reflexive_and_winding(g: GraphView)
    requires
        g.vertices_vertices.len() == 0,
        g.vertices_edges.len() == 0,
        g.vertices_faces.len() == 0,
        g.edges_faces.len() == 0,
        g.faces_edges.len() == 0,
        g.faces_faces.len() == 0,
    ensures
        vertices_vertices_reflexive_check(g) == Ok::<(), Error>(()),
        vertices_edges_reflexive_check(g) == Ok::<(), Error>(()),
        vertices_faces_reflexive_check(g) == Ok::<(), Error>(()),
        edges_faces_reflexive_check(g) == Ok::<(), Error>(()),
        faces_faces_reflexive_check(g) == Ok::<(), Error>(()),
        vvve_winding_check(g) == Ok::<(), Error>(()),
        vvvf_winding_check(g) == Ok::<(), Error>(()),
        vevf_winding_check(g) == Ok::<(), Error>(()),
        fvfe_winding_check(g) == Ok::<(), Error>(()),
        fvff_winding_check(g) == Ok::<(), Error>(()),
        feff_winding_check(g) == Ok::<(), Error>(()),
{
}

/// Resolving a frame whose parent link is unset returns the frame
/// unchanged, whatever its inherit flag says; in particular the key frame,
/// which never has a parent, always resolves to itself.
pub proof fn lemma_resolve_without_parent_is_identity(doc: FoldView, frame_index: usize)
    requires
        frame_index < doc.frame_count(),
        doc.frame_at(frame_index as int).parent is None,
    ensures
        resolve_spec(doc, frame_index) == Ok::<FrameView, Error>(
            doc.frame_at(frame_index as int),
        ),
{
}

/// Validating a document is deterministic and side-effect-free. The
/// side-effect half is carried by the signatures: `Fold::validate` and
/// every check it runs borrow the document immutably, so no call can change
/// it. The determinism half is this lemma: `Fold::validate` ensures its
/// result equals `fold_validate_spec` of the document's content, a function
/// of that content alone, so any two results for the same document are the
/// same result.
pub proof fn lemma_validate_deterministic(
    doc: FoldView,
    r1: Result<(), Error>,
    r2: Result<(), Error>,
)
    requires
        r1 == fold_validate_spec(doc),
        r2 == fold_validate_spec(doc),
    ensures
        r1 == r2,
{
}

/// While every frame of the document names a parent inside it and opts into
/// inheritance, the resolver's walk can never reach a frame without a
/// parent, so it must revisit one and report `InfiniteParents`.
proof fn lemma_walk_without_base_case_cycles(
    doc: FoldView,
    origin: usize,
    acc: FrameView,
    cur: FrameView,
    visited: Set<int>,
    fuel: nat,
)
    requires
        forall|i: int|
            0 <= i < doc.frame_count() ==> match (#[trigger] doc.frame_at(i)).parent {
                Some(p) => p < doc.frame_count(),
                None => false,
            },
        forall|i: int| 0 <= i < doc.frame_count() ==> (#[trigger] doc.frame_at(i)).inherit,
        match cur.parent {
            Some(p) => p < doc.frame_count(),
            None => false,
        },
    ensures
        resolve_walk(doc, origin, acc, cur, visited, fuel) == Err::<FrameView, Error>(
            Error::InfiniteParents(origin),
        ),
    decreases fuel,
{
    match cur.parent {
        Some(p) => {
            if !visited.contains(p as int) && fuel > 0 {
                let parent = doc.frame_at(p as int);
                assert(parent.inherit);
                lemma_walk_without_base_case_cycles(
                    doc,
                    origin,
                    FrameView::merged(acc, parent),
                    parent,
                    visited.insert(p as int),
                    (fuel - 1) as nat,
                );
            }
        },
        None => {
            assert(false);
        },
    }
}

/// In a document whose frames all inherit and all name a parent inside the
/// document, resolving any frame reports `InfiniteParents` for it: with no
/// frame to end the chain, the walk must bite its own tail.
pub proof fn lemma_all_inheriting_parents_cycle(doc: FoldView, frame_index: usize)
    requires
        frame_index < doc.frame_count(),
        forall|i: int|
            0 <= i < doc.frame_count() ==> match (#[trigger] doc.frame_at(i)).parent {
                Some(p) => p < doc.frame_count(),
                None => false,
            },
        forall|i: int| 0 <= i < doc.frame_count() ==> (#[trigger] doc.frame_at(i)).inherit,
    ensures
        resolve_spec(doc, frame_index) == Err::<FrameView, Error>(
            Error::InfiniteParents(frame_index),
        ),
{
    let frame = doc.frame_at(frame_index as int);
    assert(frame.inherit);
    lemma_walk_without_base_case_cycles(
        doc,
        frame_index,
        frame,
        frame,
        Set::empty().insert(frame_index as int),
        doc.frame_count(),
    );
}

/// The chain of N frames in which frame k's parent is frame (k + 1) mod N,
/// all opting into inheritance, resolves every one of its frames to
/// `InfiniteParents`.
pub proof fn lemma_parent_ring_cycles(doc: FoldView, frame_index: usize)
    requires
        doc.frame_count() >= 2,
        frame_index < doc.frame_count(),
        forall|k: int|
            0 <= k < doc.frame_count() ==> (#[trigger] doc.frame_at(k)).parent == Some(
                (((k + 1) % (doc.frame_count() as int)) as usize),
            ),
        forall|k: int| 0 <= k < doc.frame_count() ==> (#[trigger] doc.frame_at(k)).inherit,
    ensures
        resolve_spec(doc, frame_index) == Err::<FrameView, Error>(
            Error::InfiniteParents(frame_index),
        ),
{
    let n = doc.frame_count() as int;
    assert forall|i: int|
        0 <= i < doc.frame_count() implies match (#[trigger] doc.frame_at(i)).parent {
        Some(p) => p < doc.frame_count(),
        None => false,
    } by {
        vstd::arithmetic::div_mod::lemma_mod_bound(i + 1, n);
    }
    lemma_all_inheriting_parents_cycle(doc, frame_index);
}

/// After the vertices_vertices reflexive check succeeds, the neighbor
/// relation really is symmetric: whenever vertex v lists u, vertex u lists
/// v back.
pub proof fn lemma_neighbor_symmetry(g: GraphView, v: usize, u: usize)
    requires
        vertices_vertices_reflexive_check(g) == Ok::<(), Error>(()),
        v < g.vertices_vertices.len(),
        g.vertices_vertices[v as int].contains(u),
    ensures
        u < g.vertices_vertices.len(),
        g.vertices_vertices[u as int].contains(v),
{
    let vv = g.vertices_vertices;
    assert(vv_symmetric(vv));
    let k = choose|k: int| 0 <= k < vv[v as int].len() && vv[v as int][k] == u;
    assert(vv_entry_ok(vv, v as int, k));
}

/// The sign rule, edge by edge, once the sign check succeeds before position
/// `i`.
proof fn lemma_sign_check_from_ok(ea: Seq<EdgeAssignment>, efa: Seq<i64>, j: int, i: int)
    requires
        0 <= j <= i < ea.len(),
        sign_check_from(ea, efa, j) == Ok::<(), Error>(()),
    ensures
        sign_ok(ea[i], efa[i]),
    decreases i - j,
{
    if j < i {
        lemma_sign_check_from_ok(ea, efa, j + 1, i);
    }
}

/// After the sign check succeeds on a graph carrying both arrays, every
/// edge obeys the sign rule: a Mountain assignment has a strictly negative
/// fold angle, a Valley a strictly positive one, and every other assignment
/// an angle of exactly zero.
pub proof fn lemma_assignment_angle_signs(g: GraphView, i: int)
    requires
        sign_check(g) == Ok::<(), Error>(()),
        g.edges_assignment.len() > 0,
        g.edges_fold_angle.len() > 0,
        0 <= i < g.edges_assignment.len(),
    ensures
        g.edges_assignment[i] is Mountain ==> g.edges_fold_angle[i] < 0,
        g.edges_assignment[i] is Valley ==> g.edges_fold_angle[i] > 0,
        !(g.edges_assignment[i] is Mountain) && !(g.edges_assignment[i] is Valley)
            ==> g.edges_fold_angle[i] == 0,
{
    lemma_sign_check_from_ok(g.edges_assignment, g.edges_fold_angle, 0, i);
}

} // verus!
