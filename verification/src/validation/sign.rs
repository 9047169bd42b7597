use vstd::prelude::*;

use crate::edge::EdgeAssignment;
use crate::error::Error;
use crate::graph::Graph;
use crate::graph::GraphView;

verus! {

/// The sign rule between a crease assignment and a fold angle: a mountain
/// fold bends strictly downward, a valley fold strictly upward, and every
/// other assignment is unfolded.
pub open spec fn sign_ok(a: EdgeAssignment, angle: i64) -> bool {
    match a {
        EdgeAssignment::Mountain => angle < 0,
        EdgeAssignment::Valley => angle > 0,
        _ => angle == 0,
    }
}

/// The first edge from position `i` on whose assignment and fold angle
/// disagree in sign.
pub open spec fn sign_check_from(ea: Seq<EdgeAssignment>, efa: Seq<i64>, i: int) -> Result<
    (),
    Error,
>
    decreases ea.len() - i,
{
    if i < 0 || i >= ea.len() {
        Ok(())
    } else if !sign_ok(ea[i], efa[i]) {
        Err(Error::AssignmentAngleMismatch(i as usize))
    } else {
        sign_check_from(ea, efa, i + 1)
    }
}

/// The sign rule over the whole graph, skipped when either array is absent.
pub open spec fn sign_check(g: GraphView) -> Result<(), Error> {
    if g.edges_assignment.len() == 0 || g.edges_fold_angle.len() == 0 {
        Ok(())
    } else {
        sign_check_from(g.edges_assignment, g.edges_fold_angle, 0)
    }
}

proof fn lemma_sign_tail(ea: Seq<EdgeAssignment>, efa: Seq<i64>, i: int)
    requires
        0 <= i <= ea.len(),
    ensures
        sign_check_from(ea, efa, i) is Ok <==> (forall|k: int|
            i <= k < ea.len() ==> sign_ok(#[trigger] ea[k], efa[k])),
    decreases ea.len() - i,
{
    if i < ea.len() {
        lemma_sign_tail(ea, efa, i + 1);
    }
}

/// The sign check accepts exactly the graphs in which, with both arrays
/// present, every edge's assignment agrees in sign with its fold angle.
pub proof fn lemma_sign_check_ok_iff(g: GraphView)
    ensures
        sign_check(g) is Ok <==> (g.edges_assignment.len() == 0 || g.edges_fold_angle.len() == 0
            || (forall|k: int|
            0 <= k < g.edges_assignment.len() ==> sign_ok(
                #[trigger] g.edges_assignment[k],
                g.edges_fold_angle[k],
            ))),
{
    lemma_sign_tail(g.edges_assignment, g.edges_fold_angle, 0);
}

/// Both arrays, when present, have the edge count's length, so positions
/// line up; the earlier length checks establish this.
pub fn validate_edges_assignment_with_edges_fold_angle(graph: &Graph) -> (r: Result<(), Error>)
    requires
        graph@.edges_assignment.len() == 0 || graph@.edges_fold_angle.len() == 0
            || graph@.edges_assignment.len() == graph@.edges_fold_angle.len(),
    ensures
        r == sign_check(graph@),
{
    if graph.edges_assignment.len() == 0 || graph.edges_fold_angle.len() == 0 {
        return Ok(());
    }
    let ghost ea = graph@.edges_assignment;
    let ghost efa = graph@.edges_fold_angle;
    let mut i: usize = 0;
    while i < graph.edges_assignment.len()
        invariant
            ea == graph@.edges_assignment,
            efa == graph@.edges_fold_angle,
            ea.len() == efa.len(),
            i <= ea.len(),
            sign_check_from(ea, efa, 0) == sign_check_from(ea, efa, i as int),
        decreases ea.len() - i,
    {
        let angle = graph.edges_fold_angle[i];
        let ok = match graph.edges_assignment[i] {
            EdgeAssignment::Mountain => angle < 0,
            EdgeAssignment::Valley => angle > 0,
            _ => angle == 0,
        };
        if !ok {
            return Err(Error::AssignmentAngleMismatch(i));
        }
        i += 1;
    }
    Ok(())
}

} // verus!
