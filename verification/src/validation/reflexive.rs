use vstd::prelude::*;

use crate::edge::Edge;
use crate::error::Error;
use crate::error::ReflexivePair;
use crate::graph::Graph;
use crate::graph::GraphView;
use crate::util::contains_some;
use crate::util::contains_usize;

verus! {

broadcast use vstd::seq::group_seq_axioms;

/// Neighbor `k` of vertex `v` names a vertex that lists `v` back.
pub open spec fn vv_entry_ok(vv: Seq<Seq<usize>>, v: int, k: int) -> bool {
    vv[v][k] < vv.len() && vv[vv[v][k] as int].contains(v as usize)
}

/// The vertices_vertices array is symmetric: every recorded neighbor
/// relation is recorded in the other direction too.
pub open spec fn vv_symmetric(vv: Seq<Seq<usize>>) -> bool {
    forall|v: int, k: int|
        0 <= v < vv.len() && 0 <= k < vv[v].len() ==> #[trigger] vv_entry_ok(vv, v, k)
}

pub open spec fn vertices_vertices_reflexive_check(g: GraphView) -> Result<(), Error> {
    if g.vertices_vertices.len() == 0 {
        Ok(())
    } else if vv_symmetric(g.vertices_vertices) {
        Ok(())
    } else {
        Err(Error::ReflexiveMismatch(ReflexivePair::VVWithVV))
    }
}

/// Vertex `v` has edge `e` in its incident-edge list.
pub open spec fn edge_listed(ve: Seq<Seq<usize>>, e: int, v: usize) -> bool {
    v < ve.len() && ve[v as int].contains(e as usize)
}

/// Every edge's two endpoints both list that edge.
pub open spec fn ev_listed_back(ve: Seq<Seq<usize>>, ev: Seq<Edge>) -> bool {
    forall|e: int|
        0 <= e < ev.len() ==> edge_listed(ve, e, (#[trigger] ev[e]).0) && edge_listed(
            ve,
            e,
            ev[e].1,
        )
}

/// Entry `k` of vertex `v`'s incident-edge list names an edge with `v` as an
/// endpoint.
pub open spec fn ve_entry_ok(ve: Seq<Seq<usize>>, ev: Seq<Edge>, v: int, k: int) -> bool {
    ve[v][k] < ev.len() && ev[ve[v][k] as int].touches(v as usize)
}

/// Every listed incident edge really touches its vertex.
pub open spec fn ve_entries_ok(ve: Seq<Seq<usize>>, ev: Seq<Edge>) -> bool {
    forall|v: int, k: int|
        0 <= v < ve.len() && 0 <= k < ve[v].len() ==> #[trigger] ve_entry_ok(ve, ev, v, k)
}

pub open spec fn vertices_edges_reflexive_check(g: GraphView) -> Result<(), Error> {
    if g.vertices_edges.len() == 0 || g.edges_vertices.len() == 0 {
        Ok(())
    } else if ev_listed_back(g.vertices_edges, g.edges_vertices) && ve_entries_ok(
        g.vertices_edges,
        g.edges_vertices,
    ) {
        Ok(())
    } else {
        Err(Error::ReflexiveMismatch(ReflexivePair::VEWithEV))
    }
}

/// Non-null entry `k` of vertex `v`'s face list names a face whose vertex
/// list holds `v`.
pub open spec fn vf_entry_ok(vf: Seq<Seq<Option<usize>>>, fv: Seq<Seq<usize>>, v: int, k: int) -> bool {
    match vf[v][k] {
        Some(f) => f < fv.len() && fv[f as int].contains(v as usize),
        None => true,
    }
}

pub open spec fn vf_entries_ok(vf: Seq<Seq<Option<usize>>>, fv: Seq<Seq<usize>>) -> bool {
    forall|v: int, k: int|
        0 <= v < vf.len() && 0 <= k < vf[v].len() ==> #[trigger] vf_entry_ok(vf, fv, v, k)
}

/// Vertex `k` of face `f` names a vertex whose face list holds `f`.
pub open spec fn fv_entry_ok(vf: Seq<Seq<Option<usize>>>, fv: Seq<Seq<usize>>, f: int, k: int) -> bool {
    fv[f][k] < vf.len() && vf[fv[f][k] as int].contains(Some(f as usize))
}

pub open spec fn fv_entries_ok(vf: Seq<Seq<Option<usize>>>, fv: Seq<Seq<usize>>) -> bool {
    forall|f: int, k: int|
        0 <= f < fv.len() && 0 <= k < fv[f].len() ==> #[trigger] fv_entry_ok(vf, fv, f, k)
}

pub open spec fn vertices_faces_reflexive_check(g: GraphView) -> Result<(), Error> {
    if g.vertices_faces.len() == 0 || g.faces_vertices.len() == 0 {
        Ok(())
    } else if fv_entries_ok(g.vertices_faces, g.faces_vertices) && vf_entries_ok(
        g.vertices_faces,
        g.faces_vertices,
    ) {
        Ok(())
    } else {
        Err(Error::ReflexiveMismatch(ReflexivePair::VFWithFV))
    }
}

/// Non-null entry `k` of edge `e`'s face list names a face whose edge list
/// holds `e`.
pub open spec fn ef_entry_ok(ef: Seq<Seq<Option<usize>>>, fe: Seq<Seq<usize>>, e: int, k: int) -> bool {
    match ef[e][k] {
        Some(f) => f < fe.len() && fe[f as int].contains(e as usize),
        None => true,
    }
}

pub open spec fn ef_entries_ok(ef: Seq<Seq<Option<usize>>>, fe: Seq<Seq<usize>>) -> bool {
    forall|e: int, k: int|
        0 <= e < ef.len() && 0 <= k < ef[e].len() ==> #[trigger] ef_entry_ok(ef, fe, e, k)
}

/// Edge `k` of face `f` names an edge whose face list holds `f`.
pub open spec fn fe_entry_ok(ef: Seq<Seq<Option<usize>>>, fe: Seq<Seq<usize>>, f: int, k: int) -> bool {
    fe[f][k] < ef.len() && ef[fe[f][k] as int].contains(Some(f as usize))
}

pub open spec fn fe_entries_ok(ef: Seq<Seq<Option<usize>>>, fe: Seq<Seq<usize>>) -> bool {
    forall|f: int, k: int|
        0 <= f < fe.len() && 0 <= k < fe[f].len() ==> #[trigger] fe_entry_ok(ef, fe, f, k)
}

pub open spec fn edges_faces_reflexive_check(g: GraphView) -> Result<(), Error> {
    if g.edges_faces.len() == 0 || g.faces_edges.len() == 0 {
        Ok(())
    } else if fe_entries_ok(g.edges_faces, g.faces_edges) && ef_entries_ok(
        g.edges_faces,
        g.faces_edges,
    ) {
        Ok(())
    } else {
        Err(Error::ReflexiveMismatch(ReflexivePair::EFWithFE))
    }
}

/// Non-null neighbor `k` of face `f` names a face that lists `f` back.
pub open spec fn ff_entry_ok(ff: Seq<Seq<Option<usize>>>, f: int, k: int) -> bool {
    match ff[f][k] {
        Some(n) => n < ff.len() && ff[n as int].contains(Some(f as usize)),
        None => true,
    }
}

/// The faces_faces array is symmetric over its non-null entries.
pub open spec fn ff_symmetric(ff: Seq<Seq<Option<usize>>>) -> bool {
    forall|f: int, k: int|
        0 <= f < ff.len() && 0 <= k < ff[f].len() ==> #[trigger] ff_entry_ok(ff, f, k)
}

pub open spec fn faces_faces_reflexive_check(g: GraphView) -> Result<(), Error> {
    if g.faces_faces.len() == 0 {
        Ok(())
    } else if ff_symmetric(g.faces_faces) {
        Ok(())
    } else {
        Err(Error::ReflexiveMismatch(ReflexivePair::FFWithFF))
    }
}

pub fn validate_vertices_vertices_with_vertices_vertices(graph: &Graph) -> (r: Result<(), Error>)
    ensures
        r == vertices_vertices_reflexive_check(graph@),
{
    let ghost vv = graph@.vertices_vertices;
    if graph.vertices_vertices.len() == 0 {
        return Ok(());
    }
    let mut v: usize = 0;
    while v < graph.vertices_vertices.len()
        invariant
            vv == graph@.vertices_vertices,
            v <= vv.len(),
            forall|v0: int, k0: int|
                0 <= v0 < v && 0 <= k0 < vv[v0].len() ==> #[trigger] vv_entry_ok(vv, v0, k0),
        decreases vv.len() - v,
    {
        let mut k: usize = 0;
        while k < graph.vertices_vertices[v].len()
            invariant
                vv == graph@.vertices_vertices,
                v < vv.len(),
                k <= vv[v as int].len(),
                forall|v0: int, k0: int|
                    0 <= v0 < v && 0 <= k0 < vv[v0].len() ==> #[trigger] vv_entry_ok(vv, v0, k0),
                forall|k0: int| 0 <= k0 < k ==> #[trigger] vv_entry_ok(vv, v as int, k0),
            decreases vv[v as int].len() - k,
        {
            let u = graph.vertices_vertices[v][k];
            if u >= graph.vertices_vertices.len() || !contains_usize(
                &graph.vertices_vertices[u],
                v,
            ) {
                proof {
                    assert(!vv_entry_ok(vv, v as int, k as int));
                    assert(!vv_symmetric(vv));
                }
                return Err(Error::ReflexiveMismatch(ReflexivePair::VVWithVV));
            }
            k += 1;
        }
        v += 1;
    }
    proof {
        assert(vv_symmetric(vv));
    }
    Ok(())
}

pub fn validate_vertices_edges_with_edges_vertices(graph: &Graph) -> (r: Result<(), Error>)
    ensures
        r == vertices_edges_reflexive_check(graph@),
{
    let ghost ve = graph@.vertices_edges;
    let ghost ev = graph@.edges_vertices;
    if graph.vertices_edges.len() == 0 || graph.edges_vertices.len() == 0 {
        return Ok(());
    }
    let mut e: usize = 0;
    while e < graph.edges_vertices.len()
        invariant
            ve == graph@.vertices_edges,
            ev == graph@.edges_vertices,
            ve.len() > 0 && ev.len() > 0,
            e <= ev.len(),
            forall|e0: int|
                0 <= e0 < e ==> edge_listed(ve, e0, (#[trigger] ev[e0]).0) && edge_listed(
                    ve,
                    e0,
                    ev[e0].1,
                ),
        decreases ev.len() - e,
    {
        let a = graph.edges_vertices[e].0;
        let b = graph.edges_vertices[e].1;
        if a >= graph.vertices_edges.len() || !contains_usize(&graph.vertices_edges[a], e) {
            proof {
                assert(!edge_listed(ve, e as int, ev[e as int].0));
                assert(!ev_listed_back(ve, ev));
            }
            return Err(Error::ReflexiveMismatch(ReflexivePair::VEWithEV));
        }
        if b >= graph.vertices_edges.len() || !contains_usize(&graph.vertices_edges[b], e) {
            proof {
                assert(!edge_listed(ve, e as int, ev[e as int].1));
                assert(!ev_listed_back(ve, ev));
            }
            return Err(Error::ReflexiveMismatch(ReflexivePair::VEWithEV));
        }
        e += 1;
    }
    let mut v: usize = 0;
    while v < graph.vertices_edges.len()
        invariant
            ve == graph@.vertices_edges,
            ev == graph@.edges_vertices,
            ve.len() > 0 && ev.len() > 0,
            ev_listed_back(ve, ev),
            v <= ve.len(),
            forall|v0: int, k0: int|
                0 <= v0 < v && 0 <= k0 < ve[v0].len() ==> #[trigger] ve_entry_ok(ve, ev, v0, k0),
        decreases ve.len() - v,
    {
        let mut k: usize = 0;
        while k < graph.vertices_edges[v].len()
            invariant
                ve == graph@.vertices_edges,
                ev == graph@.edges_vertices,
                ve.len() > 0 && ev.len() > 0,
                ev_listed_back(ve, ev),
                v < ve.len(),
                k <= ve[v as int].len(),
                forall|v0: int, k0: int|
                    0 <= v0 < v && 0 <= k0 < ve[v0].len() ==> #[trigger] ve_entry_ok(
                        ve,
                        ev,
                        v0,
                        k0,
                    ),
                forall|k0: int| 0 <= k0 < k ==> #[trigger] ve_entry_ok(ve, ev, v as int, k0),
            decreases ve[v as int].len() - k,
        {
            let u = graph.vertices_edges[v][k];
            if u >= graph.edges_vertices.len() || !graph.edges_vertices[u].has_vertex(v) {
                proof {
                    assert(!ve_entry_ok(ve, ev, v as int, k as int));
                    assert(!ve_entries_ok(ve, ev));
                }
                return Err(Error::ReflexiveMismatch(ReflexivePair::VEWithEV));
            }
            k += 1;
        }
        v += 1;
    }
    proof {
        assert(ve_entries_ok(ve, ev));
    }
    Ok(())
}

pub fn validate_vertices_faces_with_faces_vertices(graph: &Graph) -> (r: Result<(), Error>)
    ensures
        r == vertices_faces_reflexive_check(graph@),
{
    let ghost vf = graph@.vertices_faces;
    let ghost fv = graph@.faces_vertices;
    if graph.vertices_faces.len() == 0 || graph.faces_vertices.len() == 0 {
        return Ok(());
    }
    let mut f: usize = 0;
    while f < graph.faces_vertices.len()
        invariant
            vf == graph@.vertices_faces,
            fv == graph@.faces_vertices,
            vf.len() > 0 && fv.len() > 0,
            f <= fv.len(),
            forall|f0: int, k0: int|
                0 <= f0 < f && 0 <= k0 < fv[f0].len() ==> #[trigger] fv_entry_ok(vf, fv, f0, k0),
        decreases fv.len() - f,
    {
        let mut k: usize = 0;
        while k < graph.faces_vertices[f].len()
            invariant
                vf == graph@.vertices_faces,
                fv == graph@.faces_vertices,
                vf.len() > 0 && fv.len() > 0,
                f < fv.len(),
                k <= fv[f as int].len(),
                forall|f0: int, k0: int|
                    0 <= f0 < f && 0 <= k0 < fv[f0].len() ==> #[trigger] fv_entry_ok(
                        vf,
                        fv,
                        f0,
                        k0,
                    ),
                forall|k0: int| 0 <= k0 < k ==> #[trigger] fv_entry_ok(vf, fv, f as int, k0),
            decreases fv[f as int].len() - k,
        {
            let u = graph.faces_vertices[f][k];
            if u >= graph.vertices_faces.len() || !contains_some(&graph.vertices_faces[u], f) {
                proof {
                    assert(!fv_entry_ok(vf, fv, f as int, k as int));
                    assert(!fv_entries_ok(vf, fv));
                }
                return Err(Error::ReflexiveMismatch(ReflexivePair::VFWithFV));
            }
            k += 1;
        }
        f += 1;
    }
    let mut v: usize = 0;
    while v < graph.vertices_faces.len()
        invariant
            vf == graph@.vertices_faces,
            fv == graph@.faces_vertices,
            vf.len() > 0 && fv.len() > 0,
            fv_entries_ok(vf, fv),
            v <= vf.len(),
            forall|v0: int, k0: int|
                0 <= v0 < v && 0 <= k0 < vf[v0].len() ==> #[trigger] vf_entry_ok(vf, fv, v0, k0),
        decreases vf.len() - v,
    {
        let mut k: usize = 0;
        while k < graph.vertices_faces[v].len()
            invariant
                vf == graph@.vertices_faces,
                fv == graph@.faces_vertices,
                vf.len() > 0 && fv.len() > 0,
                fv_entries_ok(vf, fv),
                v < vf.len(),
                k <= vf[v as int].len(),
                forall|v0: int, k0: int|
                    0 <= v0 < v && 0 <= k0 < vf[v0].len() ==> #[trigger] vf_entry_ok(
                        vf,
                        fv,
                        v0,
                        k0,
                    ),
                forall|k0: int| 0 <= k0 < k ==> #[trigger] vf_entry_ok(vf, fv, v as int, k0),
            decreases vf[v as int].len() - k,
        {
            match graph.vertices_faces[v][k] {
                Some(u) => {
                    if u >= graph.faces_vertices.len() || !contains_usize(
                        &graph.faces_vertices[u],
                        v,
                    ) {
                        proof {
                            assert(!vf_entry_ok(vf, fv, v as int, k as int));
                            assert(!vf_entries_ok(vf, fv));
                        }
                        return Err(Error::ReflexiveMismatch(ReflexivePair::VFWithFV));
                    }
                },
                None => {},
            }
            k += 1;
        }
        v += 1;
    }
    proof {
        assert(vf_entries_ok(vf, fv));
    }
    Ok(())
}

pub fn validate_edges_faces_with_faces_edges(graph: &Graph) -> (r: Result<(), Error>)
    ensures
        r == edges_faces_reflexive_check(graph@),
{
    let ghost ef = graph@.edges_faces;
    let ghost fe = graph@.faces_edges;
    if graph.edges_faces.len() == 0 || graph.faces_edges.len() == 0 {
        return Ok(());
    }
    let mut f: usize = 0;
    while f < graph.faces_edges.len()
        invariant
            ef == graph@.edges_faces,
            fe == graph@.faces_edges,
            ef.len() > 0 && fe.len() > 0,
            f <= fe.len(),
            forall|f0: int, k0: int|
                0 <= f0 < f && 0 <= k0 < fe[f0].len() ==> #[trigger] fe_entry_ok(ef, fe, f0, k0),
        decreases fe.len() - f,
    {
        let mut k: usize = 0;
        while k < graph.faces_edges[f].len()
            invariant
                ef == graph@.edges_faces,
                fe == graph@.faces_edges,
                ef.len() > 0 && fe.len() > 0,
                f < fe.len(),
                k <= fe[f as int].len(),
                forall|f0: int, k0: int|
                    0 <= f0 < f && 0 <= k0 < fe[f0].len() ==> #[trigger] fe_entry_ok(
                        ef,
                        fe,
                        f0,
                        k0,
                    ),
                forall|k0: int| 0 <= k0 < k ==> #[trigger] fe_entry_ok(ef, fe, f as int, k0),
            decreases fe[f as int].len() - k,
        {
            let u = graph.faces_edges[f][k];
            if u >= graph.edges_faces.len() || !contains_some(&graph.edges_faces[u], f) {
                proof {
                    assert(!fe_entry_ok(ef, fe, f as int, k as int));
                    assert(!fe_entries_ok(ef, fe));
                }
                return Err(Error::ReflexiveMismatch(ReflexivePair::EFWithFE));
            }
            k += 1;
        }
        f += 1;
    }
    let mut e: usize = 0;
    while e < graph.edges_faces.len()
        invariant
            ef == graph@.edges_faces,
            fe == graph@.faces_edges,
            ef.len() > 0 && fe.len() > 0,
            fe_entries_ok(ef, fe),
            e <= ef.len(),
            forall|e0: int, k0: int|
                0 <= e0 < e && 0 <= k0 < ef[e0].len() ==> #[trigger] ef_entry_ok(ef, fe, e0, k0),
        decreases ef.len() - e,
    {
        let mut k: usize = 0;
        while k < graph.edges_faces[e].len()
            invariant
                ef == graph@.edges_faces,
                fe == graph@.faces_edges,
                ef.len() > 0 && fe.len() > 0,
                fe_entries_ok(ef, fe),
                e < ef.len(),
                k <= ef[e as int].len(),
                forall|e0: int, k0: int|
                    0 <= e0 < e && 0 <= k0 < ef[e0].len() ==> #[trigger] ef_entry_ok(
                        ef,
                        fe,
                        e0,
                        k0,
                    ),
                forall|k0: int| 0 <= k0 < k ==> #[trigger] ef_entry_ok(ef, fe, e as int, k0),
            decreases ef[e as int].len() - k,
        {
            match graph.edges_faces[e][k] {
                Some(u) => {
                    if u >= graph.faces_edges.len() || !contains_usize(&graph.faces_edges[u], e) {
                        proof {
                            assert(!ef_entry_ok(ef, fe, e as int, k as int));
                            assert(!ef_entries_ok(ef, fe));
                        }
                        return Err(Error::ReflexiveMismatch(ReflexivePair::EFWithFE));
                    }
                },
                None => {},
            }
            k += 1;
        }
        e += 1;
    }
    proof {
        assert(ef_entries_ok(ef, fe));
    }
    Ok(())
}

pub fn validate_faces_faces_with_faces_faces(graph: &Graph) -> (r: Result<(), Error>)
    ensures
        r == faces_faces_reflexive_check(graph@),
{
    let ghost ff = graph@.faces_faces;
    if graph.faces_faces.len() == 0 {
        return Ok(());
    }
    let mut f: usize = 0;
    while f < graph.faces_faces.len()
        invariant
            ff == graph@.faces_faces,
            f <= ff.len(),
            forall|f0: int, k0: int|
                0 <= f0 < f && 0 <= k0 < ff[f0].len() ==> #[trigger] ff_entry_ok(ff, f0, k0),
        decreases ff.len() - f,
    {
        let mut k: usize = 0;
        while k < graph.faces_faces[f].len()
            invariant
                ff == graph@.faces_faces,
                f < ff.len(),
                k <= ff[f as int].len(),
                forall|f0: int, k0: int|
                    0 <= f0 < f && 0 <= k0 < ff[f0].len() ==> #[trigger] ff_entry_ok(ff, f0, k0),
                forall|k0: int| 0 <= k0 < k ==> #[trigger] ff_entry_ok(ff, f as int, k0),
            decreases ff[f as int].len() - k,
        {
            match graph.faces_faces[f][k] {
                Some(u) => {
                    if u >= graph.faces_faces.len() || !contains_some(&graph.faces_faces[u], f) {
                        proof {
                            assert(!ff_entry_ok(ff, f as int, k as int));
                            assert(!ff_symmetric(ff));
                        }
                        return Err(Error::ReflexiveMismatch(ReflexivePair::FFWithFF));
                    }
                },
                None => {},
            }
            k += 1;
        }
        f += 1;
    }
    proof {
        assert(ff_symmetric(ff));
    }
    Ok(())
}

} // verus!
