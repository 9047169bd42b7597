use vstd::prelude::*;

use crate::error::Error;
use crate::error::WindingPair;
use crate::graph::Graph;
use crate::graph::GraphView;

verus! {

broadcast use vstd::seq::group_seq_axioms;

/// The position after `i` in a cyclic list of length `d`.
pub open spec fn next_in_cycle(i: int, d: int) -> int {
    if i + 1 == d {
        0
    } else {
        i + 1
    }
}

/// The cyclic list `row` steps between `a` and `b`, in either direction, at
/// position `i`.
pub open spec fn cyclic_pair_at(row: Seq<usize>, i: int, a: usize, b: usize) -> bool {
    let j = next_in_cycle(i, row.len() as int);
    (row[i] == a && row[j] == b) || (row[i] == b && row[j] == a)
}

/// Somewhere along the cyclic list `row`, `a` and `b` are adjacent.
pub open spec fn has_cyclic_pair(row: Seq<usize>, a: usize, b: usize) -> bool {
    exists|i: int| 0 <= i < row.len() && cyclic_pair_at(row, i, a, b)
}

/// Whether `a` and `b` are adjacent somewhere along the cyclic list `row`,
/// by a scan.
fn find_cyclic_pair(row: &Vec<usize>, a: usize, b: usize) -> (r: bool)
    ensures
        r == has_cyclic_pair(row@, a, b),
{
    let mut i: usize = 0;
    while i < row.len()
        invariant
            i <= row@.len(),
            forall|i0: int| 0 <= i0 < i ==> !cyclic_pair_at(row@, i0, a, b),
        decreases row@.len() - i,
    {
        let j = if i + 1 == row.len() {
            0
        } else {
            i + 1
        };
        let x = row[i];
        let y = row[j];
        if (x == a && y == b) || (x == b && y == a) {
            proof {
                assert(cyclic_pair_at(row@, i as int, a, b));
            }
            return true;
        }
        i += 1;
    }
    false
}

/// Position `k` around vertex `v`: the incident edge there joins `v` to the
/// neighbor vertex listed at the same position.
pub open spec fn vvve_entry_ok(g: GraphView, v: int, k: int) -> bool {
    v < g.vertices_edges.len() && k < g.vertices_edges[v].len() && g.vertices_edges[v][k]
        < g.edges_vertices.len() && g.edges_vertices[g.vertices_edges[v][k] as int].links(
        v as usize,
        g.vertices_vertices[v][k],
    )
}

pub open spec fn vvve_ok(g: GraphView) -> bool {
    forall|v: int, k: int|
        0 <= v < g.vertices_vertices.len() && 0 <= k < g.vertices_vertices[v].len()
            ==> #[trigger] vvve_entry_ok(g, v, k)
}

pub open spec fn vvve_winding_check(g: GraphView) -> Result<(), Error> {
    if g.vertices_vertices.len() == 0 || g.vertices_edges.len() == 0 || g.edges_vertices.len()
        == 0 {
        Ok(())
    } else if vvve_ok(g) {
        Ok(())
    } else {
        Err(Error::WindingMismatch(WindingPair::VVVE))
    }
}

/// Position `k` around vertex `v`: the face there (when known) has the
/// boundary edge between the neighbor vertices at positions `k` and `k + 1`.
pub open spec fn vvvf_entry_ok(g: GraphView, v: int, k: int) -> bool {
    let vv = g.vertices_vertices;
    let d = vv[v].len() as int;
    v < g.vertices_faces.len() && k < g.vertices_faces[v].len() && match g.vertices_faces[v][k] {
        Some(f) => f < g.faces_vertices.len() && has_cyclic_pair(
            g.faces_vertices[f as int],
            vv[v][k],
            vv[v][next_in_cycle(k, d)],
        ),
        None => true,
    }
}

pub open spec fn vvvf_ok(g: GraphView) -> bool {
    forall|v: int, k: int|
        0 <= v < g.vertices_vertices.len() && 0 <= k < g.vertices_vertices[v].len()
            ==> #[trigger] vvvf_entry_ok(g, v, k)
}

pub open spec fn vvvf_winding_check(g: GraphView) -> Result<(), Error> {
    if g.vertices_vertices.len() == 0 || g.vertices_faces.len() == 0 || g.faces_vertices.len()
        == 0 {
        Ok(())
    } else if vvvf_ok(g) {
        Ok(())
    } else {
        Err(Error::WindingMismatch(WindingPair::VVVF))
    }
}

/// Position `k` around vertex `v`: the face there (when known) has the
/// incident edges at positions `k` and `k + 1` adjacent on its boundary.
pub open spec fn vevf_entry_ok(g: GraphView, v: int, k: int) -> bool {
    let ve = g.vertices_edges;
    let d = ve[v].len() as int;
    v < g.vertices_faces.len() && k < g.vertices_faces[v].len() && match g.vertices_faces[v][k] {
        Some(f) => f < g.faces_edges.len() && has_cyclic_pair(
            g.faces_edges[f as int],
            ve[v][k],
            ve[v][next_in_cycle(k, d)],
        ),
        None => true,
    }
}

pub open spec fn vevf_ok(g: GraphView) -> bool {
    forall|v: int, k: int|
        0 <= v < g.vertices_edges.len() && 0 <= k < g.vertices_edges[v].len()
            ==> #[trigger] vevf_entry_ok(g, v, k)
}

pub open spec fn vevf_winding_check(g: GraphView) -> Result<(), Error> {
    if g.vertices_edges.len() == 0 || g.vertices_faces.len() == 0 || g.faces_edges.len() == 0 {
        Ok(())
    } else if vevf_ok(g) {
        Ok(())
    } else {
        Err(Error::WindingMismatch(WindingPair::VEVF))
    }
}

/// Position `k` around face `f`: the boundary edge there joins the face's
/// vertices at positions `k` and `k + 1`.
pub open spec fn fvfe_entry_ok(g: GraphView, f: int, k: int) -> bool {
    let fv = g.faces_vertices;
    let d = fv[f].len() as int;
    f < g.faces_edges.len() && k < g.faces_edges[f].len() && g.faces_edges[f][k]
        < g.edges_vertices.len() && g.edges_vertices[g.faces_edges[f][k] as int].links(
        fv[f][k],
        fv[f][next_in_cycle(k, d)],
    )
}

pub open spec fn fvfe_ok(g: GraphView) -> bool {
    forall|f: int, k: int|
        0 <= f < g.faces_vertices.len() && 0 <= k < g.faces_vertices[f].len()
            ==> #[trigger] fvfe_entry_ok(g, f, k)
}

pub open spec fn fvfe_winding_check(g: GraphView) -> Result<(), Error> {
    if g.faces_vertices.len() == 0 || g.faces_edges.len() == 0 || g.edges_vertices.len() == 0 {
        Ok(())
    } else if fvfe_ok(g) {
        Ok(())
    } else {
        Err(Error::WindingMismatch(WindingPair::FVFE))
    }
}

/// Position `k` around face `f`: the neighbor face there (when known) shares
/// the boundary edge between the face's vertices at positions `k` and `k + 1`.
pub open spec fn fvff_entry_ok(g: GraphView, f: int, k: int) -> bool {
    let fv = g.faces_vertices;
    let d = fv[f].len() as int;
    f < g.faces_faces.len() && k < g.faces_faces[f].len() && match g.faces_faces[f][k] {
        Some(n) => n < fv.len() && has_cyclic_pair(
            fv[n as int],
            fv[f][k],
            fv[f][next_in_cycle(k, d)],
        ),
        None => true,
    }
}

pub open spec fn fvff_ok(g: GraphView) -> bool {
    forall|f: int, k: int|
        0 <= f < g.faces_vertices.len() && 0 <= k < g.faces_vertices[f].len()
            ==> #[trigger] fvff_entry_ok(g, f, k)
}

pub open spec fn fvff_winding_check(g: GraphView) -> Result<(), Error> {
    if g.faces_vertices.len() == 0 || g.faces_faces.len() == 0 {
        Ok(())
    } else if fvff_ok(g) {
        Ok(())
    } else {
        Err(Error::WindingMismatch(WindingPair::FVFF))
    }
}

/// Position `k` around face `f`: the neighbor face there (when known) is one
/// of the faces incident to the boundary edge at the same position.
pub open spec fn feff_entry_ok(g: GraphView, f: int, k: int) -> bool {
    let fe = g.faces_edges;
    f < g.faces_faces.len() && k < g.faces_faces[f].len() && match g.faces_faces[f][k] {
        Some(n) => fe[f][k] < g.edges_faces.len() && g.edges_faces[fe[f][k] as int].contains(
            Some(n),
        ),
        None => true,
    }
}

pub open spec fn feff_ok(g: GraphView) -> bool {
    forall|f: int, k: int|
        0 <= f < g.faces_edges.len() && 0 <= k < g.faces_edges[f].len()
            ==> #[trigger] feff_entry_ok(g, f, k)
}

pub open spec fn feff_winding_check(g: GraphView) -> Result<(), Error> {
    if g.faces_edges.len() == 0 || g.faces_faces.len() == 0 || g.edges_faces.len() == 0 {
        Ok(())
    } else if feff_ok(g) {
        Ok(())
    } else {
        Err(Error::WindingMismatch(WindingPair::FEFF))
    }
}

pub fn validate_vertices_vertices_and_vertices_edges_winding(graph: &Graph) -> (r: Result<
    (),
    Error,
>)
    ensures
        r == vvve_winding_check(graph@),
{
    if graph.vertices_vertices.len() == 0 || graph.vertices_edges.len() == 0
        || graph.edges_vertices.len() == 0 {
        return Ok(());
    }
    let ghost g = graph@;
    let mut v: usize = 0;
    while v < graph.vertices_vertices.len()
        invariant
            g == graph@,
            g.vertices_vertices.len() > 0 && g.vertices_edges.len() > 0 && g.edges_vertices.len()
                > 0,
            v <= g.vertices_vertices.len(),
            forall|v0: int, k0: int|
                0 <= v0 < v && 0 <= k0 < g.vertices_vertices[v0].len() ==> #[trigger] vvve_entry_ok(
                    g,
                    v0,
                    k0,
                ),
        decreases g.vertices_vertices.len() - v,
    {
        let mut k: usize = 0;
        while k < graph.vertices_vertices[v].len()
            invariant
                g == graph@,
                g.vertices_vertices.len() > 0 && g.vertices_edges.len() > 0
                    && g.edges_vertices.len() > 0,
                v < g.vertices_vertices.len(),
                k <= g.vertices_vertices[v as int].len(),
                forall|v0: int, k0: int|
                    0 <= v0 < v && 0 <= k0 < g.vertices_vertices[v0].len()
                        ==> #[trigger] vvve_entry_ok(g, v0, k0),
                forall|k0: int| 0 <= k0 < k ==> #[trigger] vvve_entry_ok(g, v as int, k0),
            decreases g.vertices_vertices[v as int].len() - k,
        {
            let mut ok = false;
            if v < graph.vertices_edges.len() && k < graph.vertices_edges[v].len() {
                let e = graph.vertices_edges[v][k];
                if e < graph.edges_vertices.len() {
                    let u = graph.vertices_vertices[v][k];
                    ok = graph.edges_vertices[e].is_pair(v, u);
                }
            }
            if !ok {
                proof {
                    assert(!vvve_entry_ok(g, v as int, k as int));
                    assert(!vvve_ok(g));
                }
                return Err(Error::WindingMismatch(WindingPair::VVVE));
            }
            k += 1;
        }
        v += 1;
    }
    proof {
        assert(vvve_ok(g));
    }
    Ok(())
}

pub fn validate_vertices_vertices_and_vertices_faces_winding(graph: &Graph) -> (r: Result<
    (),
    Error,
>)
    ensures
        r == vvvf_winding_check(graph@),
{
    if graph.vertices_vertices.len() == 0 || graph.vertices_faces.len() == 0
        || graph.faces_vertices.len() == 0 {
        return Ok(());
    }
    let ghost g = graph@;
    let mut v: usize = 0;
    while v < graph.vertices_vertices.len()
        invariant
            g == graph@,
            g.vertices_vertices.len() > 0 && g.vertices_faces.len() > 0 && g.faces_vertices.len()
                > 0,
            v <= g.vertices_vertices.len(),
            forall|v0: int, k0: int|
                0 <= v0 < v && 0 <= k0 < g.vertices_vertices[v0].len() ==> #[trigger] vvvf_entry_ok(
                    g,
                    v0,
                    k0,
                ),
        decreases g.vertices_vertices.len() - v,
    {
        let d = graph.vertices_vertices[v].len();
        let mut k: usize = 0;
        while k < d
            invariant
                g == graph@,
                g.vertices_vertices.len() > 0 && g.vertices_faces.len() > 0
                    && g.faces_vertices.len() > 0,
                v < g.vertices_vertices.len(),
                d == g.vertices_vertices[v as int].len(),
                k <= d,
                forall|v0: int, k0: int|
                    0 <= v0 < v && 0 <= k0 < g.vertices_vertices[v0].len()
                        ==> #[trigger] vvvf_entry_ok(g, v0, k0),
                forall|k0: int| 0 <= k0 < k ==> #[trigger] vvvf_entry_ok(g, v as int, k0),
            decreases d - k,
        {
            let mut ok = false;
            if v < graph.vertices_faces.len() && k < graph.vertices_faces[v].len() {
                match graph.vertices_faces[v][k] {
                    Some(f) => {
                        if f < graph.faces_vertices.len() {
                            let nk = if k + 1 == d {
                                0
                            } else {
                                k + 1
                            };
                            let a = graph.vertices_vertices[v][k];
                            let b = graph.vertices_vertices[v][nk];
                            ok = find_cyclic_pair(&graph.faces_vertices[f], a, b);
                        }
                    },
                    None => {
                        ok = true;
                    },
                }
            }
            if !ok {
                proof {
                    assert(!vvvf_entry_ok(g, v as int, k as int));
                    assert(!vvvf_ok(g));
                }
                return Err(Error::WindingMismatch(WindingPair::VVVF));
            }
            k += 1;
        }
        v += 1;
    }
    proof {
        assert(vvvf_ok(g));
    }
    Ok(())
}

pub fn validate_vertices_edges_and_vertices_faces_winding(graph: &Graph) -> (r: Result<(), Error>)
    ensures
        r == vevf_winding_check(graph@),
{
    if graph.vertices_edges.len() == 0 || graph.vertices_faces.len() == 0 || graph.faces_edges.len()
        == 0 {
        return Ok(());
    }
    let ghost g = graph@;
    let mut v: usize = 0;
    while v < graph.vertices_edges.len()
        invariant
            g == graph@,
            g.vertices_edges.len() > 0 && g.vertices_faces.len() > 0 && g.faces_edges.len() > 0,
            v <= g.vertices_edges.len(),
            forall|v0: int, k0: int|
                0 <= v0 < v && 0 <= k0 < g.vertices_edges[v0].len() ==> #[trigger] vevf_entry_ok(
                    g,
                    v0,
                    k0,
                ),
        decreases g.vertices_edges.len() - v,
    {
        let d = graph.vertices_edges[v].len();
        let mut k: usize = 0;
        while k < d
            invariant
                g == graph@,
                g.vertices_edges.len() > 0 && g.vertices_faces.len() > 0 && g.faces_edges.len()
                    > 0,
                v < g.vertices_edges.len(),
                d == g.vertices_edges[v as int].len(),
                k <= d,
                forall|v0: int, k0: int|
                    0 <= v0 < v && 0 <= k0 < g.vertices_edges[v0].len() ==> #[trigger] vevf_entry_ok(
                        g,
                        v0,
                        k0,
                    ),
                forall|k0: int| 0 <= k0 < k ==> #[trigger] vevf_entry_ok(g, v as int, k0),
            decreases d - k,
        {
            let mut ok = false;
            if v < graph.vertices_faces.len() && k < graph.vertices_faces[v].len() {
                match graph.vertices_faces[v][k] {
                    Some(f) => {
                        if f < graph.faces_edges.len() {
                            let nk = if k + 1 == d {
                                0
                            } else {
                                k + 1
                            };
                            let a = graph.vertices_edges[v][k];
                            let b = graph.vertices_edges[v][nk];
                            ok = find_cyclic_pair(&graph.faces_edges[f], a, b);
                        }
                    },
                    None => {
                        ok = true;
                    },
                }
            }
            if !ok {
                proof {
                    assert(!vevf_entry_ok(g, v as int, k as int));
                    assert(!vevf_ok(g));
                }
                return Err(Error::WindingMismatch(WindingPair::VEVF));
            }
            k += 1;
        }
        v += 1;
    }
    proof {
        assert(vevf_ok(g));
    }
    Ok(())
}

pub fn validate_faces_vertices_and_faces_edges_winding(graph: &Graph) -> (r: Result<(), Error>)
    ensures
        r == fvfe_winding_check(graph@),
{
    if graph.faces_vertices.len() == 0 || graph.faces_edges.len() == 0 || graph.edges_vertices.len()
        == 0 {
        return Ok(());
    }
    let ghost g = graph@;
    let mut f: usize = 0;
    while f < graph.faces_vertices.len()
        invariant
            g == graph@,
            g.faces_vertices.len() > 0 && g.faces_edges.len() > 0 && g.edges_vertices.len() > 0,
            f <= g.faces_vertices.len(),
            forall|f0: int, k0: int|
                0 <= f0 < f && 0 <= k0 < g.faces_vertices[f0].len() ==> #[trigger] fvfe_entry_ok(
                    g,
                    f0,
                    k0,
                ),
        decreases g.faces_vertices.len() - f,
    {
        let d = graph.faces_vertices[f].len();
        let mut k: usize = 0;
        while k < d
            invariant
                g == graph@,
                g.faces_vertices.len() > 0 && g.faces_edges.len() > 0 && g.edges_vertices.len()
                    > 0,
                f < g.faces_vertices.len(),
                d == g.faces_vertices[f as int].len(),
                k <= d,
                forall|f0: int, k0: int|
                    0 <= f0 < f && 0 <= k0 < g.faces_vertices[f0].len() ==> #[trigger] fvfe_entry_ok(
                        g,
                        f0,
                        k0,
                    ),
                forall|k0: int| 0 <= k0 < k ==> #[trigger] fvfe_entry_ok(g, f as int, k0),
            decreases d - k,
        {
            let mut ok = false;
            if f < graph.faces_edges.len() && k < graph.faces_edges[f].len() {
                let e = graph.faces_edges[f][k];
                if e < graph.edges_vertices.len() {
                    let nk = if k + 1 == d {
                        0
                    } else {
                        k + 1
                    };
                    let a = graph.faces_vertices[f][k];
                    let b = graph.faces_vertices[f][nk];
                    ok = graph.edges_vertices[e].is_pair(a, b);
                }
            }
            if !ok {
                proof {
                    assert(!fvfe_entry_ok(g, f as int, k as int));
                    assert(!fvfe_ok(g));
                }
                return Err(Error::WindingMismatch(WindingPair::FVFE));
            }
            k += 1;
        }
        f += 1;
    }
    proof {
        assert(fvfe_ok(g));
    }
    Ok(())
}

pub fn validate_faces_vertices_and_faces_faces_winding(graph: &Graph) -> (r: Result<(), Error>)
    ensures
        r == fvff_winding_check(graph@),
{
    if graph.faces_vertices.len() == 0 || graph.faces_faces.len() == 0 {
        return Ok(());
    }
    let ghost g = graph@;
    let mut f: usize = 0;
    while f < graph.faces_vertices.len()
        invariant
            g == graph@,
            g.faces_vertices.len() > 0 && g.faces_faces.len() > 0,
            f <= g.faces_vertices.len(),
            forall|f0: int, k0: int|
                0 <= f0 < f && 0 <= k0 < g.faces_vertices[f0].len() ==> #[trigger] fvff_entry_ok(
                    g,
                    f0,
                    k0,
                ),
        decreases g.faces_vertices.len() - f,
    {
        let d = graph.faces_vertices[f].len();
        let mut k: usize = 0;
        while k < d
            invariant
                g == graph@,
                g.faces_vertices.len() > 0 && g.faces_faces.len() > 0,
                f < g.faces_vertices.len(),
                d == g.faces_vertices[f as int].len(),
                k <= d,
                forall|f0: int, k0: int|
                    0 <= f0 < f && 0 <= k0 < g.faces_vertices[f0].len() ==> #[trigger] fvff_entry_ok(
                        g,
                        f0,
                        k0,
                    ),
                forall|k0: int| 0 <= k0 < k ==> #[trigger] fvff_entry_ok(g, f as int, k0),
            decreases d - k,
        {
            let mut ok = false;
            if f < graph.faces_faces.len() && k < graph.faces_faces[f].len() {
                match graph.faces_faces[f][k] {
                    Some(n) => {
                        if n < graph.faces_vertices.len() {
                            let nk = if k + 1 == d {
                                0
                            } else {
                                k + 1
                            };
                            let a = graph.faces_vertices[f][k];
                            let b = graph.faces_vertices[f][nk];
                            ok = find_cyclic_pair(&graph.faces_vertices[n], a, b);
                        }
                    },
                    None => {
                        ok = true;
                    },
                }
            }
            if !ok {
                proof {
                    assert(!fvff_entry_ok(g, f as int, k as int));
                    assert(!fvff_ok(g));
                }
                return Err(Error::WindingMismatch(WindingPair::FVFF));
            }
            k += 1;
        }
        f += 1;
    }
    proof {
        assert(fvff_ok(g));
    }
    Ok(())
}

pub fn validate_faces_edges_and_faces_faces_winding(graph: &Graph) -> (r: Result<(), Error>)
    ensures
        r == feff_winding_check(graph@),
{
    if graph.faces_edges.len() == 0 || graph.faces_faces.len() == 0 || graph.edges_faces.len()
        == 0 {
        return Ok(());
    }
    let ghost g = graph@;
    let mut f: usize = 0;
    while f < graph.faces_edges.len()
        invariant
            g == graph@,
            g.faces_edges.len() > 0 && g.faces_faces.len() > 0 && g.edges_faces.len() > 0,
            f <= g.faces_edges.len(),
            forall|f0: int, k0: int|
                0 <= f0 < f && 0 <= k0 < g.faces_edges[f0].len() ==> #[trigger] feff_entry_ok(
                    g,
                    f0,
                    k0,
                ),
        decreases g.faces_edges.len() - f,
    {
        let mut k: usize = 0;
        while k < graph.faces_edges[f].len()
            invariant
                g == graph@,
                g.faces_edges.len() > 0 && g.faces_faces.len() > 0 && g.edges_faces.len() > 0,
                f < g.faces_edges.len(),
                k <= g.faces_edges[f as int].len(),
                forall|f0: int, k0: int|
                    0 <= f0 < f && 0 <= k0 < g.faces_edges[f0].len() ==> #[trigger] feff_entry_ok(
                        g,
                        f0,
                        k0,
                    ),
                forall|k0: int| 0 <= k0 < k ==> #[trigger] feff_entry_ok(g, f as int, k0),
            decreases g.faces_edges[f as int].len() - k,
        {
            let mut ok = false;
            if f < graph.faces_faces.len() && k < graph.faces_faces[f].len() {
                match graph.faces_faces[f][k] {
                    Some(n) => {
                        let e = graph.faces_edges[f][k];
                        if e < graph.edges_faces.len() {
                            ok = crate::util::contains_some(&graph.edges_faces[e], n);
                        }
                    },
                    None => {
                        ok = true;
                    },
                }
            }
            if !ok {
                proof {
                    assert(!feff_entry_ok(g, f as int, k as int));
                    assert(!feff_ok(g));
                }
                return Err(Error::WindingMismatch(WindingPair::FEFF));
            }
            k += 1;
        }
        f += 1;
    }
    proof {
        assert(feff_ok(g));
    }
    Ok(())
}

} // verus!
