use vstd::prelude::*;

use crate::edge::Edge;
use crate::graph::Graph;
use crate::graph::GraphView;
use crate::util::rows_view;
use crate::validation::winding::next_in_cycle;

verus! {

broadcast use vstd::seq::group_seq_axioms;

/// The pairs of cyclically consecutive entries of one row, each tagged with
/// the row's index, from position `j` on.
pub open spec fn cyclical_pairs_of_row(row: Seq<usize>, owner: usize, j: int) -> Seq<
    (usize, usize, usize),
>
    decreases row.len() - j,
{
    if j < 0 || j >= row.len() {
        Seq::empty()
    } else {
        seq![(row[j], row[next_in_cycle(j, row.len() as int)], owner)] + cyclical_pairs_of_row(
            row,
            owner,
            j + 1,
        )
    }
}

/// Every row's cyclically consecutive pairs, row by row, from row `i` on.
pub open spec fn cyclical_pairs(rows: Seq<Seq<usize>>, i: int) -> Seq<(usize, usize, usize)>
    decreases rows.len() - i,
{
    if i < 0 || i >= rows.len() {
        Seq::empty()
    } else {
        cyclical_pairs_of_row(rows[i], i as usize, 0) + cyclical_pairs(rows, i + 1)
    }
}

/// The association of a pair with its owner: the latest entry for the pair
/// wins, as a hash-table insert would have it.
pub open spec fn pairs_lookup(m: Seq<(usize, usize, usize)>, a: usize, b: usize) -> Option<usize>
    decreases m.len(),
{
    if m.len() == 0 {
        None
    } else {
        let last = m[m.len() - 1];
        if last.0 == a && last.1 == b {
            Some(last.2)
        } else {
            pairs_lookup(m.drop_last(), a, b)
        }
    }
}

/// The list that maps each cyclically consecutive pair of each row to the
/// row it comes from.
pub fn make_cyclical_pairs_map(vec: &Vec<Vec<usize>>) -> (r: Vec<(usize, usize, usize)>)
    ensures
        r@ == cyclical_pairs(rows_view(vec@), 0),
{
    let ghost rows = rows_view(vec@);
    let mut r: Vec<(usize, usize, usize)> = Vec::new();
    let mut i: usize = 0;
    proof {
        assert(r@ + cyclical_pairs(rows, 0) =~= cyclical_pairs(rows, 0));
    }
    while i < vec.len()
        invariant
            rows == rows_view(vec@),
            i <= rows.len(),
            r@ + cyclical_pairs(rows, i as int) == cyclical_pairs(rows, 0),
        decreases rows.len() - i,
    {
        let d = vec[i].len();
        let mut j: usize = 0;
        let ghost r0 = r@;
        while j < d
            invariant
                rows == rows_view(vec@),
                i < rows.len(),
                d == rows[i as int].len(),
                j <= d,
                r0 + cyclical_pairs(rows, i as int) == cyclical_pairs(rows, 0),
                r0 + cyclical_pairs_of_row(rows[i as int], i, 0) == r@ + cyclical_pairs_of_row(
                    rows[i as int],
                    i,
                    j as int,
                ),
            decreases d - j,
        {
            let nj = if j + 1 == d {
                0
            } else {
                j + 1
            };
            let pair = (vec[i][j], vec[i][nj], i);
            r.push(pair);
            proof {
                let row = rows[i as int];
                assert(cyclical_pairs_of_row(row, i, j as int) == seq![(row[j as int], row[
                    next_in_cycle(j as int, row.len() as int)], i)] + cyclical_pairs_of_row(
                    row,
                    i,
                    j + 1,
                ));
                assert(r@ + cyclical_pairs_of_row(row, i, j + 1) =~= (r@.drop_last() + seq![pair])
                    + cyclical_pairs_of_row(row, i, j + 1));
                assert((r@.drop_last() + seq![pair]) + cyclical_pairs_of_row(row, i, j + 1) =~= r@
                    .drop_last() + (seq![pair] + cyclical_pairs_of_row(row, i, j + 1)));
            }
            j += 1;
        }
        proof {
            assert(cyclical_pairs(rows, i as int) == cyclical_pairs_of_row(rows[i as int], i, 0)
                + cyclical_pairs(rows, i + 1));
            assert(cyclical_pairs_of_row(rows[i as int], i, d as int) =~= Seq::<
                (usize, usize, usize),
            >::empty());
            assert(r@ + Seq::<(usize, usize, usize)>::empty() =~= r@);
            assert((r0 + cyclical_pairs_of_row(rows[i as int], i, 0)) + cyclical_pairs(rows, i + 1)
                =~= r0 + (cyclical_pairs_of_row(rows[i as int], i, 0) + cyclical_pairs(
                rows,
                i + 1,
            )));
        }
        i += 1;
    }
    proof {
        assert(cyclical_pairs(rows, rows.len() as int) =~= Seq::<(usize, usize, usize)>::empty());
        assert(r@ + Seq::<(usize, usize, usize)>::empty() =~= r@);
    }
    r
}

/// The owner of the pair `(a, b)` in the association list, the latest entry
/// winning, by a backwards scan.
pub fn lookup_pair(m: &Vec<(usize, usize, usize)>, a: usize, b: usize) -> (r: Option<usize>)
    ensures
        r == pairs_lookup(m@, a, b),
{
    let mut i: usize = m.len();
    proof {
        assert(m@.take(m@.len() as int) =~= m@);
    }
    while i > 0
        invariant
            i <= m@.len(),
            pairs_lookup(m@, a, b) == pairs_lookup(m@.take(i as int), a, b),
        decreases i,
    {
        i -= 1;
        proof {
            assert(m@.take(i + 1).len() == i + 1);
            assert(m@.take(i + 1)[i as int] == m@[i as int]);
            assert(m@.take(i + 1).drop_last() =~= m@.take(i as int));
        }
        if m[i].0 == a && m[i].1 == b {
            return Some(m[i].2);
        }
    }
    proof {
        assert(m@.take(0) =~= Seq::<(usize, usize, usize)>::empty());
    }
    None
}

/// The incident-edge lists read straight off the edge list, from edge `n`
/// backwards: each edge appears in the list of each of its endpoints, in
/// edge order, twice for a loop edge.
pub open spec fn incident_edges_upto(edges: Seq<Edge>, v: usize, n: int) -> Seq<usize>
    decreases n,
{
    if n <= 0 || n > edges.len() {
        Seq::empty()
    } else {
        let prefix = incident_edges_upto(edges, v, n - 1);
        let hits = (if edges[n - 1].0 == v {
            seq![(n - 1) as usize]
        } else {
            Seq::empty()
        }) + (if edges[n - 1].1 == v {
            seq![(n - 1) as usize]
        } else {
            Seq::empty()
        });
        prefix + hits
    }
}

/// The largest vertex index any edge among the first `n` touches.
pub open spec fn max_endpoint_upto(edges: Seq<Edge>, n: int) -> usize
    decreases n,
{
    if n <= 0 || n > edges.len() {
        0
    } else {
        let m = max_endpoint_upto(edges, n - 1);
        let e = edges[n - 1];
        let me = if e.0 >= e.1 {
            e.0
        } else {
            e.1
        };
        if me >= m {
            me
        } else {
            m
        }
    }
}

/// The incident-edge list of every vertex up to the largest endpoint named
/// by any edge, in edge order within each list; empty when there are no
/// edges.
pub fn make_vertices_edges_unsorted(edges_vertices: &Vec<Edge>) -> (r: Vec<Vec<usize>>)
    requires
        max_endpoint_upto(edges_vertices@, edges_vertices@.len() as int) < usize::MAX,
    ensures
        edges_vertices@.len() == 0 ==> r@.len() == 0,
        edges_vertices@.len() > 0 ==> r@.len() == max_endpoint_upto(
            edges_vertices@,
            edges_vertices@.len() as int,
        ) + 1,
        forall|v: int|
            0 <= v < r@.len() ==> r@[v]@ == incident_edges_upto(
                edges_vertices@,
                v as usize,
                edges_vertices@.len() as int,
            ),
{
    let ghost ev = edges_vertices@;
    if edges_vertices.len() == 0 {
        return Vec::new();
    }
    let mut max_vertex_index: usize = 0;
    let mut i: usize = 0;
    while i < edges_vertices.len()
        invariant
            ev == edges_vertices@,
            i <= ev.len(),
            max_vertex_index == max_endpoint_upto(ev, i as int),
        decreases ev.len() - i,
    {
        let e = edges_vertices[i];
        if e.0 > max_vertex_index {
            max_vertex_index = e.0;
        }
        if e.1 > max_vertex_index {
            max_vertex_index = e.1;
        }
        i += 1;
    }
    let size = max_vertex_index + 1;
    let mut r: Vec<Vec<usize>> = Vec::new();
    let mut v: usize = 0;
    while v < size
        invariant
            ev == edges_vertices@,
            ev.len() > 0,
            max_vertex_index == max_endpoint_upto(ev, ev.len() as int),
            size == max_vertex_index + 1,
            v <= size,
            r@.len() == v,
            forall|v0: int|
                0 <= v0 < v ==> r@[v0]@ == incident_edges_upto(ev, v0 as usize, ev.len() as int),
        decreases size - v,
    {
        let mut row: Vec<usize> = Vec::new();
        let mut e: usize = 0;
        while e < edges_vertices.len()
            invariant
                ev == edges_vertices@,
                e <= ev.len(),
                row@ == incident_edges_upto(ev, v, e as int),
            decreases ev.len() - e,
        {
            let ghost row0 = row@;
            if edges_vertices[e].0 == v {
                row.push(e);
            }
            if edges_vertices[e].1 == v {
                row.push(e);
            }
            proof {
                assert(row@ =~= incident_edges_upto(ev, v, e + 1));
            }
            e += 1;
        }
        r.push(row);
        v += 1;
    }
    r
}

/// Each edge read as a pair map entry in both orientations, tagged with the
/// edge's index, from edge `i` on.
pub open spec fn edge_pairs(edges: Seq<Edge>, i: int) -> Seq<(usize, usize, usize)>
    decreases edges.len() - i,
{
    if i < 0 || i >= edges.len() {
        Seq::empty()
    } else {
        seq![(edges[i].0, edges[i].1, i as usize), (edges[i].1, edges[i].0, i as usize)]
            + edge_pairs(edges, i + 1)
    }
}

/// The edge joining `v` to its neighbor at position `k`, read off the edge
/// pair map.
pub open spec fn ve_entry(
    m: Seq<(usize, usize, usize)>,
    vv: Seq<Seq<usize>>,
    v: int,
    k: int,
) -> Option<usize> {
    pairs_lookup(m, v as usize, vv[v][k])
}

/// Every neighbor relation names a pair that some edge realizes.
pub open spec fn all_pairs_found(m: Seq<(usize, usize, usize)>, vv: Seq<Seq<usize>>) -> bool {
    forall|v: int, k: int|
        0 <= v < vv.len() && 0 <= k < vv[v].len() ==> (#[trigger] ve_entry(m, vv, v, k)) is Some
}

/// The incident-edge list of each vertex, aligned position for position with
/// its neighbor list: entry `k` of vertex `v` is the edge joining `v` to
/// `vertices_vertices[v][k]`. When some neighbor pair matches no edge, the
/// whole result is empty.
pub fn make_vertices_edges(edges_vertices: &Vec<Edge>, vertices_vertices: &Vec<Vec<usize>>) -> (r:
    Vec<Vec<usize>>)
    ensures
        ({
            let m = edge_pairs(edges_vertices@, 0);
            let vv = rows_view(vertices_vertices@);
            if all_pairs_found(m, vv) {
                &&& r@.len() == vv.len()
                &&& forall|v: int| 0 <= v < vv.len() ==> r@[v]@.len() == vv[v].len()
                &&& forall|v: int, k: int|
                    0 <= v < vv.len() && 0 <= k < vv[v].len() ==> ve_entry(m, vv, v, k) == Some(
                        #[trigger] r@[v]@[k],
                    )
            } else {
                r@.len() == 0
            }
        }),
{
    let ghost vv = rows_view(vertices_vertices@);
    let ghost m = edge_pairs(edges_vertices@, 0);
    let mut pairs: Vec<(usize, usize, usize)> = Vec::new();
    let mut i: usize = 0;
    proof {
        assert(pairs@ + edge_pairs(edges_vertices@, 0) =~= edge_pairs(edges_vertices@, 0));
    }
    while i < edges_vertices.len()
        invariant
            m == edge_pairs(edges_vertices@, 0),
            i <= edges_vertices@.len(),
            pairs@ + edge_pairs(edges_vertices@, i as int) == m,
        decreases edges_vertices@.len() - i,
    {
        let e = edges_vertices[i];
        let ghost pairs0 = pairs@;
        pairs.push((e.0, e.1, i));
        pairs.push((e.1, e.0, i));
        proof {
            let two = seq![
                (edges_vertices@[i as int].0, edges_vertices@[i as int].1, i),
                (edges_vertices@[i as int].1, edges_vertices@[i as int].0, i),
            ];
            assert(pairs@ =~= pairs0 + two);
            assert((pairs0 + two) + edge_pairs(edges_vertices@, i + 1) =~= pairs0 + (two
                + edge_pairs(edges_vertices@, i + 1)));
        }
        i += 1;
    }
    proof {
        assert(edge_pairs(edges_vertices@, edges_vertices@.len() as int) =~= Seq::<
            (usize, usize, usize),
        >::empty());
        assert(pairs@ + Seq::<(usize, usize, usize)>::empty() =~= pairs@);
    }
    let mut r: Vec<Vec<usize>> = Vec::new();
    let mut v: usize = 0;
    while v < vertices_vertices.len()
        invariant
            vv == rows_view(vertices_vertices@),
            m == pairs@,
            m == edge_pairs(edges_vertices@, 0),
            v <= vv.len(),
            r@.len() == v,
            forall|v0: int, k0: int|
                0 <= v0 < v && 0 <= k0 < vv[v0].len() ==> (#[trigger] ve_entry(m, vv, v0, k0))
                    is Some,
            forall|v0: int| 0 <= v0 < v ==> r@[v0]@.len() == vv[v0].len(),
            forall|v0: int, k0: int|
                0 <= v0 < v && 0 <= k0 < vv[v0].len() ==> ve_entry(m, vv, v0, k0) == Some(
                    #[trigger] r@[v0]@[k0],
                ),
        decreases vv.len() - v,
    {
        let mut row: Vec<usize> = Vec::new();
        let mut k: usize = 0;
        while k < vertices_vertices[v].len()
            invariant
                vv == rows_view(vertices_vertices@),
                m == pairs@,
                m == edge_pairs(edges_vertices@, 0),
                v < vv.len(),
                k <= vv[v as int].len(),
                row@.len() == k,
                forall|k0: int|
                    0 <= k0 < k ==> (#[trigger] ve_entry(m, vv, v as int, k0)) is Some,
                forall|k0: int|
                    0 <= k0 < k ==> ve_entry(m, vv, v as int, k0) == Some(#[trigger] row@[k0]),
            decreases vv[v as int].len() - k,
        {
            let u = vertices_vertices[v][k];
            match lookup_pair(&pairs, v, u) {
                Some(e) => {
                    row.push(e);
                },
                None => {
                    proof {
                        assert(ve_entry(m, vv, v as int, k as int) is None);
                        assert(!all_pairs_found(m, vv));
                    }
                    return Vec::new();
                },
            }
            k += 1;
        }
        r.push(row);
        v += 1;
    }
    proof {
        assert(all_pairs_found(m, vv));
    }
    r
}

impl Graph {
    /// Fill this graph's vertices_edges straight off its edge list, in edge
    /// order within each vertex's list.
    pub fn make_vertices_edges_unsorted(&mut self)
        requires
            max_endpoint_upto(
                old(self)@.edges_vertices,
                old(self)@.edges_vertices.len() as int,
            ) < usize::MAX,
        ensures
            final(self)@ == (GraphView {
                vertices_edges: final(self)@.vertices_edges,
                ..old(self)@
            }),
            old(self)@.edges_vertices.len() == 0 ==> final(self)@.vertices_edges.len() == 0,
            old(self)@.edges_vertices.len() > 0 ==> final(self)@.vertices_edges.len()
                == max_endpoint_upto(
                old(self)@.edges_vertices,
                old(self)@.edges_vertices.len() as int,
            ) + 1,
            forall|v: int|
                0 <= v < final(self)@.vertices_edges.len() ==> final(self)@.vertices_edges[v]
                    == incident_edges_upto(
                    old(self)@.edges_vertices,
                    v as usize,
                    old(self)@.edges_vertices.len() as int,
                ),
    {
        self.vertices_edges = make_vertices_edges_unsorted(&self.edges_vertices);
        proof {
            assert(self@ =~~= (GraphView { vertices_edges: self@.vertices_edges, ..old(self)@ }));
        }
    }

    /// Fill this graph's vertices_edges so that it aligns position for
    /// position with its vertices_vertices; empty when some neighbor pair
    /// matches no edge.
    pub fn make_vertices_edges(&mut self)
        ensures
            final(self)@ == (GraphView {
                vertices_edges: final(self)@.vertices_edges,
                ..old(self)@
            }),
            ({
                let m = edge_pairs(old(self)@.edges_vertices, 0);
                let vv = old(self)@.vertices_vertices;
                if all_pairs_found(m, vv) {
                    &&& final(self)@.vertices_edges.len() == vv.len()
                    &&& forall|v: int|
                        0 <= v < vv.len() ==> final(self)@.vertices_edges[v].len()
                            == vv[v].len()
                    &&& forall|v: int, k: int|
                        0 <= v < vv.len() && 0 <= k < vv[v].len() ==> ve_entry(m, vv, v, k)
                            == Some(#[trigger] final(self)@.vertices_edges[v][k])
                } else {
                    final(self)@.vertices_edges.len() == 0
                }
            }),
    {
        self.vertices_edges = make_vertices_edges(&self.edges_vertices, &self.vertices_vertices);
        proof {
            assert(self@ =~~= (GraphView { vertices_edges: self@.vertices_edges, ..old(self)@ }));
        }
    }
}

} // verus!
