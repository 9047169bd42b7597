use vstd::prelude::*;

use crate::edge::Edge;
use crate::error::Error;
use crate::error::RefArray;
use crate::graph::Graph;
use crate::graph::GraphView;
use crate::util::rows_view;

verus! {

broadcast use vstd::seq::group_seq_axioms;

/// The first entry of `row` from position `j` on that is not below `bound`.
pub open spec fn row_refs_from(row: Seq<usize>, bound: usize, arr: RefArray, j: int) -> Result<
    (),
    Error,
>
    decreases row.len() - j,
{
    if j < 0 || j >= row.len() {
        Ok(())
    } else if row[j] >= bound {
        Err(Error::OutOfRangeReference(arr, row[j], bound))
    } else {
        row_refs_from(row, bound, arr, j + 1)
    }
}

/// The first entry in any row from row `i` on that is not below `bound`,
/// scanning rows in order and each row left to right.
pub open spec fn rows_refs_from(
    rows: Seq<Seq<usize>>,
    bound: usize,
    arr: RefArray,
    i: int,
) -> Result<(), Error>
    decreases rows.len() - i,
{
    if i < 0 || i >= rows.len() {
        Ok(())
    } else {
        match row_refs_from(rows[i], bound, arr, 0) {
            Err(e) => Err(e),
            Ok(u) => rows_refs_from(rows, bound, arr, i + 1),
        }
    }
}

/// As [`row_refs_from`], with null slots skipped.
pub open spec fn opt_row_refs_from(
    row: Seq<Option<usize>>,
    bound: usize,
    arr: RefArray,
    j: int,
) -> Result<(), Error>
    decreases row.len() - j,
{
    if j < 0 || j >= row.len() {
        Ok(())
    } else {
        match row[j] {
            Some(x) => if x >= bound {
                Err(Error::OutOfRangeReference(arr, x, bound))
            } else {
                opt_row_refs_from(row, bound, arr, j + 1)
            },
            None => opt_row_refs_from(row, bound, arr, j + 1),
        }
    }
}

/// As [`rows_refs_from`], with null slots skipped.
pub open spec fn opt_rows_refs_from(
    rows: Seq<Seq<Option<usize>>>,
    bound: usize,
    arr: RefArray,
    i: int,
) -> Result<(), Error>
    decreases rows.len() - i,
{
    if i < 0 || i >= rows.len() {
        Ok(())
    } else {
        match opt_row_refs_from(rows[i], bound, arr, 0) {
            Err(e) => Err(e),
            Ok(u) => opt_rows_refs_from(rows, bound, arr, i + 1),
        }
    }
}

/// The first edge endpoint from edge `i` on that is not below `bound`, the
/// first endpoint of each edge checked before the second.
pub open spec fn edges_refs_from(edges: Seq<Edge>, bound: usize, i: int) -> Result<(), Error>
    decreases edges.len() - i,
{
    if i < 0 || i >= edges.len() {
        Ok(())
    } else if edges[i].0 >= bound {
        Err(Error::OutOfRangeReference(RefArray::EV, edges[i].0, bound))
    } else if edges[i].1 >= bound {
        Err(Error::OutOfRangeReference(RefArray::EV, edges[i].1, bound))
    } else {
        edges_refs_from(edges, bound, i + 1)
    }
}

/// The first order-relation endpoint from triple `i` on that is not below
/// `bound`, the first endpoint of each triple checked before the second.
pub open spec fn orders_refs_from<T>(
    s: Seq<(usize, usize, T)>,
    bound: usize,
    arr: RefArray,
    i: int,
) -> Result<(), Error>
    decreases s.len() - i,
{
    if i < 0 || i >= s.len() {
        Ok(())
    } else if s[i].0 >= bound {
        Err(Error::OutOfRangeReference(arr, s[i].0, bound))
    } else if s[i].1 >= bound {
        Err(Error::OutOfRangeReference(arr, s[i].1, bound))
    } else {
        orders_refs_from(s, bound, arr, i + 1)
    }
}

proof fn lemma_row_refs_tail(row: Seq<usize>, bound: usize, arr: RefArray, j: int)
    requires
        0 <= j <= row.len(),
    ensures
        row_refs_from(row, bound, arr, j) is Ok <==> (forall|k: int|
            j <= k < row.len() ==> row[k] < bound),
    decreases row.len() - j,
{
    if j < row.len() {
        lemma_row_refs_tail(row, bound, arr, j + 1);
    }
}

proof fn lemma_rows_refs_tail(rows: Seq<Seq<usize>>, bound: usize, arr: RefArray, i: int)
    requires
        0 <= i <= rows.len(),
    ensures
        rows_refs_from(rows, bound, arr, i) is Ok <==> (forall|i0: int, j0: int|
            i <= i0 < rows.len() && 0 <= j0 < rows[i0].len() ==> #[trigger] rows[i0][j0] < bound),
    decreases rows.len() - i,
{
    if i < rows.len() {
        lemma_row_refs_tail(rows[i], bound, arr, 0);
        lemma_rows_refs_tail(rows, bound, arr, i + 1);
        if rows_refs_from(rows, bound, arr, i) is Ok {
            assert(row_refs_from(rows[i], bound, arr, 0) is Ok);
            assert forall|i0: int, j0: int|
                i <= i0 < rows.len() && 0 <= j0 < rows[i0].len() implies #[trigger] rows[i0][j0]
                < bound by {
                if i0 == i {
                    assert(rows[i][j0] < bound);
                }
            }
        } else {
            if forall|i0: int, j0: int|
                i <= i0 < rows.len() && 0 <= j0 < rows[i0].len() ==> #[trigger] rows[i0][j0]
                    < bound {
                assert forall|k: int| 0 <= k < rows[i].len() implies rows[i][k] < bound by {
                    assert(rows[i][k] == rows[i][k]);
                }
                assert(rows_refs_from(rows, bound, arr, i) == (match row_refs_from(
                rows[i],
                bound,
                arr,
                0,
            ) {
                Err(e) => Err::<(), Error>(e),
                Ok(u) => rows_refs_from(rows, bound, arr, i + 1),
            }));
            assert(row_refs_from(rows[i], bound, arr, 0) == Ok::<(), Error>(()));
                assert(rows_refs_from(rows, bound, arr, i + 1) == Ok::<(), Error>(()));
                assert(false);
            }
        }
    }
}

/// The row-by-row reference scan accepts exactly the arrays whose every
/// entry is below the bound of the entity space it targets.
pub proof fn lemma_rows_refs_ok_iff(rows: Seq<Seq<usize>>, bound: usize, arr: RefArray)
    ensures
        rows_refs_from(rows, bound, arr, 0) is Ok <==> (forall|i: int, j: int|
            0 <= i < rows.len() && 0 <= j < rows[i].len() ==> rows[i][j] < bound),
{
    lemma_rows_refs_tail(rows, bound, arr, 0);
}

proof fn lemma_opt_row_refs_tail(row: Seq<Option<usize>>, bound: usize, arr: RefArray, j: int)
    requires
        0 <= j <= row.len(),
    ensures
        opt_row_refs_from(row, bound, arr, j) is Ok <==> (forall|k: int|
            j <= k < row.len() ==> (match #[trigger] row[k] {
                Some(x) => x < bound,
                None => true,
            })),
    decreases row.len() - j,
{
    if j < row.len() {
        lemma_opt_row_refs_tail(row, bound, arr, j + 1);
    }
}

proof fn lemma_opt_rows_refs_tail(rows: Seq<Seq<Option<usize>>>, bound: usize, arr: RefArray, i: int)
    requires
        0 <= i <= rows.len(),
    ensures
        opt_rows_refs_from(rows, bound, arr, i) is Ok <==> (forall|i0: int, j0: int|
            i <= i0 < rows.len() && 0 <= j0 < rows[i0].len() ==> (match #[trigger] rows[i0][j0] {
                Some(x) => x < bound,
                None => true,
            })),
    decreases rows.len() - i,
{
    if i < rows.len() {
        lemma_opt_row_refs_tail(rows[i], bound, arr, 0);
        lemma_opt_rows_refs_tail(rows, bound, arr, i + 1);
        if opt_rows_refs_from(rows, bound, arr, i) is Ok {
            assert(opt_row_refs_from(rows[i], bound, arr, 0) is Ok);
            assert forall|i0: int, j0: int|
                i <= i0 < rows.len() && 0 <= j0 < rows[i0].len() implies (match #[trigger] rows[i0][j0] {
                Some(x) => x < bound,
                None => true,
            }) by {
                if i0 == i {
                    assert(match rows[i][j0] {
                        Some(x) => x < bound,
                        None => true,
                    });
                }
            }
        } else {
            if forall|i0: int, j0: int|
                i <= i0 < rows.len() && 0 <= j0 < rows[i0].len() ==> (match #[trigger] rows[i0][j0] {
                    Some(x) => x < bound,
                    None => true,
                }) {
                assert forall|k: int| 0 <= k < rows[i].len() implies (match #[trigger] rows[i][k] {
                    Some(x) => x < bound,
                    None => true,
                }) by {
                    assert(i <= i < rows.len() && 0 <= k < rows[i].len());
                }
                assert(opt_rows_refs_from(rows, bound, arr, i) == (match opt_row_refs_from(
                rows[i],
                bound,
                arr,
                0,
            ) {
                Err(e) => Err::<(), Error>(e),
                Ok(u) => opt_rows_refs_from(rows, bound, arr, i + 1),
            }));
            assert(opt_row_refs_from(rows[i], bound, arr, 0) == Ok::<(), Error>(()));
                assert(opt_rows_refs_from(rows, bound, arr, i + 1) == Ok::<(), Error>(()));
                assert(false);
            }
        }
    }
}

/// The reference scan that skips null slots accepts exactly the arrays
/// whose every known entry is below the bound.
pub proof fn lemma_opt_rows_refs_ok_iff(rows: Seq<Seq<Option<usize>>>, bound: usize, arr: RefArray)
    ensures
        opt_rows_refs_from(rows, bound, arr, 0) is Ok <==> (forall|i: int, j: int|
            0 <= i < rows.len() && 0 <= j < rows[i].len() ==> (match #[trigger] rows[i][j] {
                Some(x) => x < bound,
                None => true,
            })),
{
    lemma_opt_rows_refs_tail(rows, bound, arr, 0);
}

proof fn lemma_edges_refs_tail(edges: Seq<Edge>, bound: usize, i: int)
    requires
        0 <= i <= edges.len(),
    ensures
        edges_refs_from(edges, bound, i) is Ok <==> (forall|k: int|
            i <= k < edges.len() ==> (#[trigger] edges[k]).0 < bound && edges[k].1 < bound),
    decreases edges.len() - i,
{
    if i < edges.len() {
        lemma_edges_refs_tail(edges, bound, i + 1);
    }
}

/// The edge-endpoint scan accepts exactly the edge lists whose every
/// endpoint is below the vertex count.
pub proof fn lemma_edges_refs_ok_iff(edges: Seq<Edge>, bound: usize)
    ensures
        edges_refs_from(edges, bound, 0) is Ok <==> (forall|k: int|
            0 <= k < edges.len() ==> (#[trigger] edges[k]).0 < bound && edges[k].1 < bound),
{
    lemma_edges_refs_tail(edges, bound, 0);
}

proof fn lemma_orders_refs_tail<T>(s: Seq<(usize, usize, T)>, bound: usize, arr: RefArray, i: int)
    requires
        0 <= i <= s.len(),
    ensures
        orders_refs_from(s, bound, arr, i) is Ok <==> (forall|k: int|
            i <= k < s.len() ==> (#[trigger] s[k]).0 < bound && s[k].1 < bound),
    decreases s.len() - i,
{
    if i < s.len() {
        lemma_orders_refs_tail(s, bound, arr, i + 1);
    }
}

/// The order-relation endpoint scan accepts exactly the lists whose every
/// endpoint is below the count of the entity kind the list orders.
pub proof fn lemma_orders_refs_ok_iff<T>(s: Seq<(usize, usize, T)>, bound: usize, arr: RefArray)
    ensures
        orders_refs_from(s, bound, arr, 0) is Ok <==> (forall|k: int|
            0 <= k < s.len() ==> (#[trigger] s[k]).0 < bound && s[k].1 < bound),
{
    lemma_orders_refs_tail(s, bound, arr, 0);
}

/// Vertex-targeting references are checked against the vertex count the
/// arrays imply; with nothing sizing the vertex space (an abstract graph)
/// there is no bound to enforce and the check passes.
pub open spec fn vertices_vertices_refs_check(g: GraphView) -> Result<(), Error> {
    match g.vertex_count() {
        Some(n) => rows_refs_from(g.vertices_vertices, n as usize, RefArray::VV, 0),
        None => Ok(()),
    }
}

pub open spec fn vertices_edges_refs_check(g: GraphView) -> Result<(), Error> {
    rows_refs_from(g.vertices_edges, g.edges_vertices.len() as usize, RefArray::VE, 0)
}

pub open spec fn vertices_faces_refs_check(g: GraphView) -> Result<(), Error> {
    opt_rows_refs_from(g.vertices_faces, g.faces_vertices.len() as usize, RefArray::VF, 0)
}

pub open spec fn edges_vertices_refs_check(g: GraphView) -> Result<(), Error> {
    match g.vertex_count() {
        Some(n) => edges_refs_from(g.edges_vertices, n as usize, 0),
        None => Ok(()),
    }
}

pub open spec fn edges_faces_refs_check(g: GraphView) -> Result<(), Error> {
    opt_rows_refs_from(g.edges_faces, g.faces_vertices.len() as usize, RefArray::EF, 0)
}

pub open spec fn edge_orders_refs_check(g: GraphView) -> Result<(), Error> {
    orders_refs_from(g.edge_orders, g.edges_vertices.len() as usize, RefArray::EO, 0)
}

pub open spec fn faces_vertices_refs_check(g: GraphView) -> Result<(), Error> {
    match g.vertex_count() {
        Some(n) => rows_refs_from(g.faces_vertices, n as usize, RefArray::FV, 0),
        None => Ok(()),
    }
}

pub open spec fn faces_edges_refs_check(g: GraphView) -> Result<(), Error> {
    rows_refs_from(g.faces_edges, g.edges_vertices.len() as usize, RefArray::FE, 0)
}

pub open spec fn faces_faces_refs_check(g: GraphView) -> Result<(), Error> {
    opt_rows_refs_from(g.faces_faces, g.faces_vertices.len() as usize, RefArray::FF, 0)
}

pub open spec fn face_orders_refs_check(g: GraphView) -> Result<(), Error> {
    orders_refs_from(g.face_orders, g.faces_vertices.len() as usize, RefArray::FO, 0)
}

fn check_row_refs(row: &Vec<usize>, bound: usize, arr: RefArray) -> (r: Result<(), Error>)
    ensures
        r == row_refs_from(row@, bound, arr, 0),
{
    let mut j: usize = 0;
    while j < row.len()
        invariant
            j <= row@.len(),
            row_refs_from(row@, bound, arr, 0) == row_refs_from(row@, bound, arr, j as int),
        decreases row@.len() - j,
    {
        if row[j] >= bound {
            return Err(Error::OutOfRangeReference(arr, row[j], bound));
        }
        j += 1;
    }
    Ok(())
}

fn check_rows_refs(rows: &Vec<Vec<usize>>, bound: usize, arr: RefArray) -> (r: Result<(), Error>)
    ensures
        r == rows_refs_from(rows_view(rows@), bound, arr, 0),
{
    let ghost rv = rows_view(rows@);
    let mut i: usize = 0;
    while i < rows.len()
        invariant
            rv == rows_view(rows@),
            i <= rv.len(),
            rows_refs_from(rv, bound, arr, 0) == rows_refs_from(rv, bound, arr, i as int),
        decreases rv.len() - i,
    {
        match check_row_refs(&rows[i], bound, arr) {
            Err(e) => {
                return Err(e);
            },
            Ok(u) => {},
        }
        i += 1;
    }
    Ok(())
}

fn check_opt_row_refs(row: &Vec<Option<usize>>, bound: usize, arr: RefArray) -> (r: Result<
    (),
    Error,
>)
    ensures
        r == opt_row_refs_from(row@, bound, arr, 0),
{
    let mut j: usize = 0;
    while j < row.len()
        invariant
            j <= row@.len(),
            opt_row_refs_from(row@, bound, arr, 0) == opt_row_refs_from(
                row@,
                bound,
                arr,
                j as int,
            ),
        decreases row@.len() - j,
    {
        match row[j] {
            Some(x) => {
                if x >= bound {
                    return Err(Error::OutOfRangeReference(arr, x, bound));
                }
            },
            None => {},
        }
        j += 1;
    }
    Ok(())
}

fn check_opt_rows_refs(rows: &Vec<Vec<Option<usize>>>, bound: usize, arr: RefArray) -> (r: Result<
    (),
    Error,
>)
    ensures
        r == opt_rows_refs_from(rows_view(rows@), bound, arr, 0),
{
    let ghost rv = rows_view(rows@);
    let mut i: usize = 0;
    while i < rows.len()
        invariant
            rv == rows_view(rows@),
            i <= rv.len(),
            opt_rows_refs_from(rv, bound, arr, 0) == opt_rows_refs_from(rv, bound, arr, i as int),
        decreases rv.len() - i,
    {
        match check_opt_row_refs(&rows[i], bound, arr) {
            Err(e) => {
                return Err(e);
            },
            Ok(u) => {},
        }
        i += 1;
    }
    Ok(())
}

fn check_orders_refs<T>(s: &Vec<(usize, usize, T)>, bound: usize, arr: RefArray) -> (r: Result<
    (),
    Error,
>)
    ensures
        r == orders_refs_from(s@, bound, arr, 0),
{
    let mut i: usize = 0;
    while i < s.len()
        invariant
            i <= s@.len(),
            orders_refs_from(s@, bound, arr, 0) == orders_refs_from(s@, bound, arr, i as int),
        decreases s@.len() - i,
    {
        if s[i].0 >= bound {
            return Err(Error::OutOfRangeReference(arr, s[i].0, bound));
        }
        if s[i].1 >= bound {
            return Err(Error::OutOfRangeReference(arr, s[i].1, bound));
        }
        i += 1;
    }
    Ok(())
}

pub fn validate_vertices_vertices_indices(graph: &Graph) -> (r: Result<(), Error>)
    ensures
        r == vertices_vertices_refs_check(graph@),
{
    match graph.vertex_count() {
        Some(n) => check_rows_refs(&graph.vertices_vertices, n, RefArray::VV),
        None => Ok(()),
    }
}

pub fn validate_vertices_edges_indices(graph: &Graph) -> (r: Result<(), Error>)
    ensures
        r == vertices_edges_refs_check(graph@),
{
    check_rows_refs(&graph.vertices_edges, graph.edges_vertices.len(), RefArray::VE)
}

pub fn validate_vertices_faces_indices(graph: &Graph) -> (r: Result<(), Error>)
    ensures
        r == vertices_faces_refs_check(graph@),
{
    check_opt_rows_refs(&graph.vertices_faces, graph.faces_vertices.len(), RefArray::VF)
}

fn check_edges_refs(edges: &Vec<Edge>, bound: usize) -> (r: Result<(), Error>)
    ensures
        r == edges_refs_from(edges@, bound, 0),
{
    let mut i: usize = 0;
    while i < edges.len()
        invariant
            i <= edges@.len(),
            edges_refs_from(edges@, bound, 0) == edges_refs_from(edges@, bound, i as int),
        decreases edges@.len() - i,
    {
        if edges[i].0 >= bound {
            return Err(Error::OutOfRangeReference(RefArray::EV, edges[i].0, bound));
        }
        if edges[i].1 >= bound {
            return Err(Error::OutOfRangeReference(RefArray::EV, edges[i].1, bound));
        }
        i += 1;
    }
    Ok(())
}

pub fn validate_edges_vertices_indices(graph: &Graph) -> (r: Result<(), Error>)
    ensures
        r == edges_vertices_refs_check(graph@),
{
    match graph.vertex_count() {
        Some(n) => check_edges_refs(&graph.edges_vertices, n),
        None => Ok(()),
    }
}

pub fn validate_edges_faces_indices(graph: &Graph) -> (r: Result<(), Error>)
    ensures
        r == edges_faces_refs_check(graph@),
{
    check_opt_rows_refs(&graph.edges_faces, graph.faces_vertices.len(), RefArray::EF)
}

pub fn validate_edge_orders_indices(graph: &Graph) -> (r: Result<(), Error>)
    ensures
        r == edge_orders_refs_check(graph@),
{
    check_orders_refs(&graph.edge_orders, graph.edges_vertices.len(), RefArray::EO)
}

pub fn validate_faces_vertices_indices(graph: &Graph) -> (r: Result<(), Error>)
    ensures
        r == faces_vertices_refs_check(graph@),
{
    match graph.vertex_count() {
        Some(n) => check_rows_refs(&graph.faces_vertices, n, RefArray::FV),
        None => Ok(()),
    }
}

pub fn validate_faces_edges_indices(graph: &Graph) -> (r: Result<(), Error>)
    ensures
        r == faces_edges_refs_check(graph@),
{
    check_rows_refs(&graph.faces_edges, graph.edges_vertices.len(), RefArray::FE)
}

pub fn validate_faces_faces_indices(graph: &Graph) -> (r: Result<(), Error>)
    ensures
        r == faces_faces_refs_check(graph@),
{
    check_opt_rows_refs(&graph.faces_faces, graph.faces_vertices.len(), RefArray::FF)
}

pub fn validate_face_orders_indices(graph: &Graph) -> (r: Result<(), Error>)
    ensures
        r == face_orders_refs_check(graph@),
{
    check_orders_refs(&graph.face_orders, graph.faces_vertices.len(), RefArray::FO)
}

} // verus!
