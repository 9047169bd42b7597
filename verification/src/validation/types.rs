use vstd::prelude::*;

use crate::error::Error;
use crate::error::OrderList;
use crate::graph::Graph;
use crate::graph::GraphView;

verus! {

broadcast use vstd::seq::group_seq_axioms;

/// The coordinate check from position `i` on: the first vertex whose
/// coordinate vector does not have `expected` entries.
pub open spec fn coordinates_check_from(rows: Seq<Seq<i64>>, expected: nat, i: int) -> Result<
    (),
    Error,
>
    decreases rows.len() - i,
{
    if i < 0 || i >= rows.len() {
        Ok(())
    } else if rows[i].len() != expected {
        Err(Error::NonUniformCoordinateDimension(i as usize))
    } else {
        coordinates_check_from(rows, expected, i + 1)
    }
}

/// Every vertex's coordinate vector has the dimension of vertex 0's.
pub open spec fn coordinates_check(g: GraphView) -> Result<(), Error> {
    if g.vertices_coordinates.len() == 0 {
        Ok(())
    } else {
        coordinates_check_from(g.vertices_coordinates, g.vertices_coordinates[0].len(), 0)
    }
}

/// The first edge from position `i` on whose length is negative.
pub open spec fn edges_length_check_from(lengths: Seq<i64>, i: int) -> Result<(), Error>
    decreases lengths.len() - i,
{
    if i < 0 || i >= lengths.len() {
        Ok(())
    } else if lengths[i] < 0 {
        Err(Error::NegativeLength(i as usize))
    } else {
        edges_length_check_from(lengths, i + 1)
    }
}

/// No edge has a negative length.
pub open spec fn edges_length_check(g: GraphView) -> Result<(), Error> {
    edges_length_check_from(g.edges_length, 0)
}

/// The first face from position `i` on with fewer than three vertices.
pub open spec fn faces_vertices_check_from(rows: Seq<Seq<usize>>, i: int) -> Result<(), Error>
    decreases rows.len() - i,
{
    if i < 0 || i >= rows.len() {
        Ok(())
    } else if rows[i].len() < 3 {
        Err(Error::DegenerateFace(i as usize))
    } else {
        faces_vertices_check_from(rows, i + 1)
    }
}

/// Every face has at least three vertices.
pub open spec fn faces_vertices_check(g: GraphView) -> Result<(), Error> {
    faces_vertices_check_from(g.faces_vertices, 0)
}

/// Two order-relation endpoints name the same unordered pair.
pub open spec fn order_pair_matches(a1: usize, b1: usize, a2: usize, b2: usize) -> bool {
    (a1 == a2 && b1 == b2) || (a1 == b2 && b1 == a2)
}

/// Some earlier triple names the same unordered pair as triple `i`.
pub open spec fn order_pair_repeated<T>(s: Seq<(usize, usize, T)>, i: int) -> bool {
    exists|j: int| 0 <= j < i && order_pair_matches(s[j].0, s[j].1, s[i].0, s[i].1)
}

/// The first triple from position `i` on that relates an entity to itself or
/// repeats an earlier unordered pair, degeneracy reported first.
pub open spec fn orders_check_from<T>(s: Seq<(usize, usize, T)>, list: OrderList, i: int) -> Result<
    (),
    Error,
>
    decreases s.len() - i,
{
    if i < 0 || i >= s.len() {
        Ok(())
    } else if s[i].0 == s[i].1 {
        Err(Error::DegenerateOrderPair(list, i as usize))
    } else if order_pair_repeated(s, i) {
        Err(Error::DuplicateOrderPair(list, i as usize))
    } else {
        orders_check_from(s, list, i + 1)
    }
}

/// No self-pairs and no duplicate unordered pairs among the edge orders.
pub open spec fn edge_orders_check(g: GraphView) -> Result<(), Error> {
    orders_check_from(g.edge_orders, OrderList::Edges, 0)
}

/// No self-pairs and no duplicate unordered pairs among the face orders.
pub open spec fn face_orders_check(g: GraphView) -> Result<(), Error> {
    orders_check_from(g.face_orders, OrderList::Faces, 0)
}

proof fn lemma_coordinates_tail(rows: Seq<Seq<i64>>, expected: nat, i: int)
    requires
        0 <= i <= rows.len(),
    ensures
        coordinates_check_from(rows, expected, i) is Ok <==> (forall|k: int|
            i <= k < rows.len() ==> (#[trigger] rows[k]).len() == expected),
    decreases rows.len() - i,
{
    if i < rows.len() {
        lemma_coordinates_tail(rows, expected, i + 1);
    }
}

/// The coordinate check accepts exactly the graphs whose every vertex has a
/// coordinate vector of the same dimension as vertex 0's.
pub proof fn lemma_coordinates_ok_iff(g: GraphView)
    ensures
        coordinates_check(g) is Ok <==> (forall|k: int|
            0 <= k < g.vertices_coordinates.len() ==> (#[trigger] g.vertices_coordinates[k]).len()
                == g.vertices_coordinates[0].len()),
{
    if g.vertices_coordinates.len() > 0 {
        lemma_coordinates_tail(g.vertices_coordinates, g.vertices_coordinates[0].len(), 0);
    }
}

proof fn lemma_edges_length_tail(lengths: Seq<i64>, i: int)
    requires
        0 <= i <= lengths.len(),
    ensures
        edges_length_check_from(lengths, i) is Ok <==> (forall|k: int|
            i <= k < lengths.len() ==> #[trigger] lengths[k] >= 0),
    decreases lengths.len() - i,
{
    if i < lengths.len() {
        lemma_edges_length_tail(lengths, i + 1);
    }
}

/// The length check accepts exactly the graphs with no negative edge
/// length.
pub proof fn lemma_edges_length_ok_iff(g: GraphView)
    ensures
        edges_length_check(g) is Ok <==> (forall|k: int|
            0 <= k < g.edges_length.len() ==> #[trigger] g.edges_length[k] >= 0),
{
    lemma_edges_length_tail(g.edges_length, 0);
}

proof fn lemma_faces_vertices_tail(rows: Seq<Seq<usize>>, i: int)
    requires
        0 <= i <= rows.len(),
    ensures
        faces_vertices_check_from(rows, i) is Ok <==> (forall|k: int|
            i <= k < rows.len() ==> (#[trigger] rows[k]).len() >= 3),
    decreases rows.len() - i,
{
    if i < rows.len() {
        lemma_faces_vertices_tail(rows, i + 1);
    }
}

/// The face check accepts exactly the graphs whose every face has at least
/// three vertices.
pub proof fn lemma_faces_vertices_ok_iff(g: GraphView)
    ensures
        faces_vertices_check(g) is Ok <==> (forall|k: int|
            0 <= k < g.faces_vertices.len() ==> (#[trigger] g.faces_vertices[k]).len() >= 3),
{
    lemma_faces_vertices_tail(g.faces_vertices, 0);
}

proof fn lemma_orders_check_tail<T>(s: Seq<(usize, usize, T)>, list: OrderList, i: int)
    requires
        0 <= i <= s.len(),
    ensures
        orders_check_from(s, list, i) is Ok <==> (forall|k: int|
            i <= k < s.len() ==> (#[trigger] s[k]).0 != s[k].1 && !order_pair_repeated(s, k)),
    decreases s.len() - i,
{
    if i < s.len() {
        lemma_orders_check_tail(s, list, i + 1);
    }
}

/// The order-relation check accepts exactly the lists with no self-pair and
/// no repeated unordered pair.
pub proof fn lemma_orders_check_ok_iff<T>(s: Seq<(usize, usize, T)>, list: OrderList)
    ensures
        orders_check_from(s, list, 0) is Ok <==> (forall|k: int|
            0 <= k < s.len() ==> (#[trigger] s[k]).0 != s[k].1 && !order_pair_repeated(s, k)),
{
    lemma_orders_check_tail(s, list, 0);
}

pub fn validate_vertices_coordinates(graph: &Graph) -> (r: Result<(), Error>)
    ensures
        r == coordinates_check(graph@),
{
    if graph.vertices_coordinates.len() == 0 {
        return Ok(());
    }
    let expected = graph.vertices_coordinates[0].len();
    let ghost rows = graph@.vertices_coordinates;
    let mut i: usize = 0;
    while i < graph.vertices_coordinates.len()
        invariant
            rows == graph@.vertices_coordinates,
            expected == rows[0].len(),
            rows.len() > 0,
            i <= rows.len(),
            coordinates_check_from(rows, expected as nat, 0) == coordinates_check_from(
                rows,
                expected as nat,
                i as int,
            ),
        decreases rows.len() - i,
    {
        if graph.vertices_coordinates[i].len() != expected {
            return Err(Error::NonUniformCoordinateDimension(i));
        }
        i += 1;
    }
    Ok(())
}

pub fn validate_edges_length(graph: &Graph) -> (r: Result<(), Error>)
    ensures
        r == edges_length_check(graph@),
{
    let ghost lengths = graph@.edges_length;
    let mut i: usize = 0;
    while i < graph.edges_length.len()
        invariant
            lengths == graph@.edges_length,
            i <= lengths.len(),
            edges_length_check_from(lengths, 0) == edges_length_check_from(lengths, i as int),
        decreases lengths.len() - i,
    {
        if graph.edges_length[i] < 0 {
            return Err(Error::NegativeLength(i));
        }
        i += 1;
    }
    Ok(())
}

pub fn validate_faces_vertices(graph: &Graph) -> (r: Result<(), Error>)
    ensures
        r == faces_vertices_check(graph@),
{
    let ghost rows = graph@.faces_vertices;
    let mut i: usize = 0;
    while i < graph.faces_vertices.len()
        invariant
            rows == graph@.faces_vertices,
            i <= rows.len(),
            faces_vertices_check_from(rows, 0) == faces_vertices_check_from(rows, i as int),
        decreases rows.len() - i,
    {
        if graph.faces_vertices[i].len() < 3 {
            return Err(Error::DegenerateFace(i));
        }
        i += 1;
    }
    Ok(())
}

/// Whether some triple before position `i` names the same unordered pair as
/// triple `i`, by a scan.
fn order_pair_repeats<T>(s: &Vec<(usize, usize, T)>, i: usize) -> (r: bool)
    requires
        i < s@.len(),
    ensures
        r == order_pair_repeated(s@, i as int),
{
    let a = s[i].0;
    let b = s[i].1;
    let mut j: usize = 0;
    while j < i
        invariant
            j <= i < s@.len(),
            a == s@[i as int].0,
            b == s@[i as int].1,
            forall|k: int| 0 <= k < j ==> !order_pair_matches(s@[k].0, s@[k].1, a, b),
        decreases i - j,
    {
        if (s[j].0 == a && s[j].1 == b) || (s[j].0 == b && s[j].1 == a) {
            return true;
        }
        j += 1;
    }
    false
}

pub fn validate_edge_orders(graph: &Graph) -> (r: Result<(), Error>)
    ensures
        r == edge_orders_check(graph@),
{
    let ghost s = graph@.edge_orders;
    let mut i: usize = 0;
    while i < graph.edge_orders.len()
        invariant
            i <= s.len(),
            s == graph@.edge_orders,
            orders_check_from(s, OrderList::Edges, 0) == orders_check_from(
                s,
                OrderList::Edges,
                i as int,
            ),
        decreases s.len() - i,
    {
        if graph.edge_orders[i].0 == graph.edge_orders[i].1 {
            return Err(Error::DegenerateOrderPair(OrderList::Edges, i));
        }
        if order_pair_repeats(&graph.edge_orders, i) {
            return Err(Error::DuplicateOrderPair(OrderList::Edges, i));
        }
        i += 1;
    }
    Ok(())
}

pub fn validate_face_orders(graph: &Graph) -> (r: Result<(), Error>)
    ensures
        r == face_orders_check(graph@),
{
    let ghost s = graph@.face_orders;
    let mut i: usize = 0;
    while i < graph.face_orders.len()
        invariant
            i <= s.len(),
            s == graph@.face_orders,
            orders_check_from(s, OrderList::Faces, 0) == orders_check_from(
                s,
                OrderList::Faces,
                i as int,
            ),
        decreases s.len() - i,
    {
        if graph.face_orders[i].0 == graph.face_orders[i].1 {
            return Err(Error::DegenerateOrderPair(OrderList::Faces, i));
        }
        if order_pair_repeats(&graph.face_orders, i) {
            return Err(Error::DuplicateOrderPair(OrderList::Faces, i));
        }
        i += 1;
    }
    Ok(())
}

} // verus!
