use fold::lookup_pair;
use fold::make_cyclical_pairs_map;
use fold::make_vertices_edges;
use fold::make_vertices_edges_unsorted;
use fold::Edge;

#[test]
fn cyclical_pairs_cover_both_directions() {
    let rows = vec![vec![0, 1, 2]];
    let pairs = make_cyclical_pairs_map(&rows);
    assert_eq!(pairs, vec![(0, 1, 0), (1, 2, 0), (2, 0, 0)]);
}

#[test]
fn cyclical_pairs_tag_each_row() {
    let rows = vec![vec![3, 4], vec![5, 6]];
    let pairs = make_cyclical_pairs_map(&rows);
    assert_eq!(pairs, vec![(3, 4, 0), (4, 3, 0), (5, 6, 1), (6, 5, 1)]);
}

#[test]
fn lookup_takes_the_latest_entry() {
    let pairs = vec![(0, 1, 7), (0, 1, 9)];
    assert_eq!(lookup_pair(&pairs, 0, 1), Some(9));
    assert_eq!(lookup_pair(&pairs, 1, 0), None);
}

#[test]
fn unsorted_incident_edges_follow_edge_order() {
    let edges = vec![Edge(0, 1), Edge(1, 2)];
    let ve = make_vertices_edges_unsorted(&edges);
    assert_eq!(ve, vec![vec![0], vec![0, 1], vec![1]]);
}

#[test]
fn unsorted_incident_edges_of_no_edges_is_empty() {
    let edges: Vec<Edge> = Vec::new();
    let ve = make_vertices_edges_unsorted(&edges);
    assert!(ve.is_empty());
}

#[test]
fn vertices_edges_align_with_neighbor_lists() {
    let edges = vec![Edge(0, 1), Edge(1, 2), Edge(2, 0)];
    let vv = vec![vec![1, 2], vec![0, 2], vec![0, 1]];
    let ve = make_vertices_edges(&edges, &vv);
    assert_eq!(ve, vec![vec![0, 2], vec![0, 1], vec![2, 1]]);
}

#[test]
fn vertices_edges_of_an_unmatched_pair_is_empty() {
    let edges = vec![Edge(0, 1)];
    let vv = vec![vec![1, 2], vec![0]];
    let ve = make_vertices_edges(&edges, &vv);
    assert!(ve.is_empty());
}

#[test]
fn edges_compare_as_unordered_pairs() {
    assert_eq!(Edge(0, 1), Edge(1, 0));
    assert_eq!(Edge(0, 1), Edge(0, 1));
    assert_ne!(Edge(0, 1), Edge(0, 2));
    assert_ne!(Edge(0, 1), Edge(2, 3));
}

#[test]
fn edge_iterator_yields_both_endpoints() {
    let e = Edge(4, 7);
    let mut it = e.into_iter();
    assert_eq!(it.next(), Some(4));
    assert_eq!(it.next(), Some(7));
    assert_eq!(it.next(), None);
    assert_eq!(it.next(), None);
}
