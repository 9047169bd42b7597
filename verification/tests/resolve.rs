use fold::validation::validate_faces_vertices;
use fold::validation::validate_frame_parents;
use fold::validation::validate_vertices_vertices_length;
use fold::CustomEntry;
use fold::Edge;
use fold::Error;
use fold::Fold;
use fold::Frame;
use fold::Graph;

fn triangle_graph() -> Graph {
    let mut g = Graph::new();
    g.vertices_coordinates = vec![vec![0, 0], vec![1000, 0], vec![0, 1000]];
    g.edges_vertices = vec![Edge(0, 1), Edge(1, 2), Edge(2, 0)];
    g.faces_vertices = vec![vec![0, 1, 2]];
    g
}

#[test]
fn empty_document_is_valid() {
    assert_eq!(Fold::new().validate(), Ok(()));
}

#[test]
fn document_validation_is_deterministic() {
    let mut doc = Fold::new();
    doc.key_frame.graph = triangle_graph();
    let mut child = Frame::new();
    child.parent = Some(1);
    child.inherit = true;
    doc.frames = vec![child];
    assert_eq!(doc.validate(), doc.validate());
}

#[test]
fn key_frame_resolves_to_itself() {
    let mut doc = Fold::new();
    doc.key_frame.title = "base".to_string();
    doc.key_frame.graph = triangle_graph();
    doc.key_frame.inherit = true;
    let resolved = doc.get_inherited_frame(0).unwrap();
    assert_eq!(resolved.title, "base");
    assert_eq!(resolved.graph.faces_vertices, vec![vec![0, 1, 2]]);
    assert!(resolved.parent.is_none());
}

#[test]
fn self_parenting_frame_is_an_infinite_chain() {
    let mut doc = Fold::new();
    let mut frame = Frame::new();
    frame.parent = Some(1);
    frame.inherit = true;
    doc.frames = vec![frame];
    assert_eq!(doc.validate(), Err(Error::InfiniteParents(1)));
    assert_eq!(doc.validate_frame(1), Err(Error::InfiniteParents(1)));
}

#[test]
fn two_frame_parent_ring_is_an_infinite_chain() {
    let mut doc = Fold::new();
    doc.key_frame.parent = Some(1);
    doc.key_frame.inherit = true;
    let mut frame = Frame::new();
    frame.parent = Some(0);
    frame.inherit = true;
    doc.frames = vec![frame];
    assert_eq!(doc.validate_frame(0), Err(Error::InfiniteParents(0)));
    assert_eq!(doc.validate_frame(1), Err(Error::InfiniteParents(1)));
    assert_eq!(doc.validate(), Err(Error::InfiniteParents(0)));
}

#[test]
fn parent_outside_the_document_is_missing() {
    let mut doc = Fold::new();
    let mut frame = Frame::new();
    frame.parent = Some(5);
    frame.inherit = true;
    doc.frames = vec![frame];
    assert_eq!(doc.validate(), Err(Error::MissingParent(1, 5)));
}

#[test]
fn non_inheriting_frame_ignores_its_parent_chain() {
    let mut doc = Fold::new();
    let mut frame = Frame::new();
    frame.parent = Some(5);
    frame.inherit = false;
    doc.frames = vec![frame];
    let resolved = doc.get_inherited_frame(1).unwrap();
    assert_eq!(resolved.parent, Some(5));
    assert_eq!(doc.validate(), Ok(()));
}

#[test]
fn child_fills_unset_fields_from_parent() {
    let mut doc = Fold::new();
    doc.key_frame.title = "base".to_string();
    doc.key_frame.author = "someone".to_string();
    doc.key_frame.graph = triangle_graph();
    let mut child = Frame::new();
    child.title = "step two".to_string();
    child.parent = Some(0);
    child.inherit = true;
    doc.frames = vec![child];
    let resolved = doc.get_inherited_frame(1).unwrap();
    // The child's own title wins; the unset author and graph come from the
    // key frame.
    assert_eq!(resolved.title, "step two");
    assert_eq!(resolved.author, "someone");
    assert_eq!(resolved.graph.faces_vertices, vec![vec![0, 1, 2]]);
    assert_eq!(doc.validate(), Ok(()));
}

#[test]
fn walk_stops_at_a_non_inheriting_parent() {
    let mut doc = Fold::new();
    doc.key_frame.author = "root author".to_string();
    let mut middle = Frame::new();
    middle.title = "middle".to_string();
    middle.parent = Some(0);
    middle.inherit = false;
    let mut leaf = Frame::new();
    leaf.parent = Some(1);
    leaf.inherit = true;
    doc.frames = vec![middle, leaf];
    let resolved = doc.get_inherited_frame(2).unwrap();
    // The leaf takes the middle frame's title, but the walk stops there:
    // the root author is never reached.
    assert_eq!(resolved.title, "middle");
    assert_eq!(resolved.author, "");
}

#[test]
fn custom_data_keys_absent_in_child_are_copied() {
    let mut doc = Fold::new();
    doc.key_frame.custom_data = vec![
        CustomEntry { key: "ex:color".to_string(), value: serde_json::Value::from(5) },
        CustomEntry { key: "ex:note".to_string(), value: serde_json::Value::from("kept") },
    ];
    let mut child = Frame::new();
    child.custom_data = vec![CustomEntry {
        key: "ex:color".to_string(),
        value: serde_json::Value::from(9),
    }];
    child.parent = Some(0);
    child.inherit = true;
    doc.frames = vec![child];
    let resolved = doc.get_inherited_frame(1).unwrap();
    assert_eq!(resolved.custom_data.len(), 2);
    assert_eq!(resolved.custom_data[0].key, "ex:color");
    assert_eq!(resolved.custom_data[0].value, serde_json::Value::from(9));
    assert_eq!(resolved.custom_data[1].key, "ex:note");
    assert_eq!(resolved.custom_data[1].value, serde_json::Value::from("kept"));
}

#[test]
fn get_frame_counts_the_key_frame_first() {
    let mut doc = Fold::new();
    doc.key_frame.title = "key".to_string();
    let mut second = Frame::new();
    second.title = "second".to_string();
    doc.frames = vec![second];
    assert_eq!(doc.get_frame(0).unwrap().title, "key");
    assert_eq!(doc.get_frame(1).unwrap().title, "second");
    assert!(doc.get_frame(2).is_none());
}

#[test]
fn get_frame_parent_follows_one_link() {
    let mut doc = Fold::new();
    doc.key_frame.title = "key".to_string();
    let mut second = Frame::new();
    second.title = "second".to_string();
    second.parent = Some(0);
    doc.frames = vec![second];
    assert_eq!(doc.get_frame_parent(1).unwrap().title, "key");
    assert!(doc.get_frame_parent(0).is_none());
}

#[test]
fn get_frame_parents_collects_the_chain() {
    let mut doc = Fold::new();
    doc.key_frame.title = "key".to_string();
    let mut middle = Frame::new();
    middle.title = "middle".to_string();
    middle.parent = Some(0);
    let mut leaf = Frame::new();
    leaf.title = "leaf".to_string();
    leaf.parent = Some(1);
    doc.frames = vec![middle, leaf];
    let parents = doc.get_frame_parents(2).unwrap();
    assert_eq!(parents.len(), 2);
    assert_eq!(parents[0].title, "middle");
    assert_eq!(parents[1].title, "key");
    let mut broken = Fold::new();
    let mut stray = Frame::new();
    stray.title = "stray".to_string();
    stray.parent = Some(9);
    broken.frames = vec![stray];
    assert!(broken.get_frame_parents(1).is_none());
}

#[test]
fn get_inherited_frames_resolves_every_frame() {
    let mut doc = Fold::new();
    doc.key_frame.title = "base".to_string();
    let mut child = Frame::new();
    child.parent = Some(0);
    child.inherit = true;
    let mut cyclic = Frame::new();
    cyclic.parent = Some(2);
    cyclic.inherit = true;
    doc.frames = vec![child, cyclic];
    let resolved = doc.get_inherited_frames();
    assert_eq!(resolved.len(), 3);
    assert_eq!(resolved[0].as_ref().unwrap().title, "base");
    assert_eq!(resolved[1].as_ref().unwrap().title, "base");
    assert!(matches!(resolved[2], Err(Error::InfiniteParents(2))));
}

#[test]
fn invalid_frame_fails_the_whole_document() {
    let mut doc = Fold::new();
    let mut child = Frame::new();
    child.graph.vertices_coordinates = vec![vec![0, 0], vec![0]];
    doc.frames = vec![child];
    assert_eq!(doc.validate(), Err(Error::NonUniformCoordinateDimension(1)));
}

#[test]
fn inherited_graph_is_what_gets_validated() {
    let mut doc = Fold::new();
    // The key frame's graph is broken, but the child supplies its own
    // arrays for the broken fields, so the child still validates.
    doc.key_frame.graph.vertices_coordinates = vec![vec![0, 0], vec![0]];
    let mut child = Frame::new();
    child.graph = triangle_graph();
    child.parent = Some(0);
    child.inherit = true;
    doc.frames = vec![child];
    assert_eq!(doc.validate_frame(1), Ok(()));
    assert_eq!(doc.validate_frame(0), Err(Error::NonUniformCoordinateDimension(1)));
    assert_eq!(doc.validate(), Err(Error::NonUniformCoordinateDimension(1)));
}

#[test]
fn new_document_has_the_default_version() {
    let doc = Fold::new();
    assert_eq!(doc.version, "1.2");
    assert_eq!(doc.frames.len(), 0);
    assert!(doc.key_frame.custom_data.is_empty());
}

#[test]
fn parent_chain_walk_reports_the_first_fault() {
    let mut doc = Fold::new();
    let mut stray = Frame::new();
    stray.parent = Some(7);
    let mut looped = Frame::new();
    looped.parent = Some(2);
    doc.frames = vec![stray, looped];
    assert_eq!(validate_frame_parents(&doc, 0), Ok(()));
    assert_eq!(validate_frame_parents(&doc, 1), Err(Error::MissingParent(1, 7)));
    assert_eq!(validate_frame_parents(&doc, 2), Err(Error::InfiniteParents(2)));
}

#[test]
fn single_checks_can_run_on_their_own() {
    let mut g = Graph::new();
    g.vertices_coordinates = vec![vec![0, 0], vec![1000, 0]];
    g.vertices_vertices = vec![vec![1]];
    assert_eq!(
        validate_vertices_vertices_length(&g),
        Err(Error::LengthMismatch(fold::LengthPair::VV))
    );
    g.faces_vertices = vec![vec![0, 1]];
    assert_eq!(validate_faces_vertices(&g), Err(Error::DegenerateFace(0)));
}
