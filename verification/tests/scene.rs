use vacation::document::{Document, Node};
use vacation::error::Error;
use vacation::scene::walk;

fn node(children: &[u32]) -> Node {
    Node { mesh: None, translation: None, rotation: None, scale: None, children: children.to_vec() }
}

fn document(nodes: Vec<Node>) -> Document {
    Document {
        buffers: Vec::new(),
        buffer_views: Vec::new(),
        accessors: Vec::new(),
        meshes: Vec::new(),
        nodes,
        scenes: Vec::new(),
        materials: Vec::new(),
        textures: Vec::new(),
        images: Vec::new(),
        samplers: Vec::new(),
        extensions_used: Vec::new(),
    }
}

#[test]
fn walk_lists_parent_before_children() {
    //      0
    //    /   \
    //   2     1
    //  / \    |
    // 4   3   5
    let doc = document(vec![
        node(&[2, 1]),
        node(&[5]),
        node(&[4, 3]),
        node(&[]),
        node(&[]),
        node(&[]),
    ]);
    assert_eq!(
        walk(&doc, 0),
        Ok(vec![(0, 0), (2, 1), (4, 2), (3, 2), (1, 1), (5, 2)])
    );
    assert_eq!(walk(&doc, 2), Ok(vec![(2, 0), (4, 1), (3, 1)]));
    assert_eq!(walk(&doc, 5), Ok(vec![(5, 0)]));
}

#[test]
fn walk_follows_a_chain_through_every_node() {
    let doc = document(vec![node(&[1]), node(&[2]), node(&[3]), node(&[])]);
    assert_eq!(walk(&doc, 0), Ok(vec![(0, 0), (1, 1), (2, 2), (3, 3)]));
}

#[test]
fn walk_refuses_indices_that_name_no_node() {
    let doc = document(vec![node(&[1]), node(&[7])]);
    assert_eq!(walk(&doc, 0), Err(Error::OutOfBounds));
    assert_eq!(walk(&doc, 2), Err(Error::OutOfBounds));
    assert_eq!(walk(&document(Vec::new()), 0), Err(Error::OutOfBounds));
}

#[test]
fn walk_stops_on_a_cycle() {
    let doc = document(vec![node(&[1]), node(&[2]), node(&[0])]);
    assert_eq!(walk(&doc, 0), Err(Error::FormatError));
    let doc = document(vec![node(&[0])]);
    assert_eq!(walk(&doc, 0), Err(Error::FormatError));
}

#[test]
fn walk_lists_a_shared_node_once_per_parent() {
    let doc = document(vec![node(&[1, 2]), node(&[3]), node(&[3]), node(&[])]);
    assert_eq!(walk(&doc, 0), Ok(vec![(0, 0), (1, 1), (3, 2), (2, 1), (3, 2)]));
}
