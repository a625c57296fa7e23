use arvr_sim::scene::{Scene, SceneGraph, SceneNode};

#[test]
fn scene_node_new_is_leaf() {
    let node = SceneNode::new("node1");
    assert_eq!(node.id(), "node1");
    assert_eq!(node.children().len(), 0);
}

#[test]
fn scene_node_add_child_appends_in_order() {
    let mut parent = SceneNode::new("root");
    parent.add_child(SceneNode::new("first"));
    parent.add_child(SceneNode::new("second"));
    assert_eq!(parent.id(), "root");
    assert_eq!(parent.children().len(), 2);
    assert_eq!(parent.children()[0].id(), "first");
    assert_eq!(parent.children()[1].id(), "second");
}

#[test]
fn scene_new_is_empty() {
    let scene = Scene::new("scene1");
    assert_eq!(scene.id(), "scene1");
    assert_eq!(scene.nodes().len(), 0);
}

#[test]
fn scene_add_node_appends_in_order() {
    let mut scene = Scene::new("scene1");
    scene.add_node(SceneNode::new("a"));
    scene.add_node(SceneNode::new("b"));
    assert_eq!(scene.nodes().len(), 2);
    assert_eq!(scene.nodes()[0].id(), "a");
    assert_eq!(scene.nodes()[1].id(), "b");
}

#[test]
fn added_scene_is_current_after_set() {
    let mut graph = SceneGraph::new();
    let mut scene = Scene::new("scene1");
    scene.add_node(SceneNode::new("node1"));
    graph.add_scene(scene);
    graph.set_current_scene("scene1");
    let current = graph.get_current_scene().expect("current scene should be registered");
    assert_eq!(current.id(), "scene1");
    assert_eq!(current.nodes().len(), 1);
    assert_eq!(current.nodes()[0].id(), "node1");
}

#[test]
fn current_scene_absent_before_any_set() {
    let graph = SceneGraph::new();
    assert!(graph.get_current_scene().is_none());
}

#[test]
fn current_scene_absent_for_unregistered_id() {
    let mut graph = SceneGraph::new();
    graph.add_scene(Scene::new("scene1"));
    graph.set_current_scene("never-registered");
    assert!(graph.get_current_scene().is_none());
}

#[test]
fn duplicate_add_replaces_stored_scene() {
    let mut graph = SceneGraph::new();
    let mut older = Scene::new("scene1");
    older.add_node(SceneNode::new("old-node"));
    graph.add_scene(older);

    let mut newer = Scene::new("scene1");
    newer.add_node(SceneNode::new("new-node"));
    graph.add_scene(newer);

    graph.set_current_scene("scene1");
    let current = graph.get_current_scene().expect("scene1 should be registered");
    assert_eq!(current.nodes().len(), 1);
    assert_eq!(current.nodes()[0].id(), "new-node");
}

#[test]
fn distinct_adds_are_all_retained() {
    let mut graph = SceneGraph::new();
    graph.add_scene(Scene::new("a"));
    graph.add_scene(Scene::new("b"));
    graph.add_scene(Scene::new("c"));
    for id in ["a", "b", "c"] {
        graph.set_current_scene(id);
        let current = graph.get_current_scene().expect("scene should be registered");
        assert_eq!(current.id(), id);
    }
}

#[test]
fn empty_id_scene_is_found_once_registered() {
    let mut graph = SceneGraph::new();
    graph.add_scene(Scene::new(""));
    graph.set_current_scene("");
    let current = graph.get_current_scene().expect("empty id was registered");
    assert_eq!(current.id(), "");
}
