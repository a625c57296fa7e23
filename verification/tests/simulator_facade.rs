use arvr_sim::device::{ARVRCapabilities, ARVRDevice};
use arvr_sim::scene::{Scene, SceneNode};
use arvr_sim::simulator::Simulator;

#[test]
fn fresh_simulator_has_nothing_registered() {
    let sim = Simulator::new();
    assert!(sim.scene_graph().get_current_scene().is_none());
    assert!(sim.device_manager().get_device("device1").is_none());
}

#[test]
fn end_to_end_scenario() {
    let mut sim = Simulator::new();

    let mut scene = Scene::new("scene1");
    scene.add_node(SceneNode::new("node1"));
    sim.add_scene(scene);

    let device = ARVRDevice::new(
        "device1",
        ARVRCapabilities { resolution: (1024, 768), framerate: 60 },
    );
    sim.add_device(device);

    sim.set_current_scene("scene1");

    let current = sim.scene_graph().get_current_scene().expect("scene1 is current");
    assert_eq!(current.id(), "scene1");
    assert_eq!(current.nodes().len(), 1);
    assert_eq!(current.nodes()[0].id(), "node1");

    let got = sim.device_manager().get_device("device1").expect("device1 is registered");
    assert_eq!(got.capabilities().resolution, (1024, 768));
    assert_eq!(got.capabilities().framerate, 60);
}

#[test]
fn facade_keeps_registries_independent() {
    let mut sim = Simulator::new();
    sim.add_device(ARVRDevice::new(
        "device1",
        ARVRCapabilities { resolution: (640, 480), framerate: 24 },
    ));
    sim.add_scene(Scene::new("scene1"));
    sim.set_current_scene("device1");
    // The current pointer is looked up among scenes only.
    assert!(sim.scene_graph().get_current_scene().is_none());
    assert!(sim.device_manager().get_device("device1").is_some());
    assert!(sim.device_manager().get_device("scene1").is_none());
}
