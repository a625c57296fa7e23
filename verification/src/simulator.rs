//! The simulator facade composing one scene graph and one device manager.
//!
//! The facade forwards each operation to the registry it concerns; none of
//! the forwarded operations can fail. Callers that need shared access from
//! several threads wrap the simulator (or each registry) in a
//! mutual-exclusion lock of their own; the operations here take `&mut self`
//! and are verified against the registries' map models.

use vstd::prelude::*;

use crate::device::{ARVRDevice, DeviceManager};
use crate::scene::{Scene, SceneGraph};

verus! {

/// A facade owning one [`SceneGraph`] and one [`DeviceManager`] and exposing
/// the operations external callers use.
pub struct Simulator {
    scene_graph: SceneGraph,
    device_manager: DeviceManager,
}

impl Simulator {
    /// The scene graph owned by this simulator.
    pub closed spec fn spec_scene_graph(self) -> SceneGraph {
        self.scene_graph
    }

    /// The device manager owned by this simulator.
    pub closed spec fn spec_device_manager(self) -> DeviceManager {
        self.device_manager
    }

    /// A simulator with an empty scene graph and an empty device manager.
    pub fn new() -> (r: Self)
        ensures
            r.spec_scene_graph().scene_map() == Map::<Seq<char>, Scene>::empty(),
            r.spec_scene_graph().current() == Seq::<char>::empty(),
            r.spec_device_manager().device_map() == Map::<Seq<char>, ARVRDevice>::empty(),
    {
        Simulator { scene_graph: SceneGraph::new(), device_manager: DeviceManager::new() }
    }

    /// Registers `scene` in the scene graph; the device manager is untouched.
    pub fn add_scene(&mut self, scene: Scene)
        ensures
            final(self).spec_scene_graph().scene_map() == old(self).spec_scene_graph().scene_map()
                .insert(scene.spec_id(), scene),
            final(self).spec_scene_graph().current() == old(self).spec_scene_graph().current(),
            final(self).spec_device_manager() == old(self).spec_device_manager(),
    {
        self.scene_graph.add_scene(scene);
    }

    /// Stores `scene_id` as the scene graph's current identifier; the device
    /// manager is untouched.
    pub fn set_current_scene(&mut self, scene_id: &str)
        ensures
            final(self).spec_scene_graph().scene_map() == old(self).spec_scene_graph().scene_map(),
            final(self).spec_scene_graph().current() == scene_id@,
            final(self).spec_device_manager() == old(self).spec_device_manager(),
    {
        self.scene_graph.set_current_scene(scene_id);
    }

    /// Registers `device` in the device manager; the scene graph is
    /// untouched.
    pub fn add_device(&mut self, device: ARVRDevice)
        ensures
            final(self).spec_device_manager().device_map() == old(
                self,
            ).spec_device_manager().device_map().insert(device.spec_id(), device),
            final(self).spec_scene_graph() == old(self).spec_scene_graph(),
    {
        self.device_manager.add_device(device);
    }

    /// The scene graph, for lookups.
    pub fn scene_graph(&self) -> (r: &SceneGraph)
        ensures
            *r == self.spec_scene_graph(),
    {
        &self.scene_graph
    }

    /// The device manager, for lookups.
    pub fn device_manager(&self) -> (r: &DeviceManager)
        ensures
            *r == self.spec_device_manager(),
    {
        &self.device_manager
    }
}

} // verus!
