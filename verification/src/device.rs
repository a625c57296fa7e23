//! Devices, their display capabilities, and the device manager.

use vstd::prelude::*;

use crate::registry::Registry;

verus! {

/// The display capabilities of a device: a resolution in pixels and a frame
/// rate. A plain value with no invariants.
#[derive(Clone, Copy, Debug, PartialEq, Eq)]
pub struct ARVRCapabilities {
    pub resolution: (u32, u32),
    pub framerate: u32,
}

/// A named device holding one capabilities value. Identity is the
/// identifier; the value is immutable after construction.
pub struct ARVRDevice {
    id: String,
    capabilities: ARVRCapabilities,
}

impl ARVRDevice {
    /// The contents of this device's identifier.
    pub closed spec fn spec_id(self) -> Seq<char> {
        self.id@
    }

    /// The capabilities this device was constructed with.
    pub closed spec fn spec_capabilities(self) -> ARVRCapabilities {
        self.capabilities
    }

    /// A device with the given identifier and capabilities, stored verbatim.
    pub fn new(id: &str, capabilities: ARVRCapabilities) -> (r: Self)
        ensures
            r.spec_id() == id@,
            r.spec_capabilities() == capabilities,
    {
        ARVRDevice { id: id.to_owned(), capabilities }
    }

    /// The identifier of this device.
    pub fn id(&self) -> (r: &str)
        ensures
            r@ == self.spec_id(),
    {
        self.id.as_str()
    }

    /// The capabilities of this device.
    pub fn capabilities(&self) -> (r: ARVRCapabilities)
        ensures
            r == self.spec_capabilities(),
    {
        self.capabilities
    }
}

/// A registry of devices keyed by device identifier.
pub struct DeviceManager {
    devices: Registry<ARVRDevice>,
}

impl DeviceManager {
    /// The registered devices, as a map from identifier contents to devices.
    pub closed spec fn device_map(self) -> Map<Seq<char>, ARVRDevice> {
        self.devices@
    }

    /// An empty device manager.
    pub fn new() -> (r: Self)
        ensures
            r.device_map() == Map::<Seq<char>, ARVRDevice>::empty(),
    {
        DeviceManager { devices: Registry::new() }
    }

    /// Registers `device` under its own identifier; a device already
    /// registered under an equal identifier is silently replaced (last write
    /// wins).
    pub fn add_device(&mut self, device: ARVRDevice)
        ensures
            final(self).device_map() == old(self).device_map().insert(device.spec_id(), device),
    {
        let id = device.id.clone();
        self.devices.insert(id, device);
    }

    /// Looks up the device registered under `device_id`; reports absence on
    /// an unregistered identifier.
    pub fn get_device(&self, device_id: &str) -> (r: Option<&ARVRDevice>)
        ensures
            match r {
                Some(d) => self.device_map().contains_key(device_id@) && *d == self.device_map()[
                    device_id@
                ],
                None => !self.device_map().contains_key(device_id@),
            },
    {
        self.devices.get(device_id)
    }
}

/// After a device is registered, lookup by its identifier finds a device
/// with matching identifier and bit-for-bit equal capabilities (same
/// resolution pair and frame rate): for manager states related as the
/// contract of [`DeviceManager::add_device`] describes, the identifier is
/// registered and maps to the added device, so [`DeviceManager::get_device`]
/// returns it. (The absent half — lookup of an unregistered identifier —
/// is the `None` case of `get_device`'s own contract.)
pub proof fn lemma_added_device_retrievable(m0: DeviceManager, m1: DeviceManager, d: ARVRDevice)
    requires
        m1.device_map() == m0.device_map().insert(d.spec_id(), d),
    ensures
        m1.device_map().contains_key(d.spec_id()),
        m1.device_map()[d.spec_id()] == d,
        m1.device_map()[d.spec_id()].spec_id() == d.spec_id(),
        m1.device_map()[d.spec_id()].spec_capabilities() == d.spec_capabilities(),
{
}

} // verus!
