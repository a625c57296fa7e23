use arvr_sim::device::{ARVRCapabilities, ARVRDevice, DeviceManager};

#[test]
fn device_new_stores_fields_verbatim() {
    let caps = ARVRCapabilities { resolution: (1920, 1080), framerate: 90 };
    let device = ARVRDevice::new("headset", caps);
    assert_eq!(device.id(), "headset");
    assert_eq!(device.capabilities(), caps);
}

#[test]
fn get_device_absent_for_unregistered_id() {
    let manager = DeviceManager::new();
    assert!(manager.get_device("device1").is_none());
    assert!(manager.get_device("").is_none());
}

#[test]
fn added_device_is_retrievable_bit_for_bit() {
    let mut manager = DeviceManager::new();
    let caps = ARVRCapabilities { resolution: (1024, 768), framerate: 60 };
    manager.add_device(ARVRDevice::new("device1", caps));
    let got = manager.get_device("device1").expect("device1 should be registered");
    assert_eq!(got.id(), "device1");
    assert_eq!(got.capabilities().resolution, (1024, 768));
    assert_eq!(got.capabilities().framerate, 60);
}

#[test]
fn duplicate_add_replaces_stored_device() {
    let mut manager = DeviceManager::new();
    manager.add_device(ARVRDevice::new(
        "device1",
        ARVRCapabilities { resolution: (800, 600), framerate: 30 },
    ));
    manager.add_device(ARVRDevice::new(
        "device1",
        ARVRCapabilities { resolution: (1024, 768), framerate: 60 },
    ));
    let got = manager.get_device("device1").expect("device1 should be registered");
    assert_eq!(got.capabilities(), ARVRCapabilities { resolution: (1024, 768), framerate: 60 });
}

#[test]
fn distinct_devices_are_all_retained() {
    let mut manager = DeviceManager::new();
    manager.add_device(ARVRDevice::new(
        "left",
        ARVRCapabilities { resolution: (100, 100), framerate: 1 },
    ));
    manager.add_device(ARVRDevice::new(
        "right",
        ARVRCapabilities { resolution: (200, 200), framerate: 2 },
    ));
    assert_eq!(manager.get_device("left").unwrap().capabilities().framerate, 1);
    assert_eq!(manager.get_device("right").unwrap().capabilities().framerate, 2);
    assert!(manager.get_device("middle").is_none());
}
