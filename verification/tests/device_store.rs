use hc_homie5::{
    DescriptionUpdate, DeviceRef, DeviceRemove, DeviceStore, DeviceUpdate, HomieDeviceDescription,
    HomieDeviceStatus, HomieDomain, HomieID,
};

fn id(s: &str) -> HomieID {
    HomieID::try_new(s.to_string()).unwrap()
}

fn dref(s: &str) -> DeviceRef {
    DeviceRef::new(HomieDomain::Default, id(s))
}

fn description(version: i64) -> HomieDeviceDescription {
    HomieDeviceDescription {
        name: None,
        version,
        homie: "5.0".to_string(),
        children: vec![],
        root: None,
        parent: None,
        extensions: vec![],
        nodes: vec![],
    }
}

// Feeding a status creates the device once and reports exactly one state
// update for a changed status; an unchanged status changes nothing.
#[test]
fn test_add_device_states() {
    let mut store = DeviceStore::new();
    let d = dref("device-1");

    match store.add(&d, HomieDeviceStatus::Init) {
        DeviceUpdate::Added(r) => assert_eq!(&r, &d),
        _ => panic!("first status must add the device"),
    }
    assert_eq!(store.count(), 1);
    assert_eq!(store.device_state(&d), Some(HomieDeviceStatus::Init));

    match store.add(&d, HomieDeviceStatus::Init) {
        DeviceUpdate::NoChange => {}
        _ => panic!("an unchanged status must report NoChange"),
    }
    assert_eq!(store.count(), 1);

    match store.add(&d, HomieDeviceStatus::Ready) {
        DeviceUpdate::StateUpdate { device, from, to } => {
            assert_eq!(&device, &d);
            assert_eq!(from, HomieDeviceStatus::Init);
            assert_eq!(to, HomieDeviceStatus::Ready);
        }
        _ => panic!("a changed status must report StateUpdate"),
    }
    assert_eq!(store.device_state(&d), Some(HomieDeviceStatus::Ready));
}

// A description for an undiscovered device is rejected; a version change
// replaces the stored description and hands back the old one; an equal
// version is a no-op.
#[test]
fn test_store_description_versions() {
    let mut store = DeviceStore::new();
    let d = dref("device-1");

    match store.store_description(&d, description(1)) {
        DescriptionUpdate::NotFound => {}
        _ => panic!("a description before discovery must be rejected"),
    }

    store.add(&d, HomieDeviceStatus::Init);
    match store.store_description(&d, description(1)) {
        DescriptionUpdate::Update { device, from } => {
            assert_eq!(&device, &d);
            assert!(from.is_none());
        }
        _ => panic!("the first description must install"),
    }

    match store.store_description(&d, description(1)) {
        DescriptionUpdate::NoChange => {}
        _ => panic!("an equal version must be a no-op"),
    }
    assert_eq!(store.get_device(&d).unwrap().description.as_ref().unwrap().version, 1);

    match store.store_description(&d, description(2)) {
        DescriptionUpdate::Update { device, from } => {
            assert_eq!(&device, &d);
            assert_eq!(from.unwrap().version, 1);
        }
        _ => panic!("a differing version must replace"),
    }
    assert_eq!(store.get_device(&d).unwrap().description.as_ref().unwrap().version, 2);
}

// Removing hands the device out and forgets it.
#[test]
fn test_remove_device() {
    let mut store = DeviceStore::new();
    let d = dref("device-1");
    store.add(&d, HomieDeviceStatus::Init);

    match store.remove_device(&d) {
        DeviceRemove::Removed(device) => assert_eq!(&device.ident, &d),
        DeviceRemove::NotFound => panic!("a stored device must be removable"),
    }
    assert!(!store.contains_device(&d));
    match store.remove_device(&d) {
        DeviceRemove::NotFound => {}
        DeviceRemove::Removed(_) => panic!("a removed device must stay gone"),
    }
}

// A ready sub-device inherits the state of its declared root device.
#[test]
fn test_device_state_resolved() {
    let mut store = DeviceStore::new();
    let root = dref("root-1");
    let sub = dref("sub-1");
    store.add(&root, HomieDeviceStatus::Lost);
    store.add(&sub, HomieDeviceStatus::Ready);

    let mut sub_desc = description(1);
    sub_desc.root = Some(id("root-1"));
    store.store_description(&sub, sub_desc);

    // The sub-device is ready, so it reports its root's state.
    assert_eq!(store.device_state_resolved(&sub), Some(HomieDeviceStatus::Lost));

    // A device that is not ready reports its own state.
    store.add(&sub, HomieDeviceStatus::Sleeping);
    assert_eq!(store.device_state_resolved(&sub), Some(HomieDeviceStatus::Sleeping));

    // An unknown device resolves to nothing.
    assert_eq!(store.device_state_resolved(&dref("ghost")), None);
}

// Orphan detection: a parent that lists the device as a child and has no
// parent itself roots the device; a parent that does not list it orphans
// it; an absent parent orphans it.
#[test]
fn test_orphan_detection() {
    let mut store = DeviceStore::new();
    let parent = dref("parent-1");
    let child = dref("child-1");
    store.add(&parent, HomieDeviceStatus::Ready);
    store.add(&child, HomieDeviceStatus::Ready);

    let mut child_desc = description(1);
    child_desc.parent = Some(id("parent-1"));
    store.store_description(&child, child_desc);

    // The parent lists the child: not orphaned.
    let mut parent_desc = description(1);
    parent_desc.children = vec![id("child-1")];
    store.store_description(&parent, parent_desc);
    let child_dev = store.get_device(&child).unwrap();
    assert!(!store.is_orphaned(child_dev));

    // The parent stops listing the child: orphaned.
    let mut parent_desc = description(2);
    parent_desc.children = vec![id("someone-else")];
    store.store_description(&parent, parent_desc);
    let child_dev = store.get_device(&child).unwrap();
    assert!(store.is_orphaned(child_dev));

    // The parent disappears entirely: orphaned.
    store.remove_device(&parent);
    let child_dev = store.get_device(&child).unwrap();
    assert!(store.is_orphaned(child_dev));

    // A device without a parent declaration is never orphaned.
    let parent_dev_ref = dref("loner");
    store.add(&parent_dev_ref, HomieDeviceStatus::Ready);
    store.store_description(&parent_dev_ref, description(1));
    let loner = store.get_device(&parent_dev_ref).unwrap();
    assert!(!store.is_orphaned(loner));
}

// A cycle among parent declarations terminates and counts as orphaned.
#[test]
fn test_orphan_cycle_guard() {
    let mut store = DeviceStore::new();
    let a = dref("a");
    let b = dref("b");
    store.add(&a, HomieDeviceStatus::Ready);
    store.add(&b, HomieDeviceStatus::Ready);

    let mut a_desc = description(1);
    a_desc.parent = Some(id("b"));
    a_desc.children = vec![id("b")];
    store.store_description(&a, a_desc);

    let mut b_desc = description(1);
    b_desc.parent = Some(id("a"));
    b_desc.children = vec![id("a")];
    store.store_description(&b, b_desc);

    let a_dev = store.get_device(&a).unwrap();
    assert!(store.is_orphaned(a_dev));
}

// Iteration and clearing.
#[test]
fn test_iter_and_clear() {
    let mut store = DeviceStore::new();
    store.add(&dref("one"), HomieDeviceStatus::Init);
    store.add(&dref("two"), HomieDeviceStatus::Init);
    let refs = store.iter();
    assert_eq!(refs.len(), 2);
    assert_eq!(refs[0], dref("one"));
    assert_eq!(refs[1], dref("two"));
    store.clear();
    assert_eq!(store.count(), 0);
}
