use hc_homie5::{
    DeviceRef, DeviceStore, DiscoveryAction, DiscoveryError, HomieDataType,
    HomieDeviceDescription, HomieDeviceStatus, HomieDomain, HomieID, HomieNodeDescription,
    HomiePropertyDescription, HomieDiscovery, HomieValue, PropertyRef, ProtocolMessage,
    SubscriptionCommand,
};

fn id(s: &str) -> HomieID {
    HomieID::try_new(s.to_string()).unwrap()
}

fn dref(s: &str) -> DeviceRef {
    DeviceRef::new(HomieDomain::Default, id(s))
}

fn pref(device: &str, node: &str, prop: &str) -> PropertyRef {
    PropertyRef::new(HomieDomain::Default, id(device), id(node), id(prop))
}

fn described_device(version: i64, retained: bool) -> HomieDeviceDescription {
    HomieDeviceDescription {
        name: None,
        version,
        homie: "5.0".to_string(),
        children: vec![],
        root: None,
        parent: None,
        extensions: vec![],
        nodes: vec![(
            id("node-1"),
            HomieNodeDescription {
                name: None,
                typ: None,
                properties: vec![(
                    id("temp"),
                    HomiePropertyDescription {
                        name: None,
                        datatype: HomieDataType::Integer,
                        format: "".to_string(),
                        settable: false,
                        retained,
                        unit: None,
                    },
                )],
            },
        )],
    }
}

// A first status message creates the device, subscribes to it and reports
// it as new; a repeat is silent; a change reports the transition.
#[test]
fn test_engine_device_state() {
    let engine = HomieDiscovery::new();
    let mut store = DeviceStore::new();

    let (action, cmds) = engine
        .handle_event(
            ProtocolMessage::DeviceState {
                device: dref("device-1"),
                state: HomieDeviceStatus::Init,
            },
            &mut store,
        )
        .unwrap();
    match action {
        Some(DiscoveryAction::NewDevice { device, status }) => {
            assert_eq!(&device, &dref("device-1"));
            assert_eq!(status, HomieDeviceStatus::Init);
        }
        _ => panic!("a first status must report a new device"),
    }
    assert_eq!(cmds.len(), 1);
    assert!(matches!(cmds[0], SubscriptionCommand::SubscribeDevice(_)));

    let (action, cmds) = engine
        .handle_event(
            ProtocolMessage::DeviceState {
                device: dref("device-1"),
                state: HomieDeviceStatus::Init,
            },
            &mut store,
        )
        .unwrap();
    assert!(action.is_none());
    assert!(cmds.is_empty());

    let (action, _) = engine
        .handle_event(
            ProtocolMessage::DeviceState {
                device: dref("device-1"),
                state: HomieDeviceStatus::Ready,
            },
            &mut store,
        )
        .unwrap();
    match action {
        Some(DiscoveryAction::StateChanged { from, to, .. }) => {
            assert_eq!(from, HomieDeviceStatus::Init);
            assert_eq!(to, HomieDeviceStatus::Ready);
        }
        _ => panic!("a changed status must report the transition"),
    }
}

// A description before discovery is a protocol error; the first install
// subscribes to the new properties; an equal version is silent; a version
// change turns the subscriptions over.
#[test]
fn test_engine_device_description() {
    let engine = HomieDiscovery::new();
    let mut store = DeviceStore::new();

    let err = engine
        .handle_event(
            ProtocolMessage::DeviceDescription {
                device: dref("device-1"),
                description: described_device(1, true),
            },
            &mut store,
        )
        .unwrap_err();
    match err {
        DiscoveryError::DescriptionForNonExistingDevice(d) => {
            assert_eq!(&d, &dref("device-1"));
        }
    }

    engine
        .handle_event(
            ProtocolMessage::DeviceState {
                device: dref("device-1"),
                state: HomieDeviceStatus::Init,
            },
            &mut store,
        )
        .unwrap();

    let (action, cmds) = engine
        .handle_event(
            ProtocolMessage::DeviceDescription {
                device: dref("device-1"),
                description: described_device(1, true),
            },
            &mut store,
        )
        .unwrap();
    assert!(matches!(action, Some(DiscoveryAction::DeviceDescriptionChanged(_))));
    assert_eq!(cmds.len(), 1);
    assert!(matches!(cmds[0], SubscriptionCommand::SubscribeProps { .. }));

    let (action, cmds) = engine
        .handle_event(
            ProtocolMessage::DeviceDescription {
                device: dref("device-1"),
                description: described_device(1, true),
            },
            &mut store,
        )
        .unwrap();
    assert!(action.is_none());
    assert!(cmds.is_empty());

    let (action, cmds) = engine
        .handle_event(
            ProtocolMessage::DeviceDescription {
                device: dref("device-1"),
                description: described_device(2, true),
            },
            &mut store,
        )
        .unwrap();
    assert!(matches!(action, Some(DiscoveryAction::DeviceDescriptionChanged(_))));
    assert_eq!(cmds.len(), 2);
    match &cmds[0] {
        SubscriptionCommand::UnsubscribeProps { description, .. } => {
            assert_eq!(description.version, 1);
        }
        _ => panic!("the old property set must be unsubscribed first"),
    }
    match &cmds[1] {
        SubscriptionCommand::SubscribeProps { description, .. } => {
            assert_eq!(description.version, 2);
        }
        _ => panic!("the new property set must be subscribed second"),
    }
}

// A retained property value is parsed against the declared type, stored,
// and reported on change only; a payload that does not parse is dropped.
#[test]
fn test_engine_property_value() {
    let engine = HomieDiscovery::new();
    let mut store = DeviceStore::new();
    engine
        .handle_event(
            ProtocolMessage::DeviceState {
                device: dref("device-1"),
                state: HomieDeviceStatus::Init,
            },
            &mut store,
        )
        .unwrap();
    engine
        .handle_event(
            ProtocolMessage::DeviceDescription {
                device: dref("device-1"),
                description: described_device(1, true),
            },
            &mut store,
        )
        .unwrap();

    let prop = pref("device-1", "node-1", "temp");
    let (action, _) = engine
        .handle_event(
            ProtocolMessage::PropertyValue {
                property: prop.clone(),
                value: "21".to_string(),
            },
            &mut store,
        )
        .unwrap();
    match action {
        Some(DiscoveryAction::DevicePropertyValueChanged { from, to, .. }) => {
            assert!(from.is_none());
            assert_eq!(to, HomieValue::Integer(21));
        }
        _ => panic!("a first retained value must report a change"),
    }
    assert_eq!(
        store.get_property_value(&prop),
        Some(&HomieValue::Integer(21))
    );

    // The same value again is absorbed.
    let (action, _) = engine
        .handle_event(
            ProtocolMessage::PropertyValue {
                property: prop.clone(),
                value: "21".to_string(),
            },
            &mut store,
        )
        .unwrap();
    assert!(action.is_none());

    // A differing value reports old and new.
    let (action, _) = engine
        .handle_event(
            ProtocolMessage::PropertyValue {
                property: prop.clone(),
                value: "25".to_string(),
            },
            &mut store,
        )
        .unwrap();
    match action {
        Some(DiscoveryAction::DevicePropertyValueChanged { from, to, .. }) => {
            assert_eq!(from, Some(HomieValue::Integer(21)));
            assert_eq!(to, HomieValue::Integer(25));
        }
        _ => panic!("a differing retained value must report a change"),
    }

    // A malformed payload is dropped silently.
    let (action, _) = engine
        .handle_event(
            ProtocolMessage::PropertyValue {
                property: prop.clone(),
                value: "not-a-number".to_string(),
            },
            &mut store,
        )
        .unwrap();
    assert!(action.is_none());
    assert_eq!(
        store.get_property_value(&prop),
        Some(&HomieValue::Integer(25))
    );
}

// A duration property parses the ISO form into milliseconds; a payload
// beyond the representable range is dropped rather than crashing the
// engine.
#[test]
fn test_engine_duration_value() {
    let engine = HomieDiscovery::new();
    let mut store = DeviceStore::new();
    engine
        .handle_event(
            ProtocolMessage::DeviceState {
                device: dref("device-1"),
                state: HomieDeviceStatus::Init,
            },
            &mut store,
        )
        .unwrap();
    let mut desc = described_device(1, true);
    desc.nodes[0].1.properties[0].1.datatype = HomieDataType::Duration;
    engine
        .handle_event(
            ProtocolMessage::DeviceDescription {
                device: dref("device-1"),
                description: desc,
            },
            &mut store,
        )
        .unwrap();

    let prop = pref("device-1", "node-1", "temp");
    let (action, _) = engine
        .handle_event(
            ProtocolMessage::PropertyValue {
                property: prop.clone(),
                value: "PT12H5M46S".to_string(),
            },
            &mut store,
        )
        .unwrap();
    match action {
        Some(DiscoveryAction::DevicePropertyValueChanged { to, .. }) => {
            assert_eq!(to, HomieValue::Duration(43_546_000));
        }
        _ => panic!("a valid duration must be stored and reported"),
    }

    let (action, _) = engine
        .handle_event(
            ProtocolMessage::PropertyValue {
                property: prop.clone(),
                value: "PT99999999999999999999H".to_string(),
            },
            &mut store,
        )
        .unwrap();
    assert!(action.is_none());
    assert_eq!(
        store.get_property_value(&prop),
        Some(&HomieValue::Duration(43_546_000))
    );
}

// An integer property with a stepped range snaps the stored value to the
// step.
#[test]
fn test_engine_stepped_integer_value() {
    let engine = HomieDiscovery::new();
    let mut store = DeviceStore::new();
    engine
        .handle_event(
            ProtocolMessage::DeviceState {
                device: dref("device-1"),
                state: HomieDeviceStatus::Init,
            },
            &mut store,
        )
        .unwrap();
    let mut desc = described_device(1, true);
    desc.nodes[0].1.properties[0].1.format = "0:20:5".to_string();
    engine
        .handle_event(
            ProtocolMessage::DeviceDescription {
                device: dref("device-1"),
                description: desc,
            },
            &mut store,
        )
        .unwrap();

    let prop = pref("device-1", "node-1", "temp");
    let (action, _) = engine
        .handle_event(
            ProtocolMessage::PropertyValue {
                property: prop.clone(),
                value: "7".to_string(),
            },
            &mut store,
        )
        .unwrap();
    match action {
        Some(DiscoveryAction::DevicePropertyValueChanged { to, .. }) => {
            assert_eq!(to, HomieValue::Integer(5));
        }
        _ => panic!("a stepped integer must be snapped and stored"),
    }
}

// A non-retained property triggers on every message and is never stored.
#[test]
fn test_engine_property_value_not_retained() {
    let engine = HomieDiscovery::new();
    let mut store = DeviceStore::new();
    engine
        .handle_event(
            ProtocolMessage::DeviceState {
                device: dref("device-1"),
                state: HomieDeviceStatus::Init,
            },
            &mut store,
        )
        .unwrap();
    engine
        .handle_event(
            ProtocolMessage::DeviceDescription {
                device: dref("device-1"),
                description: described_device(1, false),
            },
            &mut store,
        )
        .unwrap();

    let prop = pref("device-1", "node-1", "temp");
    for _ in 0..2 {
        let (action, _) = engine
            .handle_event(
                ProtocolMessage::PropertyValue {
                    property: prop.clone(),
                    value: "7".to_string(),
                },
                &mut store,
            )
            .unwrap();
        match action {
            Some(DiscoveryAction::DevicePropertyValueTriggered { value, .. }) => {
                assert_eq!(value, HomieValue::Integer(7));
            }
            _ => panic!("a non-retained value must trigger every time"),
        }
    }
    assert!(store.get_property_value(&prop).is_none());
}

// A property target is always persisted and reported on change.
#[test]
fn test_engine_property_target() {
    let engine = HomieDiscovery::new();
    let mut store = DeviceStore::new();
    engine
        .handle_event(
            ProtocolMessage::DeviceState {
                device: dref("device-1"),
                state: HomieDeviceStatus::Init,
            },
            &mut store,
        )
        .unwrap();
    engine
        .handle_event(
            ProtocolMessage::DeviceDescription {
                device: dref("device-1"),
                description: described_device(1, true),
            },
            &mut store,
        )
        .unwrap();

    let prop = pref("device-1", "node-1", "temp");
    let (action, _) = engine
        .handle_event(
            ProtocolMessage::PropertyTarget {
                property: prop.clone(),
                target: "30".to_string(),
            },
            &mut store,
        )
        .unwrap();
    match action {
        Some(DiscoveryAction::DevicePropertyTargetChanged { from, to, .. }) => {
            assert!(from.is_none());
            assert_eq!(to, HomieValue::Integer(30));
        }
        _ => panic!("a first target must report a change"),
    }

    let (action, _) = engine
        .handle_event(
            ProtocolMessage::PropertyTarget {
                property: prop.clone(),
                target: "30".to_string(),
            },
            &mut store,
        )
        .unwrap();
    assert!(action.is_none());
}

// Device alerts map the store outcome to the matching action.
#[test]
fn test_engine_device_alert() {
    let engine = HomieDiscovery::new();
    let mut store = DeviceStore::new();
    engine
        .handle_event(
            ProtocolMessage::DeviceState {
                device: dref("device-1"),
                state: HomieDeviceStatus::Init,
            },
            &mut store,
        )
        .unwrap();

    let (action, _) = engine
        .handle_event(
            ProtocolMessage::DeviceAlert {
                device: dref("device-1"),
                alert_id: id("overheat"),
                alert_msg: "x".to_string(),
            },
            &mut store,
        )
        .unwrap();
    assert!(matches!(action, Some(DiscoveryAction::DeviceAlert { .. })));

    let (action, _) = engine
        .handle_event(
            ProtocolMessage::DeviceAlert {
                device: dref("device-1"),
                alert_id: id("overheat"),
                alert_msg: "y".to_string(),
            },
            &mut store,
        )
        .unwrap();
    match action {
        Some(DiscoveryAction::DeviceAlertChanged {
            from_alert,
            to_alert,
            ..
        }) => {
            assert_eq!(from_alert, "x".to_string());
            assert_eq!(to_alert, "y".to_string());
        }
        _ => panic!("a differing alert must report the change"),
    }

    let (action, _) = engine
        .handle_event(
            ProtocolMessage::DeviceAlert {
                device: dref("device-1"),
                alert_id: id("overheat"),
                alert_msg: "".to_string(),
            },
            &mut store,
        )
        .unwrap();
    assert!(matches!(action, Some(DiscoveryAction::DeviceAlertCleared { .. })));
}

// Removal unsubscribes from the device and its described properties, evicts
// it, and emits no consumer action.
#[test]
fn test_engine_device_removal() {
    let engine = HomieDiscovery::new();
    let mut store = DeviceStore::new();
    engine
        .handle_event(
            ProtocolMessage::DeviceState {
                device: dref("device-1"),
                state: HomieDeviceStatus::Init,
            },
            &mut store,
        )
        .unwrap();
    engine
        .handle_event(
            ProtocolMessage::DeviceDescription {
                device: dref("device-1"),
                description: described_device(1, true),
            },
            &mut store,
        )
        .unwrap();

    let (action, cmds) = engine
        .handle_event(
            ProtocolMessage::DeviceRemoval {
                device: dref("device-1"),
            },
            &mut store,
        )
        .unwrap();
    assert!(action.is_none());
    assert_eq!(cmds.len(), 2);
    assert!(matches!(cmds[0], SubscriptionCommand::UnsubscribeDevice(_)));
    assert!(matches!(cmds[1], SubscriptionCommand::UnsubscribeProps { .. }));
    assert!(!store.contains_device(&dref("device-1")));
}

// Any other message kind passes through unhandled.
#[test]
fn test_engine_unhandled() {
    let engine = HomieDiscovery::new();
    let mut store = DeviceStore::new();
    let (action, cmds) = engine
        .handle_event(
            ProtocolMessage::Broadcast {
                homie_domain: HomieDomain::Default,
                subtopic: "news".to_string(),
                data: "hello".to_string(),
            },
            &mut store,
        )
        .unwrap();
    match action {
        Some(DiscoveryAction::Unhandled(ProtocolMessage::Broadcast { subtopic, .. })) => {
            assert_eq!(subtopic, "news".to_string());
        }
        _ => panic!("an unknown message kind must pass through"),
    }
    assert!(cmds.is_empty());
}

// Starting and stopping discovery produce the paired subscription commands.
#[test]
fn test_engine_discover_commands() {
    let engine = HomieDiscovery::new();
    let start = engine.discover(&HomieDomain::Default);
    assert_eq!(start.len(), 2);
    assert!(matches!(start[0], SubscriptionCommand::SubscribeDeviceDiscovery(_)));
    assert!(matches!(start[1], SubscriptionCommand::SubscribeBroadcast(_)));
    let stop = engine.stop_discover(&HomieDomain::Default);
    assert_eq!(stop.len(), 2);
    assert!(matches!(stop[0], SubscriptionCommand::UnsubscribeDeviceDiscovery(_)));
    assert!(matches!(stop[1], SubscriptionCommand::UnsubscribeBroadcast(_)));
}
