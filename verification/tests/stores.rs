use hc_homie5::{
    AlertStore, AlertUpdate, HomieID, HomieValue, PropertyPointer, PropertyValueStore, ValueUpdate,
};

fn id(s: &str) -> HomieID {
    HomieID::try_new(s.to_string()).unwrap()
}

fn pointer(node: &str, prop: &str) -> PropertyPointer {
    PropertyPointer::new(id(node), id(prop))
}

// Storing a value and reading it back yields that value; a second identical
// store reports an unchanged value.
#[test]
fn test_value_store_round_trip() {
    let mut store = PropertyValueStore::new();
    let p = pointer("node-1", "prop-1");

    match store.store_value(&p, HomieValue::Integer(21)) {
        ValueUpdate::Changed { old, new } => {
            assert!(old.is_none());
            assert_eq!(new, HomieValue::Integer(21));
        }
        ValueUpdate::Equal => panic!("first write must report a change"),
    }

    let entry = store.get_value_entry(&p).unwrap();
    assert_eq!(entry.value, Some(HomieValue::Integer(21)));
    assert_eq!(entry.target, None);

    match store.store_value(&p, HomieValue::Integer(21)) {
        ValueUpdate::Equal => {}
        ValueUpdate::Changed { .. } => panic!("identical write must report Equal"),
    }
    assert_eq!(store.count(), 1);
}

// Value and target are independent fields of one entry.
#[test]
fn test_value_store_target_independent() {
    let mut store = PropertyValueStore::new();
    let p = pointer("node-1", "prop-1");

    match store.store_target(&p, HomieValue::Bool(true)) {
        ValueUpdate::Changed { old, new } => {
            assert!(old.is_none());
            assert_eq!(new, HomieValue::Bool(true));
        }
        ValueUpdate::Equal => panic!("first target write must report a change"),
    }

    store.store_value(&p, HomieValue::Bool(false));
    let entry = store.get_value_entry(&p).unwrap();
    assert_eq!(entry.value, Some(HomieValue::Bool(false)));
    assert_eq!(entry.target, Some(HomieValue::Bool(true)));

    match store.store_target(&p, HomieValue::Bool(false)) {
        ValueUpdate::Changed { old, new } => {
            assert_eq!(old, Some(HomieValue::Bool(true)));
            assert_eq!(new, HomieValue::Bool(false));
        }
        ValueUpdate::Equal => panic!("a differing target must report a change"),
    }
    assert!(store.contains_key(&p));
    assert!(!store.contains_key(&pointer("node-1", "other")));
}

// A changed value reports both the old and the new value.
#[test]
fn test_value_store_change_reports_old() {
    let mut store = PropertyValueStore::new();
    let p = pointer("n", "p");
    store.store_value(&p, HomieValue::String("a".to_string()));
    match store.store_value(&p, HomieValue::String("b".to_string())) {
        ValueUpdate::Changed { old, new } => {
            assert_eq!(old, Some(HomieValue::String("a".to_string())));
            assert_eq!(new, HomieValue::String("b".to_string()));
        }
        ValueUpdate::Equal => panic!("a differing value must report a change"),
    }
}

// The alert lifecycle: new, unchanged, changed, cleared, already absent.
#[test]
fn test_alert_lifecycle() {
    let mut store = AlertStore::new();
    let alert_id = id("overheat");

    match store.store_alert(alert_id.clone(), "x".to_string()) {
        AlertUpdate::New { id: i, alert } => {
            assert_eq!(i.as_str(), "overheat");
            assert_eq!(alert, "x".to_string());
        }
        _ => panic!("first store must report New"),
    }

    match store.store_alert(alert_id.clone(), "x".to_string()) {
        AlertUpdate::Equal => {}
        _ => panic!("identical store must report Equal"),
    }

    match store.store_alert(alert_id.clone(), "y".to_string()) {
        AlertUpdate::Changed {
            id: i,
            old_alert,
            new_alert,
        } => {
            assert_eq!(i.as_str(), "overheat");
            assert_eq!(old_alert, "x".to_string());
            assert_eq!(new_alert, "y".to_string());
        }
        _ => panic!("a differing text must report Changed"),
    }

    match store.store_alert(alert_id.clone(), "".to_string()) {
        AlertUpdate::Cleared { id: i } => assert_eq!(i.as_str(), "overheat"),
        _ => panic!("an empty text on an active alert must report Cleared"),
    }

    match store.store_alert(alert_id.clone(), "".to_string()) {
        AlertUpdate::NoChange => {}
        _ => panic!("an empty text on an absent alert must report NoChange"),
    }
    assert_eq!(store.count(), 0);
}

// Alerts under different ids do not interfere.
#[test]
fn test_alert_independent_ids() {
    let mut store = AlertStore::new();
    store.store_alert(id("a"), "one".to_string());
    store.store_alert(id("b"), "two".to_string());
    assert_eq!(store.get_alert(&id("a")), Some(&"one".to_string()));
    assert_eq!(store.get_alert(&id("b")), Some(&"two".to_string()));
    store.store_alert(id("a"), "".to_string());
    assert!(store.get_alert(&id("a")).is_none());
    assert_eq!(store.get_alert(&id("b")), Some(&"two".to_string()));
}

// Identifier validation: the allowed characters, and the rejections.
#[test]
fn test_homie_id_validation() {
    assert!(HomieID::try_new("device-01".to_string()).is_ok());
    assert!(HomieID::try_new("".to_string()).is_err());
    assert!(HomieID::try_new("Device-01".to_string()).is_err());
    assert!(HomieID::try_new("has space".to_string()).is_err());
    let ok = HomieID::try_new("a-1".to_string()).unwrap();
    assert_eq!(ok.as_str(), "a-1");
}
