//! The discovery reconciliation engine: consumes parsed protocol messages,
//! mutates the device store, and derives both the domain-level action for
//! the consumer and the subscription commands the transport has to perform,
//! in order, before the action takes effect.
use crate::device_description::{find_property, HomieDeviceDescription};
use crate::device_store::{
    prop_device_key, prop_pointer_key, DescriptionUpdate, Device, DeviceRemove, DeviceStore,
    DeviceUpdate, DeviceView,
};
use crate::ids::{DeviceRef, DeviceRefView, HomieDeviceStatus, HomieDomain, HomieID, PropertyRef};
use crate::lookup::seq_find;
use crate::property_value_store::{opt_value_view, store_target_post, store_value_post, ValueUpdate};
use crate::value::{HomieValue, ValueView};
use crate::value_condition::AsMatchStr;
use crate::alert_store::{store_alert_post, AlertUpdate};
use crate::matchers::datatype_str_spec;
use crate::payload::{duration_millis_of, integer_payload_value, parse_duration_millis, parse_integer_payload};
use crate::value::HomieDataType;
use homie5::device_description::HomiePropertyDescription as RawPropertyDescription;
use homie5::device_description::HomiePropertyFormat as RawFormat;
use homie5::HomieDataType as RawDataType;
use homie5::HomieValue as RawValue;
use vstd::prelude::*;

verus! {

/// An inbound protocol message, already parsed from the transport.
#[derive(Debug)]
pub enum ProtocolMessage {
    /// A device published its lifecycle state.
    DeviceState { device: DeviceRef, state: HomieDeviceStatus },
    /// A device published its versioned description.
    DeviceDescription { device: DeviceRef, description: HomieDeviceDescription },
    /// A device published a log line.
    DeviceLog { device: DeviceRef, level: String, log_msg: String },
    /// A device raised or cleared an alert.
    DeviceAlert { device: DeviceRef, alert_id: HomieID, alert_msg: String },
    /// A property published its value.
    PropertyValue { property: PropertyRef, value: String },
    /// A property published its intended target value.
    PropertyTarget { property: PropertyRef, target: String },
    /// A command to set a property was observed.
    PropertySet { property: PropertyRef, set_value: String },
    /// A broadcast not tied to one device.
    Broadcast { homie_domain: HomieDomain, subtopic: String, data: String },
    /// A device was removed from the network.
    DeviceRemoval { device: DeviceRef },
}

/// A domain-level change event emitted to the consumer.
#[derive(Debug)]
#[allow(inconsistent_fields)]
pub enum DiscoveryAction {
    NewDevice { device: DeviceRef, status: HomieDeviceStatus },
    DeviceRemoved(Device),
    StateChanged { device: DeviceRef, from: HomieDeviceStatus, to: HomieDeviceStatus },
    DeviceDescriptionChanged(DeviceRef),
    DevicePropertyValueChanged { prop: PropertyRef, from: Option<HomieValue>, to: HomieValue },
    DevicePropertyTargetChanged { prop: PropertyRef, from: Option<HomieValue>, to: HomieValue },
    DevicePropertyValueTriggered { prop: PropertyRef, value: HomieValue },
    DeviceAlert { device: DeviceRef, alert_id: HomieID, alert: String },
    DeviceAlertChanged { device: DeviceRef, alert_id: HomieID, from_alert: String, to_alert: String },
    DeviceAlertCleared { device: DeviceRef, alert_id: HomieID },
    Unhandled(ProtocolMessage),
}

/// A subscription side effect the transport has to perform, in the order
/// the commands are returned, before the action takes effect.
#[derive(Debug)]
pub enum SubscriptionCommand {
    SubscribeDeviceDiscovery(HomieDomain),
    SubscribeBroadcast(HomieDomain),
    UnsubscribeDeviceDiscovery(HomieDomain),
    UnsubscribeBroadcast(HomieDomain),
    SubscribeDevice(DeviceRef),
    UnsubscribeDevice(DeviceRef),
    SubscribeProps { device: DeviceRef, description: HomieDeviceDescription },
    UnsubscribeProps { device: DeviceRef, description: HomieDeviceDescription },
}

/// A protocol consistency error: the message is rejected, the engine and
/// the store go on unchanged.
#[derive(Debug)]
pub enum DiscoveryError {
    /// A description arrived for a device that was never discovered.
    DescriptionForNonExistingDevice(DeviceRef),
}

/// What parsing a raw payload yields, as a function of the raw text, the
/// declared data type's canonical name, and the declared format text alone.
/// `None` stands for a payload that does not parse.
pub uninterp spec fn parsed_value(raw: Seq<char>, datatype: Seq<char>, format: Seq<char>) -> Option<
    ValueView,
>;

/// The outside value type the parser produces; opaque to the verifier and
/// only carried from the parse call into the conversion.
#[verifier::external_type_specification]
#[verifier::external_body]
pub struct ExRawValue(RawValue);

/// Relies on the variants of `homie5::HomieValue`: moves each parsed shape
/// into the library's value representation (a float as its bit pattern, a
/// color or JSON document as canonical text, times as milliseconds).
#[verifier::external_body]
fn convert_value(v: RawValue) -> (r: HomieValue)
{
    match v {
        RawValue::Empty => HomieValue::Empty,
        RawValue::String(s) => HomieValue::String(s),
        RawValue::Integer(i) => HomieValue::Integer(i),
        RawValue::Float(x) => HomieValue::Float(x.to_bits()),
        RawValue::Bool(b) => HomieValue::Bool(b),
        RawValue::Enum(s) => HomieValue::Enum(s),
        RawValue::Color(c) => HomieValue::Color(c.to_string()),
        RawValue::DateTime(t) => HomieValue::DateTime(t.timestamp_millis()),
        RawValue::Duration(d) => HomieValue::Duration(d.num_milliseconds()),
        RawValue::JSON(j) => HomieValue::JSON(j.to_string()),
    }
}

/// Relies on `homie5::HomieValue::parse` (with `HomiePropertyFormat::parse`
/// and `HomieDataType::from_str` to rebuild the declared type and format):
/// the parsed value depends on the three texts alone.  Parsing uses only
/// the data type and format of a property description.  Integer and
/// duration payloads are excluded: the outside parser can panic on extreme
/// texts of those two shapes, and the payload module parses them instead;
/// on every other shape its source returns normally for all inputs.
#[verifier::external_body]
fn parse_value(raw: &str, datatype: HomieDataType, format: &str) -> (r: Option<HomieValue>)
    requires
        !(datatype is Integer),
        !(datatype is Duration),
    ensures
        opt_value_view(&r) == parsed_value(raw@, datatype_str_spec(datatype), format@),
{
    let dt = match <RawDataType as core::str::FromStr>::from_str(datatype.as_match_str()) {
        Ok(d) => d,
        Err(_) => return None,
    };
    let fm = match RawFormat::parse(format, &dt) {
        Ok(f) => f,
        Err(_) => return None,
    };
    let desc = RawPropertyDescription {
        name: None, datatype: dt, format: fm, settable: true, retained: true, unit: None,
    };
    match RawValue::parse(raw, &desc) {
        Ok(v) => Some(convert_value(v)),
        Err(_) => None,
    }
}

/// The value a payload yields against its property's declared data type
/// and format: integers and durations by their verified grammars, every
/// other shape by the trusted parser.
pub open spec fn payload_value(raw: Seq<char>, datatype: HomieDataType, format: Seq<char>)
    -> Option<ValueView> {
    match datatype {
        HomieDataType::Integer => match integer_payload_value(raw, format) {
            Some(v) => Some(ValueView::Int(v)),
            None => None,
        },
        HomieDataType::Duration => match duration_millis_of(raw) {
            Some(ms) => Some(ValueView::Duration(ms)),
            None => None,
        },
        _ => parsed_value(raw, datatype_str_spec(datatype), format),
    }
}

/// Decides [`payload_value`].
fn parse_payload(raw: &str, datatype: HomieDataType, format: &str) -> (r: Option<HomieValue>)
    ensures
        opt_value_view(&r) == payload_value(raw@, datatype, format@),
{
    match datatype {
        HomieDataType::Integer => match parse_integer_payload(raw, format) {
            Some(v) => Some(HomieValue::Integer(v)),
            None => None,
        },
        HomieDataType::Duration => match parse_duration_millis(raw) {
            Some(ms) => Some(HomieValue::Duration(ms)),
            None => None,
        },
        _ => parse_value(raw, datatype, format),
    }
}

/// Every key other than `k` reads as before.
pub open spec fn frame_except(
    old_s: Seq<(DeviceRefView, DeviceView)>,
    new_s: Seq<(DeviceRefView, DeviceView)>,
    k: DeviceRefView,
) -> bool {
    forall|q: DeviceRefView| q != k ==> seq_find(new_s, q) == seq_find(old_s, q)
}

/// What a device status message does: create the device and subscribe to
/// it, record a changed status, or nothing.
pub open spec fn device_state_post(
    device: DeviceRef,
    state: HomieDeviceStatus,
    old_s: Seq<(DeviceRefView, DeviceView)>,
    new_s: Seq<(DeviceRefView, DeviceView)>,
    action: Option<DiscoveryAction>,
    cmds: Seq<SubscriptionCommand>,
) -> bool {
    &&& frame_except(old_s, new_s, device@)
    &&& (match seq_find(old_s, device@) {
        None => {
            &&& seq_find(new_s, device@) matches Some(nd) && nd.ident == device@ && nd.state
                == state && nd.description is None && nd.prop_values.len() == 0 && nd.alerts.len()
                == 0
            &&& new_s.len() == old_s.len() + 1
            &&& (action matches Some(a) && (a matches DiscoveryAction::NewDevice {
                device: d,
                status,
            } && d@ == device@ && status == state))
            &&& cmds.len() == 1
            &&& (cmds[0] matches SubscriptionCommand::SubscribeDevice(d) && d@ == device@)
        },
        Some(dev) => {
            &&& cmds.len() == 0
            &&& (dev.state == state ==> new_s == old_s && action is None)
            &&& (dev.state != state ==> {
                &&& seq_find(new_s, device@) == Some(DeviceView { state: state, ..dev })
                &&& (action matches Some(a) && (a matches DiscoveryAction::StateChanged {
                    device: d,
                    from,
                    to,
                } && d@ == device@ && from == dev.state && to == state))
            })
        },
    })
}

/// What a device description message does: reject it for an undiscovered
/// device, ignore an equal version, else install the description, turn the
/// subscriptions over from the old property set to the new one, and report
/// the change.
pub open spec fn device_description_post(
    device: DeviceRef,
    description: HomieDeviceDescription,
    old_s: Seq<(DeviceRefView, DeviceView)>,
    new_s: Seq<(DeviceRefView, DeviceView)>,
    r: Result<(Option<DiscoveryAction>, Vec<SubscriptionCommand>), DiscoveryError>,
) -> bool {
    &&& frame_except(old_s, new_s, device@)
    &&& (match seq_find(old_s, device@) {
        None => {
            &&& new_s == old_s
            &&& (r matches Err(DiscoveryError::DescriptionForNonExistingDevice(d)) && d@
                == device@)
        },
        Some(dev) => r matches Ok((action, cmds)) && (match dev.description {
            None => {
                &&& seq_find(new_s, device@) == Some(
                    DeviceView { description: Some(description@), ..dev },
                )
                &&& (action matches Some(a) && (a
                    matches DiscoveryAction::DeviceDescriptionChanged(d) && d@ == device@))
                &&& cmds@.len() == 1
                &&& (cmds@[0] matches SubscriptionCommand::SubscribeProps { device: d, description: nd }
                    && d@ == device@ && nd@ == description@)
            },
            Some(old_desc) => {
                &&& (old_desc.version == description@.version ==> new_s == old_s && action is None
                    && cmds@.len() == 0)
                &&& (old_desc.version != description@.version ==> {
                    &&& seq_find(new_s, device@) == Some(
                        DeviceView { description: Some(description@), ..dev },
                    )
                    &&& (action matches Some(a) && (a
                        matches DiscoveryAction::DeviceDescriptionChanged(d) && d@ == device@))
                    &&& cmds@.len() == 2
                    &&& (cmds@[0] matches SubscriptionCommand::UnsubscribeProps {
                        device: d,
                        description: od,
                    } && d@ == device@ && od@ == old_desc)
                    &&& (cmds@[1] matches SubscriptionCommand::SubscribeProps {
                        device: d2,
                        description: nd,
                    } && d2@ == device@ && nd@ == description@)
                })
            },
        }),
    })
}

/// What a property value message does: look the property's description up,
/// parse the payload against it (dropping the message when anything is
/// missing or the payload does not parse), then either persist a retained
/// value and report a change, or report a momentary trigger unpersisted.
pub open spec fn property_value_post(
    property: PropertyRef,
    value: String,
    old_s: Seq<(DeviceRefView, DeviceView)>,
    new_s: Seq<(DeviceRefView, DeviceView)>,
    action: Option<DiscoveryAction>,
) -> bool {
    &&& frame_except(old_s, new_s, prop_device_key(property@))
    &&& (match seq_find(old_s, prop_device_key(property@)) {
        None => new_s == old_s && action is None,
        Some(dev) => match dev.description {
            None => new_s == old_s && action is None,
            Some(desc) => match find_property(desc, property@.node_id, property@.prop_id) {
                None => new_s == old_s && action is None,
                Some(pd) => match payload_value(value@, pd.datatype, pd.format) {
                    None => new_s == old_s && action is None,
                    Some(v) => if pd.retained {
                        &&& (seq_find(new_s, prop_device_key(property@)) matches Some(nd)
                            && nd.ident == dev.ident && nd.state == dev.state && nd.description
                            == dev.description && nd.alerts == dev.alerts && {
                            let p = prop_pointer_key(property@);
                            &&& (seq_find(dev.prop_values, p) matches Some(e) && e.value == Some(
                                v,
                            ) ==> action is None && nd.prop_values == dev.prop_values)
                            &&& (match seq_find(dev.prop_values, p) {
                                Some(e) => e.value != Some(v) ==> {
                                    &&& seq_find(nd.prop_values, p) == Some(
                                        crate::property_value_store::PropertyValueEntryView {
                                            value: Some(v),
                                            target: e.target,
                                        },
                                    )
                                    &&& (action matches Some(a) && (a
                                        matches DiscoveryAction::DevicePropertyValueChanged {
                                        prop,
                                        from,
                                        to,
                                    } && prop@ == property@ && opt_value_view(&from) == e.value
                                        && to@ == v))
                                },
                                None => {
                                    &&& seq_find(nd.prop_values, p) == Some(
                                        crate::property_value_store::PropertyValueEntryView {
                                            value: Some(v),
                                            target: None,
                                        },
                                    )
                                    &&& (action matches Some(a) && (a
                                        matches DiscoveryAction::DevicePropertyValueChanged {
                                        prop,
                                        from,
                                        to,
                                    } && prop@ == property@ && from is None && to@ == v))
                                },
                            })
                            &&& forall|q: crate::ids::PropertyPointerView|
                                q != p ==> seq_find(nd.prop_values, q) == seq_find(
                                    dev.prop_values,
                                    q,
                                )
                        })
                    } else {
                        &&& new_s == old_s
                        &&& (action matches Some(a) && (a
                            matches DiscoveryAction::DevicePropertyValueTriggered { prop, value: hv }
                            && prop@ == property@ && hv@ == v))
                    },
                },
            },
        },
    })
}

/// What a property target message does: the same lookup and parse path,
/// always persisting and reporting a change when the target differs.
pub open spec fn property_target_post(
    property: PropertyRef,
    target: String,
    old_s: Seq<(DeviceRefView, DeviceView)>,
    new_s: Seq<(DeviceRefView, DeviceView)>,
    action: Option<DiscoveryAction>,
) -> bool {
    &&& frame_except(old_s, new_s, prop_device_key(property@))
    &&& (match seq_find(old_s, prop_device_key(property@)) {
        None => new_s == old_s && action is None,
        Some(dev) => match dev.description {
            None => new_s == old_s && action is None,
            Some(desc) => match find_property(desc, property@.node_id, property@.prop_id) {
                None => new_s == old_s && action is None,
                Some(pd) => match payload_value(target@, pd.datatype, pd.format) {
                    None => new_s == old_s && action is None,
                    Some(v) => {
                        &&& (seq_find(new_s, prop_device_key(property@)) matches Some(nd)
                            && nd.ident == dev.ident && nd.state == dev.state && nd.description
                            == dev.description && nd.alerts == dev.alerts && {
                            let p = prop_pointer_key(property@);
                            &&& (seq_find(dev.prop_values, p) matches Some(e) && e.target == Some(
                                v,
                            ) ==> action is None && nd.prop_values == dev.prop_values)
                            &&& (match seq_find(dev.prop_values, p) {
                                Some(e) => e.target != Some(v) ==> {
                                    &&& seq_find(nd.prop_values, p) == Some(
                                        crate::property_value_store::PropertyValueEntryView {
                                            value: e.value,
                                            target: Some(v),
                                        },
                                    )
                                    &&& (action matches Some(a) && (a
                                        matches DiscoveryAction::DevicePropertyTargetChanged {
                                        prop,
                                        from,
                                        to,
                                    } && prop@ == property@ && opt_value_view(&from) == e.target
                                        && to@ == v))
                                },
                                None => {
                                    &&& seq_find(nd.prop_values, p) == Some(
                                        crate::property_value_store::PropertyValueEntryView {
                                            value: None,
                                            target: Some(v),
                                        },
                                    )
                                    &&& (action matches Some(a) && (a
                                        matches DiscoveryAction::DevicePropertyTargetChanged {
                                        prop,
                                        from,
                                        to,
                                    } && prop@ == property@ && from is None && to@ == v))
                                },
                            })
                            &&& forall|q: crate::ids::PropertyPointerView|
                                q != p ==> seq_find(nd.prop_values, q) == seq_find(
                                    dev.prop_values,
                                    q,
                                )
                        })
                    },
                },
            },
        },
    })
}

/// What a device alert message does: delegate to the device's alert store
/// and map its outcome to the matching action, or drop the message for an
/// unknown device.
pub open spec fn device_alert_post(
    device: DeviceRef,
    alert_id: HomieID,
    alert_msg: String,
    old_s: Seq<(DeviceRefView, DeviceView)>,
    new_s: Seq<(DeviceRefView, DeviceView)>,
    action: Option<DiscoveryAction>,
) -> bool {
    &&& frame_except(old_s, new_s, device@)
    &&& (match seq_find(old_s, device@) {
        None => new_s == old_s && action is None,
        Some(dev) => {
            &&& (seq_find(new_s, device@) matches Some(nd) && nd.ident == dev.ident && nd.state
                == dev.state && nd.description == dev.description && nd.prop_values
                == dev.prop_values && {
                &&& (alert_msg@.len() == 0 ==> (match seq_find(dev.alerts, alert_id@) {
                    Some(_) => seq_find(nd.alerts, alert_id@) is None && (action matches Some(a)
                        && (a matches DiscoveryAction::DeviceAlertCleared { device: d, alert_id: i }
                        && d@ == device@ && i@ == alert_id@)),
                    None => nd.alerts == dev.alerts && action is None,
                }))
                &&& (alert_msg@.len() > 0 ==> (match seq_find(dev.alerts, alert_id@) {
                    None => seq_find(nd.alerts, alert_id@) == Some(alert_msg@) && (action
                        matches Some(a) && (a matches DiscoveryAction::DeviceAlert {
                        device: d,
                        alert_id: i,
                        alert,
                    } && d@ == device@ && i@ == alert_id@ && alert@ == alert_msg@)),
                    Some(prev) => {
                        &&& seq_find(nd.alerts, alert_id@) == Some(alert_msg@)
                        &&& (prev == alert_msg@ ==> nd.alerts == dev.alerts && action is None)
                        &&& (prev != alert_msg@ ==> (action matches Some(a) && (a
                            matches DiscoveryAction::DeviceAlertChanged {
                            device: d,
                            alert_id: i,
                            from_alert,
                            to_alert,
                        } && d@ == device@ && i@ == alert_id@ && from_alert@ == prev && to_alert@
                            == alert_msg@)))
                    },
                }))
                &&& forall|q: Seq<char>|
                    q != alert_id@ ==> seq_find(nd.alerts, q) == seq_find(dev.alerts, q)
            })
        },
    })
}

/// What a device removal message does: always unsubscribe from the device;
/// evict it if it was known, also unsubscribing from its described
/// properties; no action is emitted to the consumer.
pub open spec fn device_removal_post(
    device: DeviceRef,
    old_s: Seq<(DeviceRefView, DeviceView)>,
    new_s: Seq<(DeviceRefView, DeviceView)>,
    action: Option<DiscoveryAction>,
    cmds: Seq<SubscriptionCommand>,
) -> bool {
    &&& frame_except(old_s, new_s, device@)
    &&& action is None
    &&& cmds.len() >= 1
    &&& (cmds[0] matches SubscriptionCommand::UnsubscribeDevice(d) && d@ == device@)
    &&& (match seq_find(old_s, device@) {
        None => new_s == old_s && cmds.len() == 1,
        Some(dev) => {
            &&& seq_find(new_s, device@) is None
            &&& new_s.len() == old_s.len() - 1
            &&& (match dev.description {
                None => cmds.len() == 1,
                Some(dd) => cmds.len() == 2 && (cmds[1]
                    matches SubscriptionCommand::UnsubscribeProps { device: d2, description: od }
                    && d2@ == device@ && od@ == dd),
            })
        },
    })
}

/// The reconciliation engine.  It owns no state of its own: every decision
/// is a function of the incoming message and the device store.
#[derive(Debug)]
pub struct HomieDiscovery {}

impl HomieDiscovery {
    /// A fresh engine.
    pub fn new() -> (r: Self) {
        HomieDiscovery {}
    }

    /// The commands that start discovery for a domain: subscribe to device
    /// discovery, then to broadcasts.
    pub fn discover(&self, homie_domain: &HomieDomain) -> (r: Vec<SubscriptionCommand>)
        ensures
            r@.len() == 2,
            r@[0] matches SubscriptionCommand::SubscribeDeviceDiscovery(d) && d@ == homie_domain@,
            r@[1] matches SubscriptionCommand::SubscribeBroadcast(d) && d@ == homie_domain@,
    {
        let mut cmds: Vec<SubscriptionCommand> = Vec::new();
        cmds.push(SubscriptionCommand::SubscribeDeviceDiscovery(homie_domain.clone()));
        cmds.push(SubscriptionCommand::SubscribeBroadcast(homie_domain.clone()));
        cmds
    }

    /// The commands that stop discovery for a domain.
    pub fn stop_discover(&self, homie_domain: &HomieDomain) -> (r: Vec<SubscriptionCommand>)
        ensures
            r@.len() == 2,
            r@[0] matches SubscriptionCommand::UnsubscribeDeviceDiscovery(d) && d@
                == homie_domain@,
            r@[1] matches SubscriptionCommand::UnsubscribeBroadcast(d) && d@ == homie_domain@,
    {
        let mut cmds: Vec<SubscriptionCommand> = Vec::new();
        cmds.push(SubscriptionCommand::UnsubscribeDeviceDiscovery(homie_domain.clone()));
        cmds.push(SubscriptionCommand::UnsubscribeBroadcast(homie_domain.clone()));
        cmds
    }

    /// Reconciles one protocol message against the store.  Returns the
    /// action for the consumer, if any, and the subscription commands the
    /// transport must perform, in order; or the protocol error the message
    /// provoked, with the store left unchanged.
    pub fn handle_event(&self, event: ProtocolMessage, devices: &mut DeviceStore) -> (r: Result<
        (Option<DiscoveryAction>, Vec<SubscriptionCommand>),
        DiscoveryError,
    >)
        requires
            old(devices).wf(),
        ensures
            final(devices).wf(),
            match event {
                ProtocolMessage::DeviceState { device, state } => r matches Ok((action, cmds))
                    && device_state_post(
                    device,
                    state,
                    old(devices)@,
                    final(devices)@,
                    action,
                    cmds@,
                ),
                ProtocolMessage::DeviceDescription { device, description }
                    => device_description_post(
                    device,
                    description,
                    old(devices)@,
                    final(devices)@,
                    r,
                ),
                ProtocolMessage::PropertyValue { property, value } => r matches Ok((action, cmds))
                    && cmds@.len() == 0 && property_value_post(
                    property,
                    value,
                    old(devices)@,
                    final(devices)@,
                    action,
                ),
                ProtocolMessage::PropertyTarget { property, target } => r matches Ok(
                    (action, cmds),
                ) && cmds@.len() == 0 && property_target_post(
                    property,
                    target,
                    old(devices)@,
                    final(devices)@,
                    action,
                ),
                ProtocolMessage::DeviceAlert { device, alert_id, alert_msg } => r matches Ok(
                    (action, cmds),
                ) && cmds@.len() == 0 && device_alert_post(
                    device,
                    alert_id,
                    alert_msg,
                    old(devices)@,
                    final(devices)@,
                    action,
                ),
                ProtocolMessage::DeviceRemoval { device } => r matches Ok((action, cmds))
                    && device_removal_post(
                    device,
                    old(devices)@,
                    final(devices)@,
                    action,
                    cmds@,
                ),
                _ => final(devices)@ == old(devices)@ && (r matches Ok((action, cmds))
                    && cmds@.len() == 0 && (action matches Some(a) && a
                    matches DiscoveryAction::Unhandled(m) && m == event)),
            },
    {
        match event {
            ProtocolMessage::DeviceState { device, state } => {
                match devices.add(&device, state) {
                    DeviceUpdate::Added(device_ref) => {
                        let mut cmds: Vec<SubscriptionCommand> = Vec::new();
                        cmds.push(SubscriptionCommand::SubscribeDevice(device_ref));
                        Ok((Some(DiscoveryAction::NewDevice { device, status: state }), cmds))
                    },
                    DeviceUpdate::StateUpdate { device: _, from, to } => {
                        Ok(
                            (
                                Some(DiscoveryAction::StateChanged { device, from, to }),
                                Vec::new(),
                            ),
                        )
                    },
                    DeviceUpdate::NoChange => Ok((None, Vec::new())),
                }
            },
            ProtocolMessage::DeviceDescription { device, description } => {
                let new_description = description.clone();
                match devices.store_description(&device, description) {
                    DescriptionUpdate::Update { device: device_ref, from } => {
                        let mut cmds: Vec<SubscriptionCommand> = Vec::new();
                        match from {
                            Some(old_desc) => {
                                cmds.push(
                                    SubscriptionCommand::UnsubscribeProps {
                                        device: device_ref.clone(),
                                        description: old_desc,
                                    },
                                );
                            },
                            None => {},
                        }
                        cmds.push(
                            SubscriptionCommand::SubscribeProps {
                                device: device_ref,
                                description: new_description,
                            },
                        );
                        Ok((Some(DiscoveryAction::DeviceDescriptionChanged(device)), cmds))
                    },
                    DescriptionUpdate::NoChange => Ok((None, Vec::new())),
                    DescriptionUpdate::NotFound => Err(
                        DiscoveryError::DescriptionForNonExistingDevice(device),
                    ),
                }
            },
            ProtocolMessage::PropertyValue { property, value } => {
                let looked_up = self.lookup_property(&property, devices);
                let (retained, datatype, format) = match looked_up {
                    Some(triple) => triple,
                    None => {
                        return Ok((None, Vec::new()));
                    },
                };
                let parsed = parse_payload(value.as_str(), datatype, format.as_str());
                match parsed {
                    None => Ok((None, Vec::new())),
                    Some(v) => {
                        if retained {
                            match devices.store_device_value(&property, v) {
                                Some(ValueUpdate::Equal) => Ok((None, Vec::new())),
                                Some(ValueUpdate::Changed { old: prev, new }) => Ok(
                                    (
                                        Some(
                                            DiscoveryAction::DevicePropertyValueChanged {
                                                prop: property,
                                                from: prev,
                                                to: new,
                                            },
                                        ),
                                        Vec::new(),
                                    ),
                                ),
                                None => Ok((None, Vec::new())),
                            }
                        } else {
                            Ok(
                                (
                                    Some(
                                        DiscoveryAction::DevicePropertyValueTriggered {
                                            prop: property,
                                            value: v,
                                        },
                                    ),
                                    Vec::new(),
                                ),
                            )
                        }
                    },
                }
            },
            ProtocolMessage::PropertyTarget { property, target } => {
                let looked_up = self.lookup_property(&property, devices);
                let (_retained, datatype, format) = match looked_up {
                    Some(triple) => triple,
                    None => {
                        return Ok((None, Vec::new()));
                    },
                };
                let parsed = parse_payload(target.as_str(), datatype, format.as_str());
                match parsed {
                    None => Ok((None, Vec::new())),
                    Some(v) => {
                        match devices.store_device_target(&property, v) {
                            Some(ValueUpdate::Equal) => Ok((None, Vec::new())),
                            Some(ValueUpdate::Changed { old: prev, new }) => Ok(
                                (
                                    Some(
                                        DiscoveryAction::DevicePropertyTargetChanged {
                                            prop: property,
                                            from: prev,
                                            to: new,
                                        },
                                    ),
                                    Vec::new(),
                                ),
                            ),
                            None => Ok((None, Vec::new())),
                        }
                    },
                }
            },
            ProtocolMessage::DeviceAlert { device, alert_id, alert_msg } => {
                match devices.store_device_alert(&device, alert_id, alert_msg) {
                    None => Ok((None, Vec::new())),
                    Some(AlertUpdate::Equal) => Ok((None, Vec::new())),
                    Some(AlertUpdate::NoChange) => Ok((None, Vec::new())),
                    Some(AlertUpdate::New { id, alert }) => Ok(
                        (
                            Some(DiscoveryAction::DeviceAlert { device, alert_id: id, alert }),
                            Vec::new(),
                        ),
                    ),
                    Some(AlertUpdate::Changed { id, old_alert, new_alert }) => Ok(
                        (
                            Some(
                                DiscoveryAction::DeviceAlertChanged {
                                    device,
                                    alert_id: id,
                                    from_alert: old_alert,
                                    to_alert: new_alert,
                                },
                            ),
                            Vec::new(),
                        ),
                    ),
                    Some(AlertUpdate::Cleared { id }) => Ok(
                        (
                            Some(DiscoveryAction::DeviceAlertCleared { device, alert_id: id }),
                            Vec::new(),
                        ),
                    ),
                }
            },
            ProtocolMessage::DeviceRemoval { device } => {
                let mut cmds: Vec<SubscriptionCommand> = Vec::new();
                cmds.push(SubscriptionCommand::UnsubscribeDevice(device.clone()));
                match devices.remove_device(&device) {
                    DeviceRemove::Removed(removed) => {
                        match removed.description {
                            Some(old_desc) => {
                                cmds.push(
                                    SubscriptionCommand::UnsubscribeProps {
                                        device,
                                        description: old_desc,
                                    },
                                );
                            },
                            None => {},
                        }
                        Ok((None, cmds))
                    },
                    DeviceRemove::NotFound => Ok((None, cmds)),
                }
            },
            _ => Ok((Some(DiscoveryAction::Unhandled(event)), Vec::new())),
        }
    }

    /// Reads the retained flag, data type and format of the property's
    /// description, if its device and description declare it.
    fn lookup_property(&self, property: &PropertyRef, devices: &DeviceStore) -> (r: Option<
        (bool, crate::value::HomieDataType, String),
    >)
        ensures
            match seq_find(devices@, prop_device_key(property@)) {
                None => r is None,
                Some(dev) => match dev.description {
                    None => r is None,
                    Some(desc) => match find_property(desc, property@.node_id, property@.prop_id) {
                        None => r is None,
                        Some(pd) => r matches Some((retained, datatype, format)) && retained
                            == pd.retained && datatype == pd.datatype && format@ == pd.format,
                    },
                },
            },
    {
        let device = match devices.get_device(property.device_ref()) {
            Some(d) => d,
            None => {
                return None;
            },
        };
        let desc = match &device.description {
            Some(d) => d,
            None => {
                return None;
            },
        };
        match desc.get_property(property) {
            Some(pd) => Some((pd.retained, pd.datatype, pd.format.clone())),
            None => None,
        }
    }
}

} // verus!
