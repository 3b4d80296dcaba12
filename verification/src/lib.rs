//! Controller-side engine for the Homie 5 device-discovery convention.
//!
//! The crate keeps the in-memory model of every discovered device, node and
//! property, reconciles that model against incoming protocol messages, and
//! derives both domain-level change events and the subscription commands a
//! transport has to perform.  On top of the store sits a generic
//! condition/query DSL used to select devices and properties by structural
//! predicates, together with an incrementally maintained materialized view.

pub mod alert_store;
pub mod device_description;
pub mod device_store;
pub mod discovery;
pub mod ids;
pub mod lookup;
pub mod matchers;
pub mod payload;
pub mod property_value_store;
pub mod query;
pub mod text;
pub mod value;
pub mod value_condition;
pub mod value_mapping;

pub use alert_store::{lemma_alert_lifecycle, store_alert_post, AlertStore, AlertUpdate};
pub use device_description::{
    children_contain, find_property, nodes_view, opt_id_view, opt_str_view, props_view,
    DeviceDescView, HomieDeviceDescription, HomieNodeDescription, HomiePropertyDescription,
    NodeDescView, PropertyDescView,
};
pub use device_store::{
    lemma_orphan_disowned, lemma_orphan_no_parent, lemma_orphan_rooted_parent,
    lemma_orphan_unknown_parent, opt_desc_view, prop_device_key, prop_pointer_key,
    DescriptionUpdate, Device, DeviceRemove, DeviceStore, DeviceUpdate, DeviceView,
};
pub use discovery::{
    payload_value,
    device_alert_post, device_description_post, device_removal_post, device_state_post,
    frame_except, parsed_value, property_target_post, property_value_post, DiscoveryAction,
    DiscoveryError, HomieDiscovery, ProtocolMessage, SubscriptionCommand,
};
pub use ids::{
    DeviceRef, HomieDeviceStatus, HomieDomain, HomieDomainView, HomieID, InvalidHomieIDError,
    PropertyPointer, PropertyRef,
};
pub use lookup::{seq_find, unique_keys};
pub use payload::{
    all_digits, digit_val, digits_value, duration_group, duration_millis_of, duration_parts,
    int_text_value, integer_payload_value, integer_range_of, is_digit, make_range,
    parse_duration_millis, parse_i64, parse_i64_spec, parse_integer_payload,
    parse_integer_range, range_field, seg_end, snapped, take_digits, valid_integer_range,
    validate_int, validate_int_spec, IntegerRange,
};
pub use property_value_store::{
    lemma_store_value_round_trip, opt_value_view, store_target_post, store_value_post,
    PropertyValueEntry, PropertyValueEntryView, PropertyValueStore, ValueUpdate,
};
pub use query::{
    node_level_ok, nodes_result, prop_level_ok, prop_ref_views, props_result, refs_contain,
    unique_refs, vec_contains_ref, DeviceQuery, MaterializedQuery, NodeQuery, PropertyQuery,
    QueryDefinition,
};
pub use text::{lex_lt, str_eq, str_lex_lt};
pub use value::{HomieDataType, HomieValue, ValueView};
pub use value_condition::{
    operator_of_str, operator_str,
    AsMatchStr, ConditionOperator, Pattern, ValueCondition, ValueMatcher, ValueOperatorCondition,
    ValueSet,
};
pub use value_mapping::{
    list_map_result, MappingResult, ValueMapping, ValueMappingIO, ValueMappingList,
};
