use hc_homie5::{
    ConditionOperator, DeviceQuery, HomieDataType, HomieDeviceDescription, HomieDomain, HomieID,
    HomieNodeDescription, HomiePropertyDescription, MaterializedQuery, NodeQuery, PropertyQuery,
    PropertyRef, QueryDefinition, ValueCondition, ValueOperatorCondition, ValueSet,
};

fn id(s: &str) -> HomieID {
    HomieID::try_new(s.to_string()).unwrap()
}

fn property(datatype: HomieDataType, name: Option<&str>, format: &str) -> HomiePropertyDescription {
    HomiePropertyDescription {
        name: name.map(|n| n.to_string()),
        datatype,
        format: format.to_string(),
        settable: false,
        retained: true,
        unit: None,
    }
}

fn empty_device_description() -> HomieDeviceDescription {
    HomieDeviceDescription {
        name: None,
        version: 0,
        homie: "5.0".to_string(),
        children: vec![],
        root: None,
        parent: None,
        extensions: vec![],
        nodes: vec![],
    }
}

// A basic QueryDefinition test that exercises the full matching logic: the
// query requires device id "device-1", node type "test-type", and a
// property datatype of integer or float.
#[test]
fn test_query_def() {
    let query = QueryDefinition {
        domain: Some(ValueCondition::Value(HomieDomain::Default)),
        device: Some(DeviceQuery {
            id: Some(ValueCondition::Value(id("device-1"))),
            name: None,
            version: None,
            homie: None,
            children: None,
            root: None,
            parent: None,
            extensions: None,
        }),
        node: Some(NodeQuery {
            id: None,
            name: None,
            typ: Some(ValueCondition::Value("test-type".to_string())),
        }),
        property: Some(PropertyQuery {
            id: None,
            name: None,
            datatype: Some(ValueCondition::Operator(ValueOperatorCondition {
                operator: ConditionOperator::Equal,
                value: Some(ValueSet::Multiple(vec![
                    HomieDataType::Integer,
                    HomieDataType::Float,
                ])),
            })),
            format: None,
            settable: None,
            retained: None,
            unit: None,
        }),
    };
    let mut desc = empty_device_description();
    desc.nodes = vec![
        (
            id("node-1"),
            HomieNodeDescription {
                name: Some("Testnode".to_string()),
                typ: Some("test-type".to_string()),
                properties: vec![
                    (id("prop-1"), property(HomieDataType::Integer, None, "1:20")),
                    (id("prop-2"), property(HomieDataType::Float, None, "")),
                    (id("prop-3"), property(HomieDataType::Boolean, None, "")),
                ],
            },
        ),
        (
            id("node-2"),
            HomieNodeDescription {
                name: Some("Testnode no 2".to_string()),
                typ: None,
                properties: vec![(id("state"), property(HomieDataType::Integer, None, "1:20"))],
            },
        ),
    ];

    let refs: Vec<PropertyRef> = query.match_query(&HomieDomain::Default, &id("device-1"), &desc);
    let cmp_refs: Vec<PropertyRef> = vec![
        PropertyRef::new(HomieDomain::Default, id("device-1"), id("node-1"), id("prop-1")),
        PropertyRef::new(HomieDomain::Default, id("device-1"), id("node-1"), id("prop-2")),
    ];
    println!("Matched Property Refs: {:#?}", refs);
    assert_eq!(refs, cmp_refs);
}

// The same matching logic on a description without the boolean property.
#[test]
fn query_test_query_def() {
    let query = QueryDefinition {
        domain: Some(ValueCondition::Value(HomieDomain::Default)),
        device: Some(DeviceQuery {
            id: Some(ValueCondition::Value(id("device-1"))),
            name: None,
            version: None,
            homie: None,
            children: None,
            root: None,
            parent: None,
            extensions: None,
        }),
        node: Some(NodeQuery {
            id: None,
            name: None,
            typ: Some(ValueCondition::Value("test-type".to_string())),
        }),
        property: Some(PropertyQuery {
            id: None,
            name: None,
            datatype: Some(ValueCondition::Operator(ValueOperatorCondition {
                operator: ConditionOperator::Equal,
                value: Some(ValueSet::Multiple(vec![
                    HomieDataType::Integer,
                    HomieDataType::Float,
                ])),
            })),
            format: None,
            settable: None,
            retained: None,
            unit: None,
        }),
    };
    let mut desc = empty_device_description();
    desc.nodes = vec![
        (
            id("node-1"),
            HomieNodeDescription {
                name: Some("Testnode".to_string()),
                typ: Some("test-type".to_string()),
                properties: vec![
                    (id("prop-1"), property(HomieDataType::Integer, None, "1:20")),
                    (id("prop-2"), property(HomieDataType::Float, None, "")),
                ],
            },
        ),
        (
            id("node-2"),
            HomieNodeDescription {
                name: Some("Testnode no 2".to_string()),
                typ: None,
                properties: vec![(id("state"), property(HomieDataType::Integer, None, "1:20"))],
            },
        ),
    ];

    let refs: Vec<PropertyRef> = query.match_query(&HomieDomain::Default, &id("device-1"), &desc);
    let cmp_refs: Vec<PropertyRef> = vec![
        PropertyRef::new(HomieDomain::Default, id("device-1"), id("node-1"), id("prop-1")),
        PropertyRef::new(HomieDomain::Default, id("device-1"), id("node-1"), id("prop-2")),
    ];
    println!("Matched Property Refs: {:#?}\n\n", refs);
    assert_eq!(refs, cmp_refs);
}

// Evaluation of the vector includesAny operator on a DeviceQuery.
#[test]
fn test_deserialize_and_evaluate_vector_includes_any() {
    let query = DeviceQuery {
        id: None,
        name: None,
        version: None,
        homie: None,
        children: Some(ValueCondition::Operator(ValueOperatorCondition {
            operator: ConditionOperator::IncludesAny,
            value: Some(ValueSet::Multiple(vec![
                vec![id("child1"), id("child2")],
                vec![id("child3")],
            ])),
        })),
        root: None,
        parent: None,
        extensions: None,
    };
    let children = vec![id("child1"), id("child4")];
    assert!(query.children.as_ref().unwrap().evaluate(&children));

    let children = vec![id("child5")];
    assert!(!query.children.as_ref().unwrap().evaluate(&children));
}

#[test]
fn test_deserialize_and_evaluate_vector_includes_all() {
    let query = DeviceQuery {
        id: None,
        name: None,
        version: None,
        homie: None,
        children: Some(ValueCondition::Operator(ValueOperatorCondition {
            operator: ConditionOperator::Equal,
            value: Some(ValueSet::Multiple(vec![vec![
                id("child1"),
                id("child2"),
                id("child3"),
            ]])),
        })),
        root: None,
        parent: None,
        extensions: None,
    };
    let children = vec![id("child1"), id("child2"), id("child3")];
    assert!(query.children.as_ref().unwrap().evaluate(&children));

    let children = vec![id("child5")];
    assert!(!query.children.as_ref().unwrap().evaluate(&children));
}

#[test]
fn test_deserialize_and_evaluate_extensions_includes_none() {
    let query = DeviceQuery {
        id: None,
        name: None,
        version: None,
        homie: None,
        children: None,
        root: None,
        parent: None,
        extensions: Some(ValueCondition::Operator(ValueOperatorCondition {
            operator: ConditionOperator::IncludesNone,
            value: Some(ValueSet::Single(vec![
                "deprecated".to_string(),
                "legacy".to_string(),
            ])),
        })),
    };
    let extensions = vec!["mqtt".to_string(), "homie5".to_string()];
    assert!(query.extensions.as_ref().unwrap().evaluate(&extensions));

    let extensions = vec!["legacy".to_string(), "mqtt".to_string()];
    assert!(!query.extensions.as_ref().unwrap().evaluate(&extensions));
}

// --- NodeQuery ---

#[test]
fn test_node_query_match() {
    // Build a NodeQuery that requires:
    // - id equal to "node-1"
    // - name equal to "Test Node"
    // - type equal to "sensor"
    let node_query = NodeQuery {
        id: Some(ValueCondition::Value(id("node-1"))),
        name: Some(ValueCondition::Value("Test Node".to_string())),
        typ: Some(ValueCondition::Value("sensor".to_string())),
    };

    // Create a matching node description.
    let node_desc = HomieNodeDescription {
        name: Some("Test Node".to_string()),
        typ: Some("sensor".to_string()),
        properties: vec![],
    };

    // The query should match when the id and node description match.
    assert!(node_query.match_query(&id("node-1"), &node_desc));

    // Create a node description with a mismatched name.
    let node_desc_bad = HomieNodeDescription {
        name: Some("Wrong Name".to_string()),
        typ: Some("sensor".to_string()),
        properties: vec![],
    };

    assert!(!node_query.match_query(&id("node-1"), &node_desc_bad));
}

// --- MaterializedQuery ---

#[test]
fn test_materialized_query_property_name() {
    // This query looks for a property whose name is "temperature".
    let query = QueryDefinition {
        domain: Some(ValueCondition::Value(HomieDomain::Default)),
        device: Some(DeviceQuery {
            id: Some(ValueCondition::Value(id("device-1"))),
            name: None,
            version: None,
            homie: None,
            children: None,
            root: None,
            parent: None,
            extensions: None,
        }),
        node: Some(NodeQuery {
            id: None,
            name: Some(ValueCondition::Value("Test Node".to_string())),
            typ: None,
        }),
        property: Some(PropertyQuery {
            id: None,
            name: Some(ValueCondition::Value("temperature".to_string())),
            datatype: None,
            format: None,
            settable: None,
            retained: None,
            unit: None,
        }),
    };

    // Build a device description with one node that has two properties.
    // One property has the name "temperature" and the other "humidity".
    let mut device_desc = empty_device_description();
    device_desc.nodes = vec![(
        id("node-1"),
        HomieNodeDescription {
            name: Some("Test Node".to_string()),
            typ: None,
            properties: vec![
                (
                    id("temp"),
                    property(HomieDataType::Float, Some("temperature"), ""),
                ),
                (
                    id("humidity"),
                    property(HomieDataType::Float, Some("humidity"), ""),
                ),
            ],
        },
    )];

    let device_id = id("device-1");
    let mut mat_query = MaterializedQuery::new(query);

    // Initially the materialized query holds no references.
    let expected_ref = PropertyRef::new(
        HomieDomain::Default,
        device_id.clone(),
        id("node-1"),
        id("temp"),
    );
    assert!(!mat_query.match_query(&expected_ref));

    // Add materialized properties based on the query.
    mat_query.add_materialized(&HomieDomain::Default, &device_id, &device_desc);

    // Now only the property with id "temp" (name "temperature") should match.
    assert!(mat_query.match_query(&expected_ref));

    let non_expected_ref = PropertyRef::new(
        HomieDomain::Default,
        device_id.clone(),
        id("node-1"),
        id("humidity"),
    );
    assert!(!mat_query.match_query(&non_expected_ref));

    // Remove materialized properties and verify that the reference is no longer matched.
    mat_query.remove_materialized(&HomieDomain::Default, &device_id, &device_desc);
    assert!(!mat_query.match_query(&expected_ref));
    assert!(!mat_query.match_query(&non_expected_ref));
}

// The reserved wildcard domain in a query matches every domain.
#[test]
fn test_query_wildcard_domain() {
    let query = QueryDefinition {
        domain: Some(ValueCondition::Value(HomieDomain::All)),
        device: None,
        node: None,
        property: None,
    };
    let mut desc = empty_device_description();
    desc.nodes = vec![(
        id("node-1"),
        HomieNodeDescription {
            name: None,
            typ: None,
            properties: vec![(id("prop-1"), property(HomieDataType::Integer, None, ""))],
        },
    )];
    let refs = query.match_query(
        &HomieDomain::Custom("factory".to_string()),
        &id("device-1"),
        &desc,
    );
    assert_eq!(refs.len(), 1);
}

// A property that declares no format is treated as having no value for a
// format condition.
#[test]
fn test_query_empty_format_rejected() {
    let pq = PropertyQuery {
        id: None,
        name: None,
        datatype: None,
        format: Some(ValueCondition::Value("1:20".to_string())),
        settable: None,
        retained: None,
        unit: None,
    };
    assert!(pq.match_query(&id("p"), &property(HomieDataType::Integer, None, "1:20")));
    assert!(!pq.match_query(&id("p"), &property(HomieDataType::Integer, None, "")));
}

// The vector operators exercised once more against the in-file variants of
// the same cases.
#[test]
fn query_test_deserialize_and_evaluate_vector_includes_any() {
    let cond: ValueCondition<Vec<HomieID>> = ValueCondition::Operator(ValueOperatorCondition {
        operator: ConditionOperator::IncludesAny,
        value: Some(ValueSet::Multiple(vec![
            vec![id("child1"), id("child2")],
            vec![id("child3")],
        ])),
    });
    let children = vec![id("child1"), id("child4")];
    assert!(cond.evaluate(&children));

    let children = vec![id("child5")];
    assert!(!cond.evaluate(&children));
}

#[test]
fn query_test_deserialize_and_evaluate_vector_includes_all() {
    let cond: ValueCondition<Vec<HomieID>> = ValueCondition::Operator(ValueOperatorCondition {
        operator: ConditionOperator::Equal,
        value: Some(ValueSet::Multiple(vec![vec![
            id("child1"),
            id("child2"),
            id("child3"),
        ]])),
    });
    let children = vec![id("child1"), id("child2"), id("child3")];
    assert!(cond.evaluate(&children));

    let children = vec![id("child5")];
    assert!(!cond.evaluate(&children));
}

#[test]
fn query_test_deserialize_and_evaluate_extensions_includes_none() {
    let cond: ValueCondition<Vec<String>> = ValueCondition::Operator(ValueOperatorCondition {
        operator: ConditionOperator::IncludesNone,
        value: Some(ValueSet::Single(vec![
            "deprecated".to_string(),
            "legacy".to_string(),
        ])),
    });
    let extensions = vec!["mqtt".to_string(), "homie5".to_string()];
    assert!(cond.evaluate(&extensions));

    let extensions = vec!["legacy".to_string(), "mqtt".to_string()];
    assert!(!cond.evaluate(&extensions));
}
