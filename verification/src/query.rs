//! Structural queries over device descriptions: independent optional
//! conditions at domain, device, node and property granularity.  A match
//! descends device, node, property and returns every property reference
//! satisfying all active levels.  A materialized query keeps such a result
//! set up to date incrementally as devices come and go.
use crate::device_description::{
    HomieDeviceDescription, HomieNodeDescription, HomiePropertyDescription,
};
use crate::ids::{HomieDomain, HomieDomainView, HomieID, PropertyRef, PropertyRefView};
use crate::value::HomieDataType;
use crate::value_condition::{opt_deref, ValueCondition};
use vstd::prelude::*;

verus! {

/// Property-level conditions: each present condition must hold of the
/// property's identifier or description.
#[derive(Debug)]
pub struct PropertyQuery {
    pub id: Option<ValueCondition<HomieID>>,
    pub name: Option<ValueCondition<String>>,
    pub datatype: Option<ValueCondition<HomieDataType>>,
    pub format: Option<ValueCondition<String>>,
    pub settable: Option<ValueCondition<bool>>,
    pub retained: Option<ValueCondition<bool>>,
    pub unit: Option<ValueCondition<String>>,
}

impl PropertyQuery {
    /// Whether the property satisfies every present condition.  A property
    /// that declares no format is treated as having no value for a format
    /// condition.
    pub open spec fn match_spec(&self, id: HomieID, desc: HomiePropertyDescription) -> bool {
        &&& (match self.id {
            Some(c) => c.eval_spec(&id),
            None => true,
        })
        &&& (match self.name {
            Some(c) => c.eval_option_spec(desc.name),
            None => true,
        })
        &&& (match self.datatype {
            Some(c) => c.eval_spec(&desc.datatype),
            None => true,
        })
        &&& (match self.format {
            Some(c) => desc.format@.len() > 0 && c.eval_spec(&desc.format),
            None => true,
        })
        &&& (match self.settable {
            Some(c) => c.eval_spec(&desc.settable),
            None => true,
        })
        &&& (match self.retained {
            Some(c) => c.eval_spec(&desc.retained),
            None => true,
        })
        &&& (match self.unit {
            Some(c) => c.eval_option_spec(desc.unit),
            None => true,
        })
    }

    /// Decides [`PropertyQuery::match_spec`].
    pub fn match_query(&self, id: &HomieID, property_desc: &HomiePropertyDescription) -> (r: bool)
        ensures
            r == self.match_spec(*id, *property_desc),
    {
        let id_ok = match &self.id {
            Some(c) => c.evaluate(id),
            None => true,
        };
        let name_ok = match &self.name {
            Some(c) => c.evaluate_option(property_desc.name.as_ref()),
            None => true,
        };
        let datatype_ok = match &self.datatype {
            Some(c) => c.evaluate(&property_desc.datatype),
            None => true,
        };
        let format_ok = match &self.format {
            Some(c) => if property_desc.format.as_str().is_empty() {
                false
            } else {
                c.evaluate(&property_desc.format)
            },
            None => true,
        };
        let settable_ok = match &self.settable {
            Some(c) => c.evaluate(&property_desc.settable),
            None => true,
        };
        let retained_ok = match &self.retained {
            Some(c) => c.evaluate(&property_desc.retained),
            None => true,
        };
        let unit_ok = match &self.unit {
            Some(c) => c.evaluate_option(property_desc.unit.as_ref()),
            None => true,
        };
        id_ok && name_ok && datatype_ok && format_ok && settable_ok && retained_ok && unit_ok
    }
}

/// Node-level conditions.
#[derive(Debug)]
pub struct NodeQuery {
    pub id: Option<ValueCondition<HomieID>>,
    pub name: Option<ValueCondition<String>>,
    pub typ: Option<ValueCondition<String>>,
}

impl NodeQuery {
    /// Whether the node satisfies every present condition.
    pub open spec fn match_spec(&self, id: HomieID, desc: HomieNodeDescription) -> bool {
        &&& (match self.id {
            Some(c) => c.eval_spec(&id),
            None => true,
        })
        &&& (match self.name {
            Some(c) => c.eval_option_spec(desc.name),
            None => true,
        })
        &&& (match self.typ {
            Some(c) => c.eval_option_spec(desc.typ),
            None => true,
        })
    }

    /// Decides [`NodeQuery::match_spec`].
    pub fn match_query(&self, id: &HomieID, node_desc: &HomieNodeDescription) -> (r: bool)
        ensures
            r == self.match_spec(*id, *node_desc),
    {
        let id_ok = match &self.id {
            Some(c) => c.evaluate(id),
            None => true,
        };
        let name_ok = match &self.name {
            Some(c) => c.evaluate_option(node_desc.name.as_ref()),
            None => true,
        };
        let typ_ok = match &self.typ {
            Some(c) => c.evaluate_option(node_desc.typ.as_ref()),
            None => true,
        };
        id_ok && name_ok && typ_ok
    }
}

/// Device-level conditions.
#[derive(Debug)]
pub struct DeviceQuery {
    pub id: Option<ValueCondition<HomieID>>,
    pub name: Option<ValueCondition<String>>,
    pub version: Option<ValueCondition<i64>>,
    pub homie: Option<ValueCondition<String>>,
    pub children: Option<ValueCondition<Vec<HomieID>>>,
    pub root: Option<ValueCondition<HomieID>>,
    pub parent: Option<ValueCondition<HomieID>>,
    pub extensions: Option<ValueCondition<Vec<String>>>,
}

impl DeviceQuery {
    /// Whether the device satisfies every present condition.
    pub open spec fn match_spec(&self, id: HomieID, desc: HomieDeviceDescription) -> bool {
        &&& (match self.id {
            Some(c) => c.eval_spec(&id),
            None => true,
        })
        &&& (match self.name {
            Some(c) => c.eval_option_spec(desc.name),
            None => true,
        })
        &&& (match self.root {
            Some(c) => c.eval_option_spec(desc.root),
            None => true,
        })
        &&& (match self.homie {
            Some(c) => c.eval_spec(&desc.homie),
            None => true,
        })
        &&& (match self.parent {
            Some(c) => c.eval_option_spec(desc.parent),
            None => true,
        })
        &&& (match self.version {
            Some(c) => c.eval_spec(&desc.version),
            None => true,
        })
        &&& (match self.children {
            Some(c) => c.eval_spec(&desc.children),
            None => true,
        })
        &&& (match self.extensions {
            Some(c) => c.eval_spec(&desc.extensions),
            None => true,
        })
    }

    /// Decides [`DeviceQuery::match_spec`].
    pub fn match_query(&self, id: &HomieID, device_desc: &HomieDeviceDescription) -> (r: bool)
        ensures
            r == self.match_spec(*id, *device_desc),
    {
        let id_ok = match &self.id {
            Some(c) => c.evaluate(id),
            None => true,
        };
        let name_ok = match &self.name {
            Some(c) => c.evaluate_option(device_desc.name.as_ref()),
            None => true,
        };
        let root_ok = match &self.root {
            Some(c) => c.evaluate_option(device_desc.root.as_ref()),
            None => true,
        };
        let homie_ok = match &self.homie {
            Some(c) => c.evaluate(&device_desc.homie),
            None => true,
        };
        let parent_ok = match &self.parent {
            Some(c) => c.evaluate_option(device_desc.parent.as_ref()),
            None => true,
        };
        let version_ok = match &self.version {
            Some(c) => c.evaluate(&device_desc.version),
            None => true,
        };
        let children_ok = match &self.children {
            Some(c) => c.evaluate(&device_desc.children),
            None => true,
        };
        let extensions_ok = match &self.extensions {
            Some(c) => c.evaluate(&device_desc.extensions),
            None => true,
        };
        id_ok && name_ok && root_ok && homie_ok && parent_ok && version_ok && children_ok
            && extensions_ok
    }
}

/// Whether an optional node query accepts a node.
pub open spec fn node_level_ok(
    nq: Option<NodeQuery>,
    id: HomieID,
    desc: HomieNodeDescription,
) -> bool {
    match nq {
        None => true,
        Some(q) => q.match_spec(id, desc),
    }
}

/// Whether an optional property query accepts a property.
pub open spec fn prop_level_ok(
    pq: Option<PropertyQuery>,
    id: HomieID,
    desc: HomiePropertyDescription,
) -> bool {
    match pq {
        None => true,
        Some(q) => q.match_spec(id, desc),
    }
}

/// The view of each matched reference.
pub open spec fn prop_ref_views() -> spec_fn(PropertyRef) -> PropertyRefView {
    |p: PropertyRef| p@
}

/// The references produced for one node's property list, in declaration
/// order.
pub open spec fn props_result(
    pq: Option<PropertyQuery>,
    domain: HomieDomain,
    device_id: HomieID,
    node_id: HomieID,
    props: Seq<(HomieID, HomiePropertyDescription)>,
) -> Seq<PropertyRefView>
    decreases props.len(),
{
    if props.len() == 0 {
        Seq::empty()
    } else {
        (if prop_level_ok(pq, props[0].0, props[0].1) {
            seq![
                PropertyRefView {
                    domain: domain@,
                    device_id: device_id@,
                    node_id: node_id@,
                    prop_id: props[0].0@,
                },
            ]
        } else {
            Seq::empty()
        }) + props_result(pq, domain, device_id, node_id, props.drop_first())
    }
}

/// The references produced over a node list, in declaration order.
pub open spec fn nodes_result(
    nq: Option<NodeQuery>,
    pq: Option<PropertyQuery>,
    domain: HomieDomain,
    device_id: HomieID,
    nodes: Seq<(HomieID, HomieNodeDescription)>,
) -> Seq<PropertyRefView>
    decreases nodes.len(),
{
    if nodes.len() == 0 {
        Seq::empty()
    } else {
        (if node_level_ok(nq, nodes[0].0, nodes[0].1) {
            props_result(pq, domain, device_id, nodes[0].0, nodes[0].1.properties@)
        } else {
            Seq::empty()
        }) + nodes_result(nq, pq, domain, device_id, nodes.drop_first())
    }
}

/// A query composing independent optional conditions at domain, device,
/// node and property granularity.
#[derive(Debug)]
pub struct QueryDefinition {
    pub domain: Option<ValueCondition<HomieDomain>>,
    pub device: Option<DeviceQuery>,
    pub node: Option<NodeQuery>,
    pub property: Option<PropertyQuery>,
}

impl QueryDefinition {
    /// Whether the domain condition accepts the domain; a condition whose
    /// single operand is the reserved wildcard accepts every domain.
    pub open spec fn domain_ok(&self, domain: &HomieDomain) -> bool {
        match self.domain {
            None => true,
            Some(c) => if c.value_spec() matches Some(v) && v@ is All {
                true
            } else {
                c.eval_spec(domain)
            },
        }
    }

    /// Whether the device-level conditions accept the device.
    pub open spec fn device_ok(&self, id: &HomieID, desc: &HomieDeviceDescription) -> bool {
        match self.device {
            None => true,
            Some(q) => q.match_spec(*id, *desc),
        }
    }

    /// Every property reference the query produces for one device: empty
    /// unless the domain and device levels hold, else all properties whose
    /// node and property levels hold, in declaration order.
    pub open spec fn matching_props(
        &self,
        domain: &HomieDomain,
        id: &HomieID,
        desc: &HomieDeviceDescription,
    ) -> Seq<PropertyRefView> {
        if self.domain_ok(domain) && self.device_ok(id, desc) {
            nodes_result(self.node, self.property, *domain, *id, desc.nodes@)
        } else {
            Seq::empty()
        }
    }

    /// Decides [`QueryDefinition::matching_props`], returning the matched
    /// references in order.
    pub fn match_query(
        &self,
        domain: &HomieDomain,
        id: &HomieID,
        device_desc: &HomieDeviceDescription,
    ) -> (r: Vec<PropertyRef>)
        requires
            device_desc.wf(),
        ensures
            r@.map_values(prop_ref_views()) == self.matching_props(domain, id, device_desc),
    {
        let mut matched: Vec<PropertyRef> = Vec::new();
        let domain_ok = match &self.domain {
            None => true,
            Some(cond) => {
                let is_all = match cond.value() {
                    Some(v) => matches!(v, HomieDomain::All),
                    None => false,
                };
                if is_all {
                    true
                } else {
                    cond.evaluate(domain)
                }
            },
        };
        let device_ok = match &self.device {
            None => true,
            Some(dq) => dq.match_query(id, device_desc),
        };
        if !(domain_ok && device_ok) {
            proof {
                assert(matched@.map_values(prop_ref_views()) =~= Seq::<PropertyRefView>::empty());
            }
            return matched;
        }
        let ghost total = nodes_result(self.node, self.property, *domain, *id, device_desc.nodes@);
        proof {
            assert(device_desc.nodes@.skip(0) =~= device_desc.nodes@);
            assert(matched@.map_values(prop_ref_views()) =~= Seq::<PropertyRefView>::empty());
            assert(Seq::<PropertyRefView>::empty() + total =~= total);
        }
        let mut i: usize = 0;
        while i < device_desc.nodes.len()
            invariant
                i <= device_desc.nodes@.len(),
                matched@.map_values(prop_ref_views()) + nodes_result(
                    self.node,
                    self.property,
                    *domain,
                    *id,
                    device_desc.nodes@.skip(i as int),
                ) == total,
            decreases device_desc.nodes@.len() - i,
        {
            let ghost pre_outer = matched@.map_values(prop_ref_views());
            let ghost rest_nodes = device_desc.nodes@.skip(i as int);
            proof {
                assert(rest_nodes.drop_first() =~= device_desc.nodes@.skip(i + 1));
                assert(rest_nodes[0] == device_desc.nodes@[i as int]);
            }
            let node_pair = &device_desc.nodes[i];
            let node_ok = match &self.node {
                None => true,
                Some(nq) => nq.match_query(&node_pair.0, &node_pair.1),
            };
            if node_ok {
                let ghost node_contrib = props_result(
                    self.property,
                    *domain,
                    *id,
                    node_pair.0,
                    node_pair.1.properties@,
                );
                proof {
                    assert(nodes_result(
                        self.node,
                        self.property,
                        *domain,
                        *id,
                        rest_nodes,
                    ) == node_contrib + nodes_result(
                        self.node,
                        self.property,
                        *domain,
                        *id,
                        device_desc.nodes@.skip(i + 1),
                    ));
                    assert(node_pair.1.properties@.skip(0) =~= node_pair.1.properties@);
                    assert((pre_outer + (node_contrib + nodes_result(
                        self.node,
                        self.property,
                        *domain,
                        *id,
                        device_desc.nodes@.skip(i + 1),
                    ))) =~= ((pre_outer + node_contrib) + nodes_result(
                        self.node,
                        self.property,
                        *domain,
                        *id,
                        device_desc.nodes@.skip(i + 1),
                    )));
                }
                let mut j: usize = 0;
                while j < node_pair.1.properties.len()
                    invariant
                        j <= node_pair.1.properties@.len(),
                        matched@.map_values(prop_ref_views()) + props_result(
                            self.property,
                            *domain,
                            *id,
                            node_pair.0,
                            node_pair.1.properties@.skip(j as int),
                        ) + nodes_result(
                            self.node,
                            self.property,
                            *domain,
                            *id,
                            device_desc.nodes@.skip(i + 1),
                        ) == total,
                    decreases node_pair.1.properties@.len() - j,
                {
                    let ghost pre_inner = matched@.map_values(prop_ref_views());
                    let ghost rest_props = node_pair.1.properties@.skip(j as int);
                    proof {
                        assert(rest_props.drop_first() =~= node_pair.1.properties@.skip(j + 1));
                        assert(rest_props[0] == node_pair.1.properties@[j as int]);
                    }
                    let prop_pair = &node_pair.1.properties[j];
                    let prop_ok = match &self.property {
                        None => true,
                        Some(pq) => pq.match_query(&prop_pair.0, &prop_pair.1),
                    };
                    if prop_ok {
                        let property_ref = PropertyRef::new(
                            domain.clone(),
                            id.clone(),
                            node_pair.0.clone(),
                            prop_pair.0.clone(),
                        );
                        proof {
                            crate::lookup::lemma_map_values_push(
                                matched@,
                                property_ref,
                                prop_ref_views(),
                            );
                            assert(props_result(
                                self.property,
                                *domain,
                                *id,
                                node_pair.0,
                                rest_props,
                            ) == seq![property_ref@] + props_result(
                                self.property,
                                *domain,
                                *id,
                                node_pair.0,
                                node_pair.1.properties@.skip(j + 1),
                            ));
                            assert(pre_inner.push(property_ref@) =~= pre_inner + seq![
                                property_ref@,
                            ]);
                        }
                        matched.push(property_ref);
                        proof {
                            assert(matched@.map_values(prop_ref_views()) + props_result(
                                self.property,
                                *domain,
                                *id,
                                node_pair.0,
                                node_pair.1.properties@.skip(j + 1),
                            ) + nodes_result(
                                self.node,
                                self.property,
                                *domain,
                                *id,
                                device_desc.nodes@.skip(i + 1),
                            ) =~= total);
                        }
                    } else {
                        proof {
                            assert(props_result(
                                self.property,
                                *domain,
                                *id,
                                node_pair.0,
                                rest_props,
                            ) == Seq::<PropertyRefView>::empty() + props_result(
                                self.property,
                                *domain,
                                *id,
                                node_pair.0,
                                node_pair.1.properties@.skip(j + 1),
                            ));
                            assert(matched@.map_values(prop_ref_views()) + props_result(
                                self.property,
                                *domain,
                                *id,
                                node_pair.0,
                                node_pair.1.properties@.skip(j + 1),
                            ) + nodes_result(
                                self.node,
                                self.property,
                                *domain,
                                *id,
                                device_desc.nodes@.skip(i + 1),
                            ) =~= total);
                        }
                    }
                    j = j + 1;
                }
                proof {
                    assert(node_pair.1.properties@.skip(
                        node_pair.1.properties@.len() as int,
                    ) =~= Seq::<(HomieID, HomiePropertyDescription)>::empty());
                    assert(matched@.map_values(prop_ref_views()) + nodes_result(
                        self.node,
                        self.property,
                        *domain,
                        *id,
                        device_desc.nodes@.skip(i + 1),
                    ) =~= total);
                }
            } else {
                proof {
                    assert(nodes_result(
                        self.node,
                        self.property,
                        *domain,
                        *id,
                        rest_nodes,
                    ) == Seq::<PropertyRefView>::empty() + nodes_result(
                        self.node,
                        self.property,
                        *domain,
                        *id,
                        device_desc.nodes@.skip(i + 1),
                    ));
                    assert(pre_outer + (Seq::<PropertyRefView>::empty() + nodes_result(
                        self.node,
                        self.property,
                        *domain,
                        *id,
                        device_desc.nodes@.skip(i + 1),
                    )) =~= pre_outer + nodes_result(
                        self.node,
                        self.property,
                        *domain,
                        *id,
                        device_desc.nodes@.skip(i + 1),
                    ));
                }
            }
            i = i + 1;
        }
        proof {
            assert(device_desc.nodes@.skip(device_desc.nodes@.len() as int) =~= Seq::<
                (HomieID, HomieNodeDescription),
            >::empty());
            assert(matched@.map_values(prop_ref_views()) =~= total);
        }
        matched
    }
}


/// Whether some element of a reference vector has the given view.
pub open spec fn vec_contains_ref(s: Seq<PropertyRef>, p: PropertyRefView) -> bool {
    exists|k: int| 0 <= k < s.len() && (#[trigger] s[k])@ == p
}

/// Whether a view sequence contains the given view.
pub open spec fn refs_contain(s: Seq<PropertyRefView>, p: PropertyRefView) -> bool {
    exists|k: int| 0 <= k < s.len() && s[k] == p
}

/// No two references share a view.
pub open spec fn unique_refs(s: Seq<PropertyRef>) -> bool {
    forall|k: int, l: int| 0 <= k < l < s.len() ==> (#[trigger] s[k])@ != (#[trigger] s[l])@
}

proof fn lemma_contains_push(s: Seq<PropertyRef>, x: PropertyRef, p: PropertyRefView)
    ensures
        vec_contains_ref(s.push(x), p) == (vec_contains_ref(s, p) || x@ == p),
{
    if vec_contains_ref(s, p) {
        let k = choose|k: int| 0 <= k < s.len() && (#[trigger] s[k])@ == p;
        assert(s.push(x)[k]@ == p);
    }
    if x@ == p {
        assert(s.push(x)[s.len() as int]@ == p);
    }
    if vec_contains_ref(s.push(x), p) {
        let k = choose|k: int| 0 <= k < s.push(x).len() && (#[trigger] s.push(x)[k])@ == p;
        if k < s.len() {
            assert(s[k]@ == p);
        } else {
            assert(s.push(x)[k] == x);
        }
    }
}

proof fn lemma_contains_remove(s: Seq<PropertyRef>, i: int, p: PropertyRefView)
    requires
        0 <= i < s.len(),
        forall|j: int| 0 <= j < s.len() && j != i ==> (#[trigger] s[j])@ != s[i]@,
    ensures
        vec_contains_ref(s.remove(i), p) == (vec_contains_ref(s, p) && p != s[i]@),
{
    let t = s.remove(i);
    if vec_contains_ref(t, p) {
        let k = choose|k: int| 0 <= k < t.len() && (#[trigger] t[k])@ == p;
        if k < i {
            assert(s[k]@ == p);
        } else {
            assert(t[k] == s[k + 1]);
            assert(s[k + 1]@ == p);
        }
    }
    if vec_contains_ref(s, p) && p != s[i]@ {
        let k = choose|k: int| 0 <= k < s.len() && (#[trigger] s[k])@ == p;
        if k < i {
            assert(t[k]@ == p);
        } else {
            assert(t[k - 1] == s[k]);
            assert(t[k - 1]@ == p);
        }
    }
}

proof fn lemma_viewmap_contains(s: Seq<PropertyRef>, p: PropertyRefView)
    ensures
        vec_contains_ref(s, p) == refs_contain(s.map_values(prop_ref_views()), p),
{
    let m = s.map_values(prop_ref_views());
    if vec_contains_ref(s, p) {
        let k = choose|k: int| 0 <= k < s.len() && (#[trigger] s[k])@ == p;
        assert(m[k] == p);
    }
    if refs_contain(m, p) {
        let k = choose|k: int| 0 <= k < m.len() && m[k] == p;
        assert(s[k]@ == p);
    }
}

/// A query together with the set of property references currently matching
/// it, maintained incrementally as devices are added and removed.
#[derive(Debug)]
pub struct MaterializedQuery {
    query: QueryDefinition,
    mat_refs: Vec<PropertyRef>,
}

proof fn lemma_unique_push(s: Seq<PropertyRef>, x: PropertyRef)
    requires
        unique_refs(s),
        !vec_contains_ref(s, x@),
    ensures
        unique_refs(s.push(x)),
{
    assert forall|k: int, l: int| 0 <= k < l < s.push(x).len() implies (#[trigger] s.push(x)[k])@
        != (#[trigger] s.push(x)[l])@ by {
        if l == s.len() {
            assert(s.push(x)[l] == x);
            assert(s.push(x)[k] == s[k]);
            if s[k]@ == x@ {
                assert(vec_contains_ref(s, x@));
            }
        } else {
            assert(s.push(x)[k] == s[k]);
            assert(s.push(x)[l] == s[l]);
        }
    }
}

proof fn lemma_unique_remove(s: Seq<PropertyRef>, i: int)
    requires
        unique_refs(s),
        0 <= i < s.len(),
    ensures
        unique_refs(s.remove(i)),
{
    let t = s.remove(i);
    assert forall|k: int, l: int| 0 <= k < l < t.len() implies (#[trigger] t[k])@ != (
    #[trigger] t[l])@ by {
        if k < i {
            assert(t[k] == s[k]);
        } else {
            assert(t[k] == s[k + 1]);
        }
        if l < i {
            assert(t[l] == s[l]);
        } else {
            assert(t[l] == s[l + 1]);
        }
    }
}

proof fn lemma_contains_take_succ(s: Seq<PropertyRef>, t: int, p: PropertyRefView)
    requires
        0 <= t < s.len(),
    ensures
        vec_contains_ref(s.take(t + 1), p) == (vec_contains_ref(s.take(t), p) || s[t]@ == p),
{
    assert(s.take(t + 1) =~= s.take(t).push(s[t]));
    lemma_contains_push(s.take(t), s[t], p);
    assert(vec_contains_ref(s.take(t + 1), p) == vec_contains_ref(s.take(t).push(s[t]), p));
}

impl MaterializedQuery {
    /// No reference occurs twice.
    pub closed spec fn wf(&self) -> bool {
        unique_refs(self.mat_refs@)
    }

    /// The wrapped query.
    pub closed spec fn spec_query(&self) -> QueryDefinition {
        self.query
    }

    /// Whether a reference is in the materialized set.
    pub closed spec fn contains_ref(&self, p: PropertyRefView) -> bool {
        vec_contains_ref(self.mat_refs@, p)
    }

    /// Wraps a query with an empty materialized set.
    pub fn new(query: QueryDefinition) -> (r: Self)
        ensures
            r.wf(),
            r.spec_query() == query,
            forall|p: PropertyRefView| !r.contains_ref(p),
    {
        MaterializedQuery { query, mat_refs: Vec::new() }
    }

    /// Whether the reference is currently matched.
    pub fn match_query(&self, prop_ref: &PropertyRef) -> (r: bool)
        ensures
            r == self.contains_ref(prop_ref@),
    {
        self.match_query_refs(prop_ref)
    }

    /// Re-evaluates one device: purges every reference with that device id,
    /// then inserts the query's fresh match set for the device.
    pub fn add_materialized(
        &mut self,
        domain: &HomieDomain,
        id: &HomieID,
        device_desc: &HomieDeviceDescription,
    )
        requires
            old(self).wf(),
            device_desc.wf(),
        ensures
            final(self).wf(),
            final(self).spec_query() == old(self).spec_query(),
            forall|p: PropertyRefView| final(self).contains_ref(p) == (refs_contain(
                old(self).spec_query().matching_props(domain, id, device_desc),
                p,
            ) || (old(self).contains_ref(p) && p.device_id != id@)),
    {
        let ghost q0 = self.query;
        let ghost old_refs = self.mat_refs@;
        let mut kept: Vec<PropertyRef> = Vec::new();
        let mut t: usize = 0;
        while t < self.mat_refs.len()
            invariant
                t <= self.mat_refs@.len(),
                self.mat_refs@ == old_refs,
                self.query == q0,
                unique_refs(old_refs),
                unique_refs(kept@),
                forall|p: PropertyRefView|
                    #![trigger vec_contains_ref(old_refs.take(t as int), p)]
                    vec_contains_ref(kept@, p) == (vec_contains_ref(old_refs.take(t as int), p)
                    && p.device_id != id@),
            decreases self.mat_refs@.len() - t,
        {
            let ghost pre = kept@;
            let r = &self.mat_refs[t];
            let keep_it = !(r.device_id() == id);
            let tn = t + 1;
            if keep_it {
                let c = r.clone();
                let ghost cc = c;
                proof {
                    assert(cc@ == old_refs[t as int]@);
                    if vec_contains_ref(pre, cc@) {
                        assert(vec_contains_ref(old_refs.take(t as int), cc@));
                        let v = choose|v: int|
                            0 <= v < t && (#[trigger] old_refs.take(t as int)[v])@ == cc@;
                        assert(old_refs[v]@ == old_refs[t as int]@);
                        assert(false);
                    }
                    lemma_unique_push(pre, cc);
                }
                kept.push(c);
                proof {
                    assert(kept@ == pre.push(cc));
                    assert forall|p: PropertyRefView|
                        #![trigger vec_contains_ref(old_refs.take(tn as int), p)]
                        vec_contains_ref(kept@, p) == (vec_contains_ref(
                        old_refs.take(tn as int),
                        p,
                    ) && p.device_id != id@) by {
                        lemma_contains_take_succ(old_refs, t as int, p);
                        assert(vec_contains_ref(pre, p) == (vec_contains_ref(
                            old_refs.take(t as int),
                            p,
                        ) && p.device_id != id@));
                        lemma_contains_push(pre, cc, p);
                    }
                }
            } else {
                proof {
                    assert forall|p: PropertyRefView|
                        #![trigger vec_contains_ref(old_refs.take(tn as int), p)]
                        vec_contains_ref(kept@, p) == (vec_contains_ref(
                        old_refs.take(tn as int),
                        p,
                    ) && p.device_id != id@) by {
                        lemma_contains_take_succ(old_refs, t as int, p);
                        assert(vec_contains_ref(pre, p) == (vec_contains_ref(
                            old_refs.take(t as int),
                            p,
                        ) && p.device_id != id@));
                        assert(old_refs[t as int]@.device_id == id@);
                    }
                }
            }
            t = tn;
        }
        proof {
            assert(old_refs.take(old_refs.len() as int) =~= old_refs);
        }
        self.mat_refs = kept;
        let new_refs = self.query.match_query(domain, id, device_desc);
        let ghost after_purge = self.mat_refs@;
        let mut t: usize = 0;
        while t < new_refs.len()
            invariant
                t <= new_refs@.len(),
                self.query == q0,
                unique_refs(self.mat_refs@),
                forall|p: PropertyRefView| #![trigger vec_contains_ref(after_purge, p)]
                    vec_contains_ref(self.mat_refs@, p) == (vec_contains_ref(after_purge, p)
                    || vec_contains_ref(new_refs@.take(t as int), p)),
            decreases new_refs@.len() - t,
        {
            let ghost pre = self.mat_refs@;
            let r = new_refs[t].clone();
            let ghost rr = r;
            proof {
                assert(rr@ == new_refs@[t as int]@);
            }
            let present = self.match_query_refs(&r);
            if !present {
                proof {
                    lemma_unique_push(pre, rr);
                }
                self.mat_refs.push(r);
            }
            let tn = t + 1;
            proof {
                assert forall|p: PropertyRefView| #![trigger vec_contains_ref(after_purge, p)]
                    vec_contains_ref(self.mat_refs@, p) == (vec_contains_ref(after_purge, p)
                    || vec_contains_ref(new_refs@.take(tn as int), p)) by {
                    lemma_contains_take_succ(new_refs@, t as int, p);
                    assert(vec_contains_ref(pre, p) == (vec_contains_ref(after_purge, p)
                        || vec_contains_ref(new_refs@.take(t as int), p)));
                    if !present {
                        assert(self.mat_refs@ == pre.push(rr));
                        lemma_contains_push(pre, rr, p);
                    } else {
                        assert(vec_contains_ref(pre, rr@));
                    }
                }
            }
            t = tn;
        }
        proof {
            assert(new_refs@.take(new_refs@.len() as int) =~= new_refs@);
            assert forall|p: PropertyRefView| final(self).contains_ref(p) == (refs_contain(
                old(self).spec_query().matching_props(domain, id, device_desc),
                p,
            ) || (old(self).contains_ref(p) && p.device_id != id@)) by {
                assert(vec_contains_ref(self.mat_refs@, p) == (vec_contains_ref(after_purge, p)
                    || vec_contains_ref(new_refs@.take(new_refs@.len() as int), p)));
                assert(vec_contains_ref(after_purge, p) == (vec_contains_ref(
                    old_refs.take(old_refs.len() as int),
                    p,
                ) && p.device_id != id@));
                lemma_viewmap_contains(new_refs@, p);
            }
        }
    }

    /// Removes exactly the references the query currently produces for the
    /// device; entries a query change left behind stay.
    pub fn remove_materialized(
        &mut self,
        domain: &HomieDomain,
        id: &HomieID,
        device_desc: &HomieDeviceDescription,
    )
        requires
            old(self).wf(),
            device_desc.wf(),
        ensures
            final(self).wf(),
            final(self).spec_query() == old(self).spec_query(),
            forall|p: PropertyRefView| final(self).contains_ref(p) == (old(self).contains_ref(p)
                && !refs_contain(
                old(self).spec_query().matching_props(domain, id, device_desc),
                p,
            )),
    {
        let to_remove = self.query.match_query(domain, id, device_desc);
        let ghost q0 = self.query;
        let ghost start = self.mat_refs@;
        let mut t: usize = 0;
        while t < to_remove.len()
            invariant
                t <= to_remove@.len(),
                self.query == q0,
                unique_refs(self.mat_refs@),
                forall|p: PropertyRefView| #![trigger vec_contains_ref(start, p)]
                    vec_contains_ref(self.mat_refs@, p) == (vec_contains_ref(start, p)
                    && !vec_contains_ref(to_remove@.take(t as int), p)),
            decreases to_remove@.len() - t,
        {
            let ghost pre = self.mat_refs@;
            let r = &to_remove[t];
            let found = self.find_ref_index(r);
            let tn = t + 1;
            match found {
                Some(i) => {
                    proof {
                        assert forall|j: int|
                            0 <= j < pre.len() && j != i implies (#[trigger] pre[j])@
                            != pre[i as int]@ by {}
                        lemma_unique_remove(pre, i as int);
                    }
                    self.mat_refs.remove(i);
                },
                None => {},
            }
            proof {
                assert forall|p: PropertyRefView| #![trigger vec_contains_ref(start, p)]
                    vec_contains_ref(self.mat_refs@, p) == (vec_contains_ref(start, p)
                    && !vec_contains_ref(to_remove@.take(tn as int), p)) by {
                    lemma_contains_take_succ(to_remove@, t as int, p);
                    assert(vec_contains_ref(pre, p) == (vec_contains_ref(start, p)
                        && !vec_contains_ref(to_remove@.take(t as int), p)));
                    match found {
                        Some(i) => {
                            assert(self.mat_refs@ == pre.remove(i as int));
                            lemma_contains_remove(pre, i as int, p);
                        },
                        None => {},
                    }
                }
            }
            t = tn;
        }
        proof {
            assert(to_remove@.take(to_remove@.len() as int) =~= to_remove@);
            assert forall|p: PropertyRefView| final(self).contains_ref(p) == (old(
                self,
            ).contains_ref(p) && !refs_contain(
                old(self).spec_query().matching_props(domain, id, device_desc),
                p,
            )) by {
                assert(vec_contains_ref(self.mat_refs@, p) == (vec_contains_ref(start, p)
                    && !vec_contains_ref(to_remove@.take(to_remove@.len() as int), p)));
                lemma_viewmap_contains(to_remove@, p);
            }
        }
    }

    /// Linear-scan membership test used while mutating.
    fn match_query_refs(&self, prop_ref: &PropertyRef) -> (r: bool)
        ensures
            r == vec_contains_ref(self.mat_refs@, prop_ref@),
    {
        let mut k: usize = 0;
        while k < self.mat_refs.len()
            invariant
                k <= self.mat_refs@.len(),
                forall|j: int| 0 <= j < k ==> (#[trigger] self.mat_refs@[j])@ != prop_ref@,
            decreases self.mat_refs@.len() - k,
        {
            if self.mat_refs[k] == *prop_ref {
                return true;
            }
            k = k + 1;
        }
        false
    }

    /// Index of the first reference with the given view, with nothing
    /// matching before it.
    fn find_ref_index(&self, prop_ref: &PropertyRef) -> (r: Option<usize>)
        ensures
            match r {
                Some(i) => i < self.mat_refs@.len() && self.mat_refs@[i as int]@ == prop_ref@
                    && forall|j: int| 0 <= j < i ==> (#[trigger] self.mat_refs@[j])@ != prop_ref@,
                None => !vec_contains_ref(self.mat_refs@, prop_ref@),
            },
    {
        let mut k: usize = 0;
        while k < self.mat_refs.len()
            invariant
                k <= self.mat_refs@.len(),
                forall|j: int| 0 <= j < k ==> (#[trigger] self.mat_refs@[j])@ != prop_ref@,
            decreases self.mat_refs@.len() - k,
        {
            if self.mat_refs[k] == *prop_ref {
                return Some(k);
            }
            k = k + 1;
        }
        None
    }
}

} // verus!
