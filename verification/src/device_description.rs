//! The versioned description tree a device publishes: device-level metadata
//! containing nodes, each containing properties.  A description is treated
//! as immutable once installed and replaced wholesale on a version change.
use crate::ids::{HomieID, PropertyRef};
use crate::lookup::{seq_find, unique_keys};
use crate::value::HomieDataType;
use vstd::prelude::*;

verus! {

/// Spec-level shape of a property description.
pub struct PropertyDescView {
    pub name: Option<Seq<char>>,
    pub datatype: HomieDataType,
    pub format: Seq<char>,
    pub settable: bool,
    pub retained: bool,
    pub unit: Option<Seq<char>>,
}

/// Describes one property: its declared data type, its format in canonical
/// text (empty when the property declares none), whether it is settable and
/// retained, and optional name and unit.
#[derive(Debug)]
pub struct HomiePropertyDescription {
    pub name: Option<String>,
    pub datatype: HomieDataType,
    pub format: String,
    pub settable: bool,
    pub retained: bool,
    pub unit: Option<String>,
}

/// The view of an optional string.
pub open spec fn opt_str_view(o: &Option<String>) -> Option<Seq<char>> {
    match o {
        Some(s) => Some(s@),
        None => None,
    }
}

impl View for HomiePropertyDescription {
    type V = PropertyDescView;

    open spec fn view(&self) -> PropertyDescView {
        PropertyDescView {
            name: opt_str_view(&self.name),
            datatype: self.datatype,
            format: self.format@,
            settable: self.settable,
            retained: self.retained,
            unit: opt_str_view(&self.unit),
        }
    }
}

fn clone_opt_string(o: &Option<String>) -> (r: Option<String>)
    ensures
        opt_str_view(&r) == opt_str_view(o),
{
    match o {
        Some(s) => Some(s.clone()),
        None => None,
    }
}

fn clone_opt_id(o: &Option<HomieID>) -> (r: Option<HomieID>)
    ensures
        r == *o,
{
    match o {
        Some(id) => Some(id.clone()),
        None => None,
    }
}

impl Clone for HomiePropertyDescription {
    fn clone(&self) -> (r: Self)
        ensures
            r@ == self@,
    {
        HomiePropertyDescription {
            name: clone_opt_string(&self.name),
            datatype: self.datatype,
            format: self.format.clone(),
            settable: self.settable,
            retained: self.retained,
            unit: clone_opt_string(&self.unit),
        }
    }
}

/// Spec-level shape of a node description.
pub struct NodeDescView {
    pub name: Option<Seq<char>>,
    pub typ: Option<Seq<char>>,
    pub properties: Seq<(Seq<char>, PropertyDescView)>,
}

/// Describes one node: optional name and type, and its properties in
/// declaration order, each under its identifier.
#[derive(Debug)]
pub struct HomieNodeDescription {
    pub name: Option<String>,
    pub typ: Option<String>,
    pub properties: Vec<(HomieID, HomiePropertyDescription)>,
}

/// The view of a property list: each identifier and description as views.
pub open spec fn props_view(s: Seq<(HomieID, HomiePropertyDescription)>) -> Seq<
    (Seq<char>, PropertyDescView),
> {
    s.map_values(|p: (HomieID, HomiePropertyDescription)| (p.0@, p.1@))
}

impl View for HomieNodeDescription {
    type V = NodeDescView;

    open spec fn view(&self) -> NodeDescView {
        NodeDescView {
            name: opt_str_view(&self.name),
            typ: opt_str_view(&self.typ),
            properties: props_view(self.properties@),
        }
    }
}

impl HomieNodeDescription {
    /// No two properties share an id.
    pub open spec fn wf(&self) -> bool {
        unique_keys(self@.properties)
    }

    /// The description of the property with the given id, if the node
    /// declares it.
    pub fn get_property(&self, prop_id: &HomieID) -> (r: Option<&HomiePropertyDescription>)
        ensures
            match r {
                Some(p) => seq_find(self@.properties, prop_id@) == Some(p@),
                None => seq_find(self@.properties, prop_id@) is None,
            },
    {
        let mut i: usize = 0;
        proof {
            assert(self@.properties.skip(0) =~= self@.properties);
        }
        loop
            invariant
                i <= self.properties@.len(),
                seq_find(self@.properties, prop_id@) == seq_find(
                    self@.properties.skip(i as int),
                    prop_id@,
                ),
            decreases self.properties@.len() - i,
    {
            if i == self.properties.len() {
                return None;
            }
            let pair = &self.properties[i];
            if pair.0 == *prop_id {
                return Some(&pair.1);
            }
            proof {
                assert(self@.properties.skip(i as int).drop_first() =~= self@.properties.skip(
                    i + 1,
                ));
            }
            i = i + 1;
        }
    }
}

impl Clone for HomieNodeDescription {
    fn clone(&self) -> (r: Self)
        ensures
            r@ == self@,
    {
        let mut properties: Vec<(HomieID, HomiePropertyDescription)> = Vec::new();
        let mut i: usize = 0;
        while i < self.properties.len()
            invariant
                i <= self.properties@.len(),
                properties@.len() == i,
                forall|j: int| 0 <= j < i ==> (#[trigger] properties@[j]).0@
                    == self.properties@[j].0@ && properties@[j].1@ == self.properties@[j].1@,
            decreases self.properties@.len() - i,
        {
            let pair = &self.properties[i];
            properties.push((pair.0.clone(), pair.1.clone()));
            i = i + 1;
        }
        let r = HomieNodeDescription {
            name: clone_opt_string(&self.name),
            typ: clone_opt_string(&self.typ),
            properties,
        };
        proof {
            assert(r@.properties =~= self@.properties);
        }
        r
    }
}

/// Spec-level shape of a device description.
pub struct DeviceDescView {
    pub name: Option<Seq<char>>,
    pub version: i64,
    pub homie: Seq<char>,
    pub children: Seq<Seq<char>>,
    pub root: Option<Seq<char>>,
    pub parent: Option<Seq<char>>,
    pub extensions: Seq<Seq<char>>,
    pub nodes: Seq<(Seq<char>, NodeDescView)>,
}

/// The versioned description of a device: metadata, hierarchy links and the
/// nodes in declaration order, each under its identifier.
#[derive(Debug)]
pub struct HomieDeviceDescription {
    pub name: Option<String>,
    pub version: i64,
    pub homie: String,
    pub children: Vec<HomieID>,
    pub root: Option<HomieID>,
    pub parent: Option<HomieID>,
    pub extensions: Vec<String>,
    pub nodes: Vec<(HomieID, HomieNodeDescription)>,
}

/// The view of an optional identifier.
pub open spec fn opt_id_view(o: &Option<HomieID>) -> Option<Seq<char>> {
    match o {
        Some(id) => Some(id@),
        None => None,
    }
}

/// The view of a node list: each identifier and description as views.
pub open spec fn nodes_view(s: Seq<(HomieID, HomieNodeDescription)>) -> Seq<
    (Seq<char>, NodeDescView),
> {
    s.map_values(|p: (HomieID, HomieNodeDescription)| (p.0@, p.1@))
}

impl View for HomieDeviceDescription {
    type V = DeviceDescView;

    open spec fn view(&self) -> DeviceDescView {
        DeviceDescView {
            name: opt_str_view(&self.name),
            version: self.version,
            homie: self.homie@,
            children: self.children@.map_values(|id: HomieID| id@),
            root: opt_id_view(&self.root),
            parent: opt_id_view(&self.parent),
            extensions: self.extensions@.map_values(|s: String| s@),
            nodes: nodes_view(self.nodes@),
        }
    }
}

/// Whether a description's view lists an id among its children.
pub open spec fn children_contain(d: DeviceDescView, id: Seq<char>) -> bool {
    exists|i: int| 0 <= i < d.children.len() && d.children[i] == id
}

/// The property description found under a node id and property id in a
/// description's view.
pub open spec fn find_property(d: DeviceDescView, node_id: Seq<char>, prop_id: Seq<char>) -> Option<
    PropertyDescView,
> {
    match seq_find(d.nodes, node_id) {
        Some(node) => seq_find(node.properties, prop_id),
        None => None,
    }
}

impl HomieDeviceDescription {
    /// No two nodes share an id, and each node's property ids are unique.
    pub open spec fn wf(&self) -> bool {
        unique_keys(self@.nodes) && (forall|i: int|
            0 <= i < self.nodes@.len() ==> (#[trigger] self.nodes@[i]).1.wf())
    }

    /// The description of the node with the given id, if the device
    /// declares it.
    pub fn get_node(&self, node_id: &HomieID) -> (r: Option<&HomieNodeDescription>)
        ensures
            match r {
                Some(n) => seq_find(self@.nodes, node_id@) == Some(n@),
                None => seq_find(self@.nodes, node_id@) is None,
            },
    {
        let mut i: usize = 0;
        proof {
            assert(self@.nodes.skip(0) =~= self@.nodes);
        }
        loop
            invariant
                i <= self.nodes@.len(),
                seq_find(self@.nodes, node_id@) == seq_find(self@.nodes.skip(i as int), node_id@),
            decreases self.nodes@.len() - i,
        {
            if i == self.nodes.len() {
                return None;
            }
            let pair = &self.nodes[i];
            if pair.0 == *node_id {
                return Some(&pair.1);
            }
            proof {
                assert(self@.nodes.skip(i as int).drop_first() =~= self@.nodes.skip(i + 1));
            }
            i = i + 1;
        }
    }

    /// The description of the property a reference points at, if the device
    /// declares it.
    pub fn get_property(&self, property: &PropertyRef) -> (r: Option<&HomiePropertyDescription>)
        ensures
            match r {
                Some(p) => find_property(self@, property@.node_id, property@.prop_id) == Some(p@),
                None => find_property(self@, property@.node_id, property@.prop_id) is None,
            },
    {
        match self.get_node(property.node_id()) {
            Some(node) => node.get_property(property.prop_id()),
            None => None,
        }
    }

    /// Whether the given id occurs among the declared children.
    pub fn has_child(&self, id: &HomieID) -> (r: bool)
        ensures
            r == children_contain(self@, id@),
    {
        let mut i: usize = 0;
        while i < self.children.len()
            invariant
                i <= self.children@.len(),
                forall|j: int| 0 <= j < i ==> (#[trigger] self.children@[j])@ != id@,
            decreases self.children@.len() - i,
        {
            if self.children[i] == *id {
                proof {
                    assert(self@.children[i as int] == id@);
                }
                return true;
            }
            i = i + 1;
        }
        false
    }
}

impl Clone for HomieDeviceDescription {
    fn clone(&self) -> (r: Self)
        ensures
            r@ == self@,
    {
        let mut children: Vec<HomieID> = Vec::new();
        let mut i: usize = 0;
        while i < self.children.len()
            invariant
                i <= self.children@.len(),
                children@.len() == i,
                forall|j: int| 0 <= j < i ==> (#[trigger] children@[j]) == self.children@[j],
            decreases self.children@.len() - i,
        {
            children.push(self.children[i].clone());
            i = i + 1;
        }
        let mut extensions: Vec<String> = Vec::new();
        let mut i: usize = 0;
        while i < self.extensions.len()
            invariant
                i <= self.extensions@.len(),
                extensions@.len() == i,
                forall|j: int| 0 <= j < i ==> (#[trigger] extensions@[j])@
                    == self.extensions@[j]@,
            decreases self.extensions@.len() - i,
        {
            extensions.push(self.extensions[i].clone());
            i = i + 1;
        }
        let mut nodes: Vec<(HomieID, HomieNodeDescription)> = Vec::new();
        let mut i: usize = 0;
        while i < self.nodes.len()
            invariant
                i <= self.nodes@.len(),
                nodes@.len() == i,
                forall|j: int| 0 <= j < i ==> (#[trigger] nodes@[j]).0@ == self.nodes@[j].0@
                    && nodes@[j].1@ == self.nodes@[j].1@,
            decreases self.nodes@.len() - i,
        {
            let pair = &self.nodes[i];
            nodes.push((pair.0.clone(), pair.1.clone()));
            i = i + 1;
        }
        let r = HomieDeviceDescription {
            name: clone_opt_string(&self.name),
            version: self.version,
            homie: self.homie.clone(),
            children,
            root: clone_opt_id(&self.root),
            parent: clone_opt_id(&self.parent),
            extensions,
            nodes,
        };
        proof {
            assert(r@.children =~= self@.children);
            assert(r@.extensions =~= self@.extensions);
            assert(r@.nodes =~= self@.nodes);
        }
        r
    }
}

} // verus!
