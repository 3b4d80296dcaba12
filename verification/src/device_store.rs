//! The authoritative store of every discovered device, keyed by domain and
//! device id.  Each device owns its lifecycle status, its optional
//! versioned description, and its property value and alert stores.
use crate::alert_store::{AlertStore, AlertUpdate};
use crate::device_description::{DeviceDescView, HomieDeviceDescription};
use crate::ids::{
    DeviceRef, DeviceRefView, HomieDeviceStatus, HomieDomain, HomieID, PropertyPointerView,
    PropertyRef, PropertyRefView,
};
use crate::lookup::{
    lemma_map_values_push, lemma_map_values_remove, lemma_map_values_update, lemma_seq_find_absent,
    lemma_seq_find_none_absent, lemma_seq_find_push, lemma_seq_find_remove, lemma_seq_find_skip,
    lemma_seq_find_update, seq_find, unique_keys,
};
use crate::alert_store::store_alert_post;
use crate::device_description::children_contain;
use crate::property_value_store::{
    store_target_post, store_value_post, PropertyValueEntry, PropertyValueEntryView,
    PropertyValueStore, ValueUpdate,
};
use crate::value::HomieValue;
use vstd::prelude::*;

verus! {

/// Spec-level shape of a device.
pub struct DeviceView {
    pub ident: DeviceRefView,
    pub state: HomieDeviceStatus,
    pub description: Option<DeviceDescView>,
    pub prop_values: Seq<(PropertyPointerView, PropertyValueEntryView)>,
    pub alerts: Seq<(Seq<char>, Seq<char>)>,
}

/// A discovered device: its identity, current lifecycle status, optional
/// versioned description, and its owned value and alert stores.
#[derive(Debug)]
pub struct Device {
    pub ident: DeviceRef,
    pub state: HomieDeviceStatus,
    pub description: Option<HomieDeviceDescription>,
    pub prop_values: PropertyValueStore,
    pub alerts: AlertStore,
}

/// The view of an optional description.
pub open spec fn opt_desc_view(o: &Option<HomieDeviceDescription>) -> Option<DeviceDescView> {
    match o {
        Some(d) => Some(d@),
        None => None,
    }
}

impl View for Device {
    type V = DeviceView;

    open spec fn view(&self) -> DeviceView {
        DeviceView {
            ident: self.ident@,
            state: self.state,
            description: opt_desc_view(&self.description),
            prop_values: self.prop_values@,
            alerts: self.alerts@,
        }
    }
}

impl Device {
    /// Both owned stores keep their keys unique.
    pub open spec fn wf(&self) -> bool {
        self.prop_values.wf() && self.alerts.wf()
    }

    /// The domain the device lives in.
    pub fn homie_domain(&self) -> (r: &HomieDomain)
        ensures
            r@ == self@.ident.domain,
    {
        self.ident.homie_domain()
    }

    /// The device's identifier.
    pub fn device_id(&self) -> (r: &HomieID)
        ensures
            r@ == self@.ident.id,
    {
        self.ident.device_id()
    }
}

fn clone_opt_desc(o: &Option<HomieDeviceDescription>) -> (r: Option<HomieDeviceDescription>)
    ensures
        opt_desc_view(&r) == opt_desc_view(o),
{
    match o {
        Some(d) => Some(d.clone()),
        None => None,
    }
}

impl Clone for Device {
    fn clone(&self) -> (r: Self)
        ensures
            r@ == self@,
            r.wf() == self.wf(),
    {
        Device {
            ident: self.ident.clone(),
            state: self.state,
            description: clone_opt_desc(&self.description),
            prop_values: self.prop_values.clone(),
            alerts: self.alerts.clone(),
        }
    }
}

/// The outcome of feeding a device status into the store.
#[derive(Debug)]
pub enum DeviceUpdate {
    Added(DeviceRef),
    StateUpdate { device: DeviceRef, from: HomieDeviceStatus, to: HomieDeviceStatus },
    NoChange,
}

/// The outcome of feeding a device description into the store.
#[derive(Debug)]
pub enum DescriptionUpdate {
    Update { device: DeviceRef, from: Option<HomieDeviceDescription> },
    NoChange,
    NotFound,
}

/// The outcome of removing a device.
#[derive(Debug)]
pub enum DeviceRemove {
    Removed(Device),
    NotFound,
}

/// The view of one stored device: its key and its view.
pub open spec fn device_pair_view() -> spec_fn(Device) -> (DeviceRefView, DeviceView) {
    |d: Device| (d.ident@, d@)
}

/// The device key a property reference points into.
pub open spec fn prop_device_key(p: PropertyRefView) -> DeviceRefView {
    DeviceRefView { domain: p.domain, id: p.device_id }
}

/// The in-device pointer a property reference carries.
pub open spec fn prop_pointer_key(p: PropertyRefView) -> PropertyPointerView {
    PropertyPointerView { node_id: p.node_id, prop_id: p.prop_id }
}

/// The store of all discovered devices, keyed by (domain, device id).
#[derive(Debug)]
pub struct DeviceStore {
    devices: Vec<Device>,
}

impl View for DeviceStore {
    type V = Seq<(DeviceRefView, DeviceView)>;

    closed spec fn view(&self) -> Seq<(DeviceRefView, DeviceView)> {
        self.devices@.map_values(device_pair_view())
    }
}

impl DeviceStore {
    /// Keys are unique and every device's own stores are well-formed.
    pub closed spec fn wf(&self) -> bool {
        unique_keys(self@) && (forall|i: int|
            0 <= i < self.devices@.len() ==> (#[trigger] self.devices@[i]).wf())
    }

    /// The device stored under a key, if any.
    pub open spec fn spec_get(&self, k: DeviceRefView) -> Option<DeviceView> {
        seq_find(self@, k)
    }

    /// An empty store.
    pub fn new() -> (r: Self)
        ensures
            r.wf(),
            r@.len() == 0,
    {
        let r = DeviceStore { devices: Vec::new() };
        proof {
            assert(r@ =~= Seq::<(DeviceRefView, DeviceView)>::empty());
        }
        r
    }

    /// How many devices are known, over all domains.
    pub fn count(&self) -> (r: usize)
        ensures
            r == self@.len(),
    {
        self.devices.len()
    }

    /// Forgets every device.
    pub fn clear(&mut self)
        ensures
            final(self).wf(),
            final(self)@.len() == 0,
    {
        self.devices.clear();
        proof {
            assert(self@ =~= Seq::<(DeviceRefView, DeviceView)>::empty());
        }
    }

    /// The key of every stored device, in store order.
    pub fn iter(&self) -> (r: Vec<DeviceRef>)
        ensures
            r@.len() == self@.len(),
            forall|i: int| 0 <= i < r@.len() ==> (#[trigger] r@[i])@ == self@[i].0,
    {
        let mut refs: Vec<DeviceRef> = Vec::new();
        let mut i: usize = 0;
        while i < self.devices.len()
            invariant
                i <= self.devices@.len(),
                refs@.len() == i,
                forall|j: int| 0 <= j < i ==> (#[trigger] refs@[j])@ == self@[j].0,
            decreases self.devices@.len() - i,
        {
            refs.push(self.devices[i].ident.clone());
            i = i + 1;
        }
        refs
    }

    /// Index of the device under `devref`, with nothing matching before it.
    fn find_index(&self, devref: &DeviceRef) -> (r: Option<usize>)
        ensures
            match r {
                Some(i) => i < self@.len() && self@[i as int].0 == devref@ && forall|j: int|
                    0 <= j < i ==> (#[trigger] self@[j]).0 != devref@,
                None => forall|j: int| 0 <= j < self@.len() ==> (#[trigger] self@[j]).0 != devref@,
            },
    {
        let mut i: usize = 0;
        while i < self.devices.len()
            invariant
                i <= self.devices@.len(),
                forall|j: int| 0 <= j < i ==> (#[trigger] self@[j]).0 != devref@,
            decreases self.devices@.len() - i,
        {
            if self.devices[i].ident == *devref {
                return Some(i);
            }
            i = i + 1;
        }
        None
    }

    /// The device stored under `devref`, if any.
    pub fn get_device(&self, devref: &DeviceRef) -> (r: Option<&Device>)
        ensures
            match r {
                Some(d) => self.spec_get(devref@) == Some(d@),
                None => self.spec_get(devref@) is None,
            },
    {
        match self.find_index(devref) {
            Some(i) => {
                proof {
                    lemma_seq_find_skip(self@, i as int, devref@);
                    assert(self@.skip(i as int)[0] == self@[i as int]);
                }
                Some(&self.devices[i])
            },
            None => {
                proof {
                    lemma_seq_find_absent(self@, devref@);
                }
                None
            },
        }
    }

    /// Whether a device is stored under `devref`.
    pub fn contains_device(&self, devref: &DeviceRef) -> (r: bool)
        ensures
            r == (self.spec_get(devref@) is Some),
    {
        let found = self.find_index(devref);
        proof {
            if found is Some {
                if self.spec_get(devref@) is None {
                    lemma_seq_find_none_absent(self@, devref@);
                }
            } else {
                lemma_seq_find_absent(self@, devref@);
            }
        }
        found.is_some()
    }

    /// The stored status of the device under `devref`.
    pub fn device_state(&self, devref: &DeviceRef) -> (r: Option<HomieDeviceStatus>)
        ensures
            r == (match self.spec_get(devref@) {
                Some(d) => Some(d.state),
                None => None::<HomieDeviceStatus>,
            }),
    {
        match self.get_device(devref) {
            Some(d) => Some(d.state),
            None => None,
        }
    }

    /// Feeds a device status into the store: creates the device on first
    /// sight, updates a differing status, reports an unchanged one.
    pub fn add(&mut self, device_ref: &DeviceRef, status: HomieDeviceStatus) -> (r: DeviceUpdate)
        requires
            old(self).wf(),
        ensures
            final(self).wf(),
            match old(self).spec_get(device_ref@) {
                None => {
                    &&& (r matches DeviceUpdate::Added(d) && d@ == device_ref@)
                    &&& final(self).spec_get(device_ref@) matches Some(nd)
                        && nd.ident == device_ref@ && nd.state == status && nd.description is None
                        && nd.prop_values.len() == 0 && nd.alerts.len() == 0
                    &&& final(self)@.len() == old(self)@.len() + 1
                },
                Some(dev) => {
                    &&& (dev.state == status ==> r is NoChange && final(self)@ == old(self)@)
                    &&& (dev.state != status ==> {
                        &&& (r matches DeviceUpdate::StateUpdate { device: d, from, to }
                            && d@ == device_ref@ && from == dev.state && to == status)
                        &&& final(self).spec_get(device_ref@) == Some(
                            DeviceView { state: status, ..dev },
                        )
                    })
                    &&& final(self)@.len() == old(self)@.len()
                },
            },
            forall|q: DeviceRefView| q != device_ref@ ==> seq_find(final(self)@, q) == seq_find(
                old(self)@,
                q,
            ),
    {
        match self.find_index(device_ref) {
            Some(i) => {
                proof {
                    lemma_seq_find_skip(self@, i as int, device_ref@);
                    assert(self@.skip(i as int)[0] == self@[i as int]);
                }
                if self.devices[i].state == status {
                    DeviceUpdate::NoChange
                } else {
                    let from = self.devices[i].state;
                    let ghost old_view = self@;
                    let ghost old_devs = self.devices@;
                    let d = &mut self.devices[i];
                    d.state = status;
                    proof {
                        let nd = self.devices@[i as int];
                        assert(self.devices@ == old_devs.update(i as int, nd));
                        lemma_map_values_update(old_devs, i as int, nd, device_pair_view());
                        assert(self@ =~= old_view.update(i as int, (old_view[i as int].0, nd@)));
                        lemma_seq_find_update(old_view, i as int, nd@, device_ref@);
                        assert forall|q: DeviceRefView| q != device_ref@ implies seq_find(
                            final(self)@,
                            q,
                        ) == seq_find(old(self)@, q) by {
                            lemma_seq_find_update(old_view, i as int, nd@, q);
                        }
                        assert(nd@ == DeviceView { state: status, ..old_view[i as int].1 });
                    }
                    DeviceUpdate::StateUpdate { device: device_ref.clone(), from, to: status }
                }
            },
            None => {
                proof {
                    lemma_seq_find_absent(self@, device_ref@);
                }
                let device = Device {
                    ident: device_ref.clone(),
                    state: status,
                    description: None,
                    prop_values: PropertyValueStore::new(),
                    alerts: AlertStore::new(),
                };
                let ghost old_view = self@;
                let ghost ndv = device@;
                proof {
                    lemma_map_values_push(self.devices@, device, device_pair_view());
                    lemma_seq_find_push(old_view, ndv.ident, ndv, device_ref@);
                    assert forall|q: DeviceRefView| q != device_ref@ implies seq_find(
                        old_view.push((ndv.ident, ndv)),
                        q,
                    ) == seq_find(old_view, q) by {
                        lemma_seq_find_push(old_view, ndv.ident, ndv, q);
                    }
                }
                self.devices.push(device);
                proof {
                    assert(self@ =~= old_view.push((ndv.ident, ndv)));
                    assert forall|q: DeviceRefView| q != device_ref@ implies seq_find(
                        final(self)@,
                        q,
                    ) == seq_find(old(self)@, q) by {
                        assert(seq_find(old_view.push((ndv.ident, ndv)), q) == seq_find(
                            old_view,
                            q,
                        ));
                    }
                }
                DeviceUpdate::Added(device_ref.clone())
            },
        }
    }

    /// Removes the device under `devref`, handing it to the caller for
    /// cleanup.
    pub fn remove_device(&mut self, devref: &DeviceRef) -> (r: DeviceRemove)
        requires
            old(self).wf(),
        ensures
            final(self).wf(),
            match old(self).spec_get(devref@) {
                Some(dev) => {
                    &&& (r matches DeviceRemove::Removed(d) && d@ == dev && d.wf())
                    &&& final(self).spec_get(devref@) is None
                    &&& final(self)@.len() == old(self)@.len() - 1
                },
                None => r is NotFound && final(self)@ == old(self)@,
            },
            forall|q: DeviceRefView| q != devref@ ==> seq_find(final(self)@, q) == seq_find(
                old(self)@,
                q,
            ),
    {
        match self.find_index(devref) {
            Some(i) => {
                let ghost old_view = self@;
                proof {
                    lemma_seq_find_skip(self@, i as int, devref@);
                    assert(self@.skip(i as int)[0] == self@[i as int]);
                    lemma_map_values_remove(self.devices@, i as int, device_pair_view());
                    assert forall|j: int|
                        0 <= j < old_view.len() && j != i implies (#[trigger] old_view[j]).0
                        != old_view[i as int].0 by {}
                    lemma_seq_find_remove(old_view, i as int, devref@);
                    assert forall|q: DeviceRefView| q != devref@ implies seq_find(
                        old_view.remove(i as int),
                        q,
                    ) == seq_find(old_view, q) by {
                        lemma_seq_find_remove(old_view, i as int, q);
                    }
                }
                let device = self.devices.remove(i);
                proof {
                    assert(self@ =~= old_view.remove(i as int));
                    assert forall|q: DeviceRefView| q != devref@ implies seq_find(final(self)@, q)
                        == seq_find(old(self)@, q) by {
                        assert(seq_find(old_view.remove(i as int), q) == seq_find(old_view, q));
                    }
                }
                DeviceRemove::Removed(device)
            },
            None => {
                proof {
                    lemma_seq_find_absent(self@, devref@);
                }
                DeviceRemove::NotFound
            },
        }
    }

    /// Feeds a device description into the store.  A description for an
    /// undiscovered device is rejected; an equal version is a no-op; a new
    /// or differing version replaces the stored description wholesale.
    pub fn store_description(
        &mut self,
        device_ref: &DeviceRef,
        description: HomieDeviceDescription,
    ) -> (r: DescriptionUpdate)
        requires
            old(self).wf(),
        ensures
            final(self).wf(),
            match old(self).spec_get(device_ref@) {
                None => r is NotFound && final(self)@ == old(self)@,
                Some(dev) => match dev.description {
                    None => {
                        &&& (r matches DescriptionUpdate::Update { device: d, from }
                            && d@ == device_ref@ && from is None)
                        &&& final(self).spec_get(device_ref@) == Some(
                            DeviceView { description: Some(description@), ..dev },
                        )
                    },
                    Some(old_desc) => {
                        &&& (old_desc.version == description@.version ==> r is NoChange
                            && final(self)@ == old(self)@)
                        &&& (old_desc.version != description@.version ==> {
                            &&& (r matches DescriptionUpdate::Update { device: d, from }
                                && d@ == device_ref@ && (from matches Some(f) && f@ == old_desc))
                            &&& final(self).spec_get(device_ref@) == Some(
                                DeviceView { description: Some(description@), ..dev },
                            )
                        })
                    },
                },
            },
            forall|q: DeviceRefView| q != device_ref@ ==> seq_find(final(self)@, q) == seq_find(
                old(self)@,
                q,
            ),
    {
        match self.find_index(device_ref) {
            Some(i) => {
                proof {
                    lemma_seq_find_skip(self@, i as int, device_ref@);
                    assert(self@.skip(i as int)[0] == self@[i as int]);
                }
                let same_version = match &self.devices[i].description {
                    Some(old_desc) => old_desc.version == description.version,
                    None => false,
                };
                if same_version {
                    DescriptionUpdate::NoChange
                } else {
                    let from = clone_opt_desc(&self.devices[i].description);
                    let ghost old_view = self@;
                    let ghost old_devs = self.devices@;
                    let ghost descv = description@;
                    let d = &mut self.devices[i];
                    d.description = Some(description);
                    proof {
                        let nd = self.devices@[i as int];
                        assert(self.devices@ == old_devs.update(i as int, nd));
                        lemma_map_values_update(old_devs, i as int, nd, device_pair_view());
                        assert(self@ =~= old_view.update(i as int, (old_view[i as int].0, nd@)));
                        lemma_seq_find_update(old_view, i as int, nd@, device_ref@);
                        assert forall|q: DeviceRefView| q != device_ref@ implies seq_find(
                            final(self)@,
                            q,
                        ) == seq_find(old(self)@, q) by {
                            lemma_seq_find_update(old_view, i as int, nd@, q);
                        }
                        assert(nd@ == DeviceView {
                            description: Some(descv),
                            ..old_view[i as int].1
                        });
                    }
                    DescriptionUpdate::Update { device: device_ref.clone(), from }
                }
            },
            None => {
                proof {
                    lemma_seq_find_absent(self@, device_ref@);
                }
                DescriptionUpdate::NotFound
            },
        }
    }

    /// The value entry stored for a property, if its device holds one.
    pub fn get_value_entry(&self, prop: &PropertyRef) -> (r: Option<&PropertyValueEntry>)
        ensures
            match self.spec_get(prop_device_key(prop@)) {
                Some(dev) => match seq_find(dev.prop_values, prop_pointer_key(prop@)) {
                    Some(e) => r matches Some(re) && re@ == e,
                    None => r is None,
                },
                None => r is None,
            },
    {
        match self.get_device(prop.device_ref()) {
            Some(device) => device.prop_values.get_value_entry(prop.prop_pointer()),
            None => None,
        }
    }

    /// The last-known value of a property, if its device holds one.
    pub fn get_property_value(&self, prop: &PropertyRef) -> (r: Option<&HomieValue>)
        ensures
            match self.spec_get(prop_device_key(prop@)) {
                Some(dev) => match seq_find(dev.prop_values, prop_pointer_key(prop@)) {
                    Some(e) => match e.value {
                        Some(v) => r matches Some(rv) && rv@ == v,
                        None => r is None,
                    },
                    None => r is None,
                },
                None => r is None,
            },
    {
        match self.get_value_entry(prop) {
            Some(entry) => entry.value.as_ref(),
            None => None,
        }
    }

    /// Whether the property's device holds an entry for it.
    pub fn contains_property(&self, prop: &PropertyRef) -> (r: bool)
        ensures
            r == (match self.spec_get(prop_device_key(prop@)) {
                Some(dev) => seq_find(dev.prop_values, prop_pointer_key(prop@)) is Some,
                None => false,
            }),
    {
        match self.get_device(prop.device_ref()) {
            Some(device) => device.prop_values.contains_key(prop.prop_pointer()),
            None => false,
        }
    }

    /// Stores a property value on its device, if the device is known.
    pub fn store_device_value(&mut self, property: &PropertyRef, value: HomieValue) -> (r: Option<
        ValueUpdate<HomieValue>,
    >)
        requires
            old(self).wf(),
        ensures
            final(self).wf(),
            match old(self).spec_get(prop_device_key(property@)) {
                None => r is None && final(self)@ == old(self)@,
                Some(dev) => {
                    &&& (final(self).spec_get(prop_device_key(property@)) matches Some(nd)
                        && nd.ident == dev.ident && nd.state == dev.state && nd.description
                        == dev.description && nd.alerts == dev.alerts && (r matches Some(u)
                        && store_value_post(
                        dev.prop_values,
                        nd.prop_values,
                        prop_pointer_key(property@),
                        value@,
                        u,
                    )))
                },
            },
            forall|q: DeviceRefView| q != prop_device_key(property@) ==> seq_find(
                final(self)@,
                q,
            ) == seq_find(old(self)@, q),
    {
        match self.find_index(property.device_ref()) {
            Some(i) => {
                proof {
                    lemma_seq_find_skip(self@, i as int, prop_device_key(property@));
                    assert(self@.skip(i as int)[0] == self@[i as int]);
                    assert(self.devices@[i as int].wf());
                }
                let ghost old_view = self@;
                let ghost old_devs = self.devices@;
                let d = &mut self.devices[i];
                let u = d.prop_values.store_value(property.prop_pointer(), value);
                proof {
                    let nd = self.devices@[i as int];
                    assert(self.devices@ == old_devs.update(i as int, nd));
                    lemma_map_values_update(old_devs, i as int, nd, device_pair_view());
                    assert(self@ =~= old_view.update(i as int, (old_view[i as int].0, nd@)));
                    lemma_seq_find_update(old_view, i as int, nd@, prop_device_key(property@));
                    assert forall|q: DeviceRefView| q != prop_device_key(property@) implies
                        seq_find(final(self)@, q) == seq_find(old(self)@, q) by {
                        lemma_seq_find_update(old_view, i as int, nd@, q);
                    }
                }
                Some(u)
            },
            None => {
                proof {
                    lemma_seq_find_absent(self@, prop_device_key(property@));
                }
                None
            },
        }
    }

    /// Stores a property target on its device, if the device is known.
    pub fn store_device_target(&mut self, property: &PropertyRef, target: HomieValue) -> (r:
        Option<ValueUpdate<HomieValue>>)
        requires
            old(self).wf(),
        ensures
            final(self).wf(),
            match old(self).spec_get(prop_device_key(property@)) {
                None => r is None && final(self)@ == old(self)@,
                Some(dev) => {
                    &&& (final(self).spec_get(prop_device_key(property@)) matches Some(nd)
                        && nd.ident == dev.ident && nd.state == dev.state && nd.description
                        == dev.description && nd.alerts == dev.alerts && (r matches Some(u)
                        && store_target_post(
                        dev.prop_values,
                        nd.prop_values,
                        prop_pointer_key(property@),
                        target@,
                        u,
                    )))
                },
            },
            forall|q: DeviceRefView| q != prop_device_key(property@) ==> seq_find(
                final(self)@,
                q,
            ) == seq_find(old(self)@, q),
    {
        match self.find_index(property.device_ref()) {
            Some(i) => {
                proof {
                    lemma_seq_find_skip(self@, i as int, prop_device_key(property@));
                    assert(self@.skip(i as int)[0] == self@[i as int]);
                    assert(self.devices@[i as int].wf());
                }
                let ghost old_view = self@;
                let ghost old_devs = self.devices@;
                let d = &mut self.devices[i];
                let u = d.prop_values.store_target(property.prop_pointer(), target);
                proof {
                    let nd = self.devices@[i as int];
                    assert(self.devices@ == old_devs.update(i as int, nd));
                    lemma_map_values_update(old_devs, i as int, nd, device_pair_view());
                    assert(self@ =~= old_view.update(i as int, (old_view[i as int].0, nd@)));
                    lemma_seq_find_update(old_view, i as int, nd@, prop_device_key(property@));
                    assert forall|q: DeviceRefView| q != prop_device_key(property@) implies
                        seq_find(final(self)@, q) == seq_find(old(self)@, q) by {
                        lemma_seq_find_update(old_view, i as int, nd@, q);
                    }
                }
                Some(u)
            },
            None => {
                proof {
                    lemma_seq_find_absent(self@, prop_device_key(property@));
                }
                None
            },
        }
    }

    /// Stores an alert on a device, if the device is known.
    pub fn store_device_alert(&mut self, device: &DeviceRef, id: HomieID, alert: String) -> (r:
        Option<AlertUpdate>)
        requires
            old(self).wf(),
        ensures
            final(self).wf(),
            match old(self).spec_get(device@) {
                None => r is None && final(self)@ == old(self)@,
                Some(dev) => {
                    &&& (final(self).spec_get(device@) matches Some(nd) && nd.ident == dev.ident
                        && nd.state == dev.state && nd.description == dev.description
                        && nd.prop_values == dev.prop_values && (r matches Some(u)
                        && store_alert_post(dev.alerts, nd.alerts, id@, alert@, u)))
                },
            },
            forall|q: DeviceRefView| q != device@ ==> seq_find(final(self)@, q) == seq_find(
                old(self)@,
                q,
            ),
    {
        match self.find_index(device) {
            Some(i) => {
                proof {
                    lemma_seq_find_skip(self@, i as int, device@);
                    assert(self@.skip(i as int)[0] == self@[i as int]);
                    assert(self.devices@[i as int].wf());
                }
                let ghost old_view = self@;
                let ghost old_devs = self.devices@;
                let d = &mut self.devices[i];
                let u = d.alerts.store_alert(id, alert);
                proof {
                    let nd = self.devices@[i as int];
                    assert(self.devices@ == old_devs.update(i as int, nd));
                    lemma_map_values_update(old_devs, i as int, nd, device_pair_view());
                    assert(self@ =~= old_view.update(i as int, (old_view[i as int].0, nd@)));
                    lemma_seq_find_update(old_view, i as int, nd@, device@);
                    assert forall|q: DeviceRefView| q != device@ implies seq_find(final(self)@, q)
                        == seq_find(old(self)@, q) by {
                        lemma_seq_find_update(old_view, i as int, nd@, q);
                    }
                }
                Some(u)
            },
            None => {
                proof {
                    lemma_seq_find_absent(self@, device@);
                }
                None
            },
        }
    }

    /// The operational state a device effectively has: its own status when
    /// it is not ready, else the status of its declared root device (falling
    /// back to its own when the root is unknown).
    pub open spec fn resolved_state(&self, k: DeviceRefView) -> Option<HomieDeviceStatus> {
        match self.spec_get(k) {
            None => None,
            Some(dev) => if !(dev.state is Ready) {
                Some(dev.state)
            } else {
                match dev.description {
                    Some(desc) => match desc.root {
                        Some(root_id) => match self.spec_get(
                            DeviceRefView { domain: k.domain, id: root_id },
                        ) {
                            Some(rd) => Some(rd.state),
                            None => Some(dev.state),
                        },
                        None => Some(dev.state),
                    },
                    None => Some(dev.state),
                }
            },
        }
    }

    /// Decides [`DeviceStore::resolved_state`]: lets dependent sub-devices
    /// inherit the operational state of their root device.
    pub fn device_state_resolved(&self, devref: &DeviceRef) -> (r: Option<HomieDeviceStatus>)
        ensures
            r == self.resolved_state(devref@),
    {
        let device = match self.get_device(devref) {
            Some(d) => d,
            None => {
                return None;
            },
        };
        if !matches!(device.state, HomieDeviceStatus::Ready) {
            return Some(device.state);
        }
        let root = match &device.description {
            Some(desc) => match &desc.root {
                Some(root_id) => root_id,
                None => {
                    return Some(device.state);
                },
            },
            None => {
                return Some(device.state);
            },
        };
        let root_ref = devref.clone_with_id(root.clone());
        match self.get_device(&root_ref) {
            Some(root_device) => Some(root_device.state),
            None => Some(device.state),
        }
    }

    /// Whether a device is orphaned, walking up at most `fuel` parent
    /// links: it declares a parent that is unknown, or whose description
    /// does not list it among its children; a parent that is itself a child
    /// passes the question up the chain.  A chain longer than the fuel can
    /// only close a cycle and counts as orphaned.
    pub open spec fn orphaned_from(&self, dev: DeviceView, fuel: nat) -> bool
        decreases fuel,
    {
        match dev.description {
            None => false,
            Some(desc) => match desc.parent {
                None => false,
                Some(parent_id) => match self.spec_get(
                    DeviceRefView { domain: dev.ident.domain, id: parent_id },
                ) {
                    None => true,
                    Some(p) => match p.description {
                        None => false,
                        Some(pdesc) => if !children_contain(pdesc, dev.ident.id) {
                            true
                        } else if pdesc.parent is Some {
                            if fuel == 0 {
                                true
                            } else {
                                self.orphaned_from(p, (fuel - 1) as nat)
                            }
                        } else {
                            false
                        },
                    },
                },
            },
        }
    }

    /// Decides [`DeviceStore::orphaned_from`] with the store's size as the
    /// hop bound, which covers every acyclic parent chain.
    pub fn is_orphaned(&self, device: &Device) -> (r: bool)
        ensures
            r == self.orphaned_from(device@, self@.len() as nat),
    {
        let mut fuel: usize = self.devices.len();
        let mut current: &Device = device;
        loop
            invariant
                fuel <= self@.len(),
                self.orphaned_from(device@, self@.len() as nat) == self.orphaned_from(
                    current@,
                    fuel as nat,
                ),
            decreases fuel,
        {
            let desc = match &current.description {
                Some(d) => d,
                None => {
                    return false;
                },
            };
            let parent_id = match &desc.parent {
                Some(p) => p,
                None => {
                    return false;
                },
            };
            let parent_ref = current.ident.clone_with_id(parent_id.clone());
            let parent = match self.get_device(&parent_ref) {
                Some(p) => p,
                None => {
                    return true;
                },
            };
            let pdesc = match &parent.description {
                Some(d) => d,
                None => {
                    return false;
                },
            };
            if !pdesc.has_child(current.device_id()) {
                return true;
            }
            if pdesc.parent.is_some() {
                if fuel == 0 {
                    return true;
                }
                current = parent;
                fuel = fuel - 1;
            } else {
                return false;
            }
        }
    }
}

/// Law: a device whose description declares no parent, or that has no
/// description at all, is never orphaned.
pub proof fn lemma_orphan_no_parent(store: &DeviceStore, dev: DeviceView, fuel: nat)
    requires
        match dev.description {
            Some(d) => d.parent is None,
            None => true,
        },
    ensures
        !store.orphaned_from(dev, fuel),
{
}

/// Law: a device declaring a parent the store does not know is orphaned.
pub proof fn lemma_orphan_unknown_parent(store: &DeviceStore, dev: DeviceView, fuel: nat)
    requires
        dev.description matches Some(d) && (d.parent matches Some(pid) && store.spec_get(
            DeviceRefView { domain: dev.ident.domain, id: pid },
        ) is None),
    ensures
        store.orphaned_from(dev, fuel),
{
}

/// Law: a device whose parent exists, lists it among its children, and is
/// itself no child, is not orphaned.
pub proof fn lemma_orphan_rooted_parent(store: &DeviceStore, dev: DeviceView, fuel: nat)
    requires
        dev.description matches Some(d) && (d.parent matches Some(pid) && (store.spec_get(
            DeviceRefView { domain: dev.ident.domain, id: pid },
        ) matches Some(p) && (p.description matches Some(pd) && children_contain(
            pd,
            dev.ident.id,
        ) && pd.parent is None))),
    ensures
        !store.orphaned_from(dev, fuel),
{
}

/// Law: a device whose parent exists with a description that does not list
/// it among its children is orphaned.
pub proof fn lemma_orphan_disowned(store: &DeviceStore, dev: DeviceView, fuel: nat)
    requires
        dev.description matches Some(d) && (d.parent matches Some(pid) && (store.spec_get(
            DeviceRefView { domain: dev.ident.domain, id: pid },
        ) matches Some(p) && (p.description matches Some(pd) && !children_contain(
            pd,
            dev.ident.id,
        )))),
    ensures
        store.orphaned_from(dev, fuel),
{
}

} // verus!
