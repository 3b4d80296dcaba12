//! Identifier and addressing types of the Homie 5 convention: validated
//! identifiers, domains, and the reference types that name devices and
//! properties inside a domain.
use vstd::prelude::*;
use vstd::string::*;

verus! {

/// Characters allowed in a Homie identifier: lowercase letters, digits, hyphen.
pub open spec fn is_id_char(c: char) -> bool {
    (('a' as u32) <= (c as u32) && (c as u32) <= ('z' as u32)) || (('0' as u32) <= (c as u32) && (c
        as u32) <= ('9' as u32)) || c == '-'
}

/// A valid identifier is non-empty and uses only the allowed characters.
pub open spec fn valid_id_seq(s: Seq<char>) -> bool {
    s.len() > 0 && forall|i: int| 0 <= i < s.len() ==> is_id_char(#[trigger] s[i])
}

/// Returned when a string does not satisfy the identifier rules.
#[derive(Clone, Copy, PartialEq, Eq, Structural, Debug)]
pub struct InvalidHomieIDError;

/// A validated identifier for a device, node, property or alert.
///
/// The view of a `HomieID` is its character sequence; every value of the type
/// satisfies [`valid_id_seq`].
#[derive(Debug)]
pub struct HomieID {
    id: String,
}

impl View for HomieID {
    type V = Seq<char>;

    closed spec fn view(&self) -> Seq<char> {
        self.id@
    }
}

impl HomieID {
    #[verifier::type_invariant]
    closed spec fn wf(self) -> bool {
        valid_id_seq(self.id@)
    }

    /// Validates `id` and wraps it; rejects exactly the strings that break
    /// the identifier rules.
    pub fn try_new(id: String) -> (r: Result<HomieID, InvalidHomieIDError>)
        ensures
            match r {
                Ok(h) => h@ == id@ && valid_id_seq(id@),
                Err(_) => !valid_id_seq(id@),
            },
    {
        let len: usize = id.as_str().unicode_len();
        if len == 0 {
            return Err(InvalidHomieIDError);
        }
        let mut i: usize = 0;
        while i < len
            invariant
                i <= len,
                len == id@.len(),
                forall|j: int| 0 <= j < i ==> is_id_char(#[trigger] id@[j]),
            decreases len - i,
        {
            let c = id.as_str().get_char(i);
            let ok = (('a' as u32) <= (c as u32) && (c as u32) <= ('z' as u32)) || (('0' as u32) <= (
            c as u32) && (c as u32) <= ('9' as u32)) || c == '-';
            if !ok {
                return Err(InvalidHomieIDError);
            }
            i = i + 1;
        }
        Ok(HomieID { id })
    }

    /// The identifier as a string slice.
    pub fn as_str(&self) -> (r: &str)
        ensures
            r@ == self@,
    {
        self.id.as_str()
    }

}

impl Clone for HomieID {
    fn clone(&self) -> (r: Self)
        ensures
            r == *self,
    {
        proof {
            use_type_invariant(self);
        }
        HomieID { id: self.id.clone() }
    }
}

impl PartialEq for HomieID {
    fn eq(&self, other: &Self) -> (r: bool) {
        self.id == other.id
    }
}

impl vstd::std_specs::cmp::PartialEqSpecImpl for HomieID {
    open spec fn obeys_eq_spec() -> bool {
        true
    }

    open spec fn eq_spec(&self, other: &Self) -> bool {
        self@ == other@
    }
}

/// The spec-level shape of a domain: the default domain, the wildcard that
/// stands for every domain in a query, or a custom namespace.
pub enum HomieDomainView {
    Default,
    All,
    Custom(Seq<char>),
}

/// A namespace scoping a set of devices.
///
/// `Default` is the convention's standard namespace, `All` is the reserved
/// wildcard that matches every domain in a query, and `Custom` carries a
/// user-chosen namespace.
#[derive(Debug)]
pub enum HomieDomain {
    Default,
    All,
    Custom(String),
}

impl View for HomieDomain {
    type V = HomieDomainView;

    open spec fn view(&self) -> HomieDomainView {
        match self {
            HomieDomain::Default => HomieDomainView::Default,
            HomieDomain::All => HomieDomainView::All,
            HomieDomain::Custom(s) => HomieDomainView::Custom(s@),
        }
    }
}

impl Clone for HomieDomain {
    fn clone(&self) -> (r: Self)
        ensures
            r@ == self@,
    {
        match self {
            HomieDomain::Default => HomieDomain::Default,
            HomieDomain::All => HomieDomain::All,
            HomieDomain::Custom(s) => HomieDomain::Custom(s.clone()),
        }
    }
}

impl PartialEq for HomieDomain {
    fn eq(&self, other: &Self) -> (r: bool) {
        match (self, other) {
            (HomieDomain::Default, HomieDomain::Default) => true,
            (HomieDomain::All, HomieDomain::All) => true,
            (HomieDomain::Custom(a), HomieDomain::Custom(b)) => *a == *b,
            _ => false,
        }
    }
}

impl vstd::std_specs::cmp::PartialEqSpecImpl for HomieDomain {
    open spec fn obeys_eq_spec() -> bool {
        true
    }

    open spec fn eq_spec(&self, other: &Self) -> bool {
        self@ == other@
    }
}

/// Lifecycle state of a device as published under its state topic.
#[derive(Clone, Copy, PartialEq, Eq, Structural, Debug)]
pub enum HomieDeviceStatus {
    Init,
    Ready,
    Disconnected,
    Sleeping,
    Lost,
}

/// Spec-level key of a device: its domain and identifier.
pub struct DeviceRefView {
    pub domain: HomieDomainView,
    pub id: Seq<char>,
}

/// The stable primary key of a device: a domain together with a device id.
#[derive(Debug)]
pub struct DeviceRef {
    domain: HomieDomain,
    id: HomieID,
}

impl View for DeviceRef {
    type V = DeviceRefView;

    closed spec fn view(&self) -> DeviceRefView {
        DeviceRefView { domain: self.domain@, id: self.id@ }
    }
}

impl DeviceRef {
    pub fn new(homie_domain: HomieDomain, device_id: HomieID) -> (r: DeviceRef)
        ensures
            r@.domain == homie_domain@,
            r@.id == device_id@,
    {
        DeviceRef { domain: homie_domain, id: device_id }
    }

    pub fn homie_domain(&self) -> (r: &HomieDomain)
        ensures
            r@ == self@.domain,
    {
        &self.domain
    }

    pub fn device_id(&self) -> (r: &HomieID)
        ensures
            r@ == self@.id,
    {
        &self.id
    }

    /// A reference in the same domain pointing at another device id.
    pub fn clone_with_id(&self, device_id: HomieID) -> (r: DeviceRef)
        ensures
            r@.domain == self@.domain,
            r@.id == device_id@,
    {
        DeviceRef { domain: self.domain.clone(), id: device_id }
    }

    pub fn into_parts(self) -> (r: (HomieDomain, HomieID))
        ensures
            r.0@ == self@.domain,
            r.1@ == self@.id,
    {
        (self.domain, self.id)
    }
}

impl Clone for DeviceRef {
    fn clone(&self) -> (r: Self)
        ensures
            r@ == self@,
    {
        DeviceRef { domain: self.domain.clone(), id: self.id.clone() }
    }
}

impl PartialEq for DeviceRef {
    fn eq(&self, other: &Self) -> (r: bool) {
        self.domain == other.domain && self.id == other.id
    }
}

impl vstd::std_specs::cmp::PartialEqSpecImpl for DeviceRef {
    open spec fn obeys_eq_spec() -> bool {
        true
    }

    open spec fn eq_spec(&self, other: &Self) -> bool {
        self@ == other@
    }
}

/// Spec-level key of a property inside a device: node id and property id.
pub struct PropertyPointerView {
    pub node_id: Seq<char>,
    pub prop_id: Seq<char>,
}

/// Addresses a property within a device: a node id and a property id.
#[derive(Debug)]
pub struct PropertyPointer {
    node_id: HomieID,
    prop_id: HomieID,
}

impl View for PropertyPointer {
    type V = PropertyPointerView;

    closed spec fn view(&self) -> PropertyPointerView {
        PropertyPointerView { node_id: self.node_id@, prop_id: self.prop_id@ }
    }
}

impl PropertyPointer {
    pub fn new(node_id: HomieID, prop_id: HomieID) -> (r: PropertyPointer)
        ensures
            r@.node_id == node_id@,
            r@.prop_id == prop_id@,
    {
        PropertyPointer { node_id, prop_id }
    }

    pub fn node_id(&self) -> (r: &HomieID)
        ensures
            r@ == self@.node_id,
    {
        &self.node_id
    }

    pub fn prop_id(&self) -> (r: &HomieID)
        ensures
            r@ == self@.prop_id,
    {
        &self.prop_id
    }

    pub fn into_parts(self) -> (r: (HomieID, HomieID))
        ensures
            r.0@ == self@.node_id,
            r.1@ == self@.prop_id,
    {
        (self.node_id, self.prop_id)
    }
}

impl Clone for PropertyPointer {
    fn clone(&self) -> (r: Self)
        ensures
            r@ == self@,
    {
        PropertyPointer { node_id: self.node_id.clone(), prop_id: self.prop_id.clone() }
    }
}

impl PartialEq for PropertyPointer {
    fn eq(&self, other: &Self) -> (r: bool) {
        self.node_id == other.node_id && self.prop_id == other.prop_id
    }
}

impl vstd::std_specs::cmp::PartialEqSpecImpl for PropertyPointer {
    open spec fn obeys_eq_spec() -> bool {
        true
    }

    open spec fn eq_spec(&self, other: &Self) -> bool {
        self@ == other@
    }
}

/// Spec-level key of a property: domain, device id, node id, property id.
pub struct PropertyRefView {
    pub domain: HomieDomainView,
    pub device_id: Seq<char>,
    pub node_id: Seq<char>,
    pub prop_id: Seq<char>,
}

/// The primary key of a property: a device reference plus the property
/// pointer inside that device.
#[derive(Debug)]
pub struct PropertyRef {
    device: DeviceRef,
    ptr: PropertyPointer,
}

impl View for PropertyRef {
    type V = PropertyRefView;

    closed spec fn view(&self) -> PropertyRefView {
        PropertyRefView {
            domain: self.device@.domain,
            device_id: self.device@.id,
            node_id: self.ptr@.node_id,
            prop_id: self.ptr@.prop_id,
        }
    }
}

impl PropertyRef {
    pub fn new(homie_domain: HomieDomain, device_id: HomieID, node_id: HomieID, prop_id: HomieID)
        -> (r: PropertyRef)
        ensures
            r@.domain == homie_domain@,
            r@.device_id == device_id@,
            r@.node_id == node_id@,
            r@.prop_id == prop_id@,
    {
        PropertyRef {
            device: DeviceRef::new(homie_domain, device_id),
            ptr: PropertyPointer::new(node_id, prop_id),
        }
    }

    pub fn homie_domain(&self) -> (r: &HomieDomain)
        ensures
            r@ == self@.domain,
    {
        self.device.homie_domain()
    }

    pub fn device_id(&self) -> (r: &HomieID)
        ensures
            r@ == self@.device_id,
    {
        self.device.device_id()
    }

    pub fn node_id(&self) -> (r: &HomieID)
        ensures
            r@ == self@.node_id,
    {
        self.ptr.node_id()
    }

    pub fn prop_id(&self) -> (r: &HomieID)
        ensures
            r@ == self@.prop_id,
    {
        self.ptr.prop_id()
    }

    pub fn device_ref(&self) -> (r: &DeviceRef)
        ensures
            r@.domain == self@.domain,
            r@.id == self@.device_id,
    {
        &self.device
    }

    pub fn prop_pointer(&self) -> (r: &PropertyPointer)
        ensures
            r@.node_id == self@.node_id,
            r@.prop_id == self@.prop_id,
    {
        &self.ptr
    }
}

impl Clone for PropertyRef {
    fn clone(&self) -> (r: Self)
        ensures
            r@ == self@,
    {
        PropertyRef { device: self.device.clone(), ptr: self.ptr.clone() }
    }
}

impl PartialEq for PropertyRef {
    fn eq(&self, other: &Self) -> (r: bool) {
        self.device == other.device && self.ptr == other.ptr
    }
}

impl vstd::std_specs::cmp::PartialEqSpecImpl for PropertyRef {
    open spec fn obeys_eq_spec() -> bool {
        true
    }

    open spec fn eq_spec(&self, other: &Self) -> bool {
        self@ == other@
    }
}

} // verus!
