//! Descriptions of discovered devices and the criteria that select them.

use vstd::prelude::*;
use vstd::std_specs::cmp::PartialEqSpecImpl;
use std::hash::Hash;
use std::hash::Hasher;

verus! {

/// The platform's own identity of a device, by which the device is found
/// again when it is opened.
#[derive(Debug, Clone)]
pub enum DeviceId {
    /// The registry entry identifier of the device.
    RegistryEntry(u64),
    /// The file path of the device node.
    Path(String),
    /// The interface identifier of the device.
    Guid(String),
    /// The number under which the backend keeps the device object.
    Object(u64),
}

/// The mathematical value of a [`DeviceId`].
pub enum DeviceIdView {
    RegistryEntry(u64),
    Path(Seq<char>),
    Guid(Seq<char>),
    Object(u64),
}

impl View for DeviceId {
    type V = DeviceIdView;

    open spec fn view(&self) -> DeviceIdView {
        match self {
            DeviceId::RegistryEntry(entry) => DeviceIdView::RegistryEntry(*entry),
            DeviceId::Path(path) => DeviceIdView::Path(path@),
            DeviceId::Guid(guid) => DeviceIdView::Guid(guid@),
            DeviceId::Object(number) => DeviceIdView::Object(*number),
        }
    }
}

impl PartialEq for DeviceId {
    fn eq(&self, other: &Self) -> (equal: bool) {
        match (self, other) {
            (DeviceId::RegistryEntry(a), DeviceId::RegistryEntry(b)) => *a == *b,
            (DeviceId::Path(a), DeviceId::Path(b)) => *a == *b,
            (DeviceId::Guid(a), DeviceId::Guid(b)) => *a == *b,
            (DeviceId::Object(a), DeviceId::Object(b)) => *a == *b,
            _ => false,
        }
    }
}

impl PartialEqSpecImpl for DeviceId {
    open spec fn obeys_eq_spec() -> bool {
        true
    }

    open spec fn eq_spec(&self, other: &Self) -> bool {
        self@ == other@
    }
}

impl Eq for DeviceId {

}

impl Hash for DeviceId {
    /// Feeds the kind of the identity and then its value to `state`: what
    /// `==` compares, and nothing else.
    fn hash<H: Hasher>(&self, state: &mut H) {
        match self {
            DeviceId::RegistryEntry(entry) => {
                0u8.hash(state);
                entry.hash(state);
            },
            DeviceId::Path(path) => {
                1u8.hash(state);
                path.hash(state);
            },
            DeviceId::Guid(guid) => {
                2u8.hash(state);
                guid.hash(state);
            },
            DeviceId::Object(number) => {
                3u8.hash(state);
                number.hash(state);
            },
        }
    }
}

impl DeviceId {
    /// A copy of this identity.
    pub fn duplicate(&self) -> (copy: DeviceId)
        ensures
            copy@ == self@,
    {
        match self {
            DeviceId::RegistryEntry(entry) => DeviceId::RegistryEntry(*entry),
            DeviceId::Path(path) => DeviceId::Path(path.clone()),
            DeviceId::Guid(guid) => DeviceId::Guid(guid.clone()),
            DeviceId::Object(number) => DeviceId::Object(*number),
        }
    }
}

/// The view of an optional string.
pub open spec fn text_view(text: Option<String>) -> Option<Seq<char>> {
    match text {
        Some(s) => Some(s@),
        None => None,
    }
}

/// Basic information about a discovered device.
///
/// A record is made by an enumeration and never changes afterwards. It holds
/// no open resource. Two records are equal exactly when their identities are
/// equal, and a record is hashed by its identity alone.
#[derive(Debug, Clone)]
pub struct DeviceInfo {
    pub(crate) name: String,
    pub(crate) vendor_id: u16,
    pub(crate) product_id: u16,
    pub(crate) usage_page: u16,
    pub(crate) usage_id: u16,
    pub(crate) serial_number: Option<String>,
    pub(crate) id: DeviceId,
}

/// The mathematical value of a [`DeviceInfo`].
pub struct DeviceInfoView {
    pub name: Seq<char>,
    pub vendor_id: u16,
    pub product_id: u16,
    pub usage_page: u16,
    pub usage_id: u16,
    pub serial_number: Option<Seq<char>>,
    pub id: DeviceIdView,
}

impl View for DeviceInfo {
    type V = DeviceInfoView;

    closed spec fn view(&self) -> DeviceInfoView {
        DeviceInfoView {
            name: self.name@,
            vendor_id: self.vendor_id,
            product_id: self.product_id,
            usage_page: self.usage_page,
            usage_id: self.usage_id,
            serial_number: text_view(self.serial_number),
            id: self.id@,
        }
    }
}

/// Whether two records are equal: they are exactly when their identities
/// are.
pub open spec fn same_device(first: DeviceInfoView, second: DeviceInfoView) -> bool {
    first.id == second.id
}

/// What a record feeds to a hasher: its identity.
pub open spec fn hashed(device: DeviceInfoView) -> DeviceIdView {
    device.id
}

impl PartialEq for DeviceInfo {
    fn eq(&self, other: &Self) -> (equal: bool) {
        self.id == other.id
    }
}

impl PartialEqSpecImpl for DeviceInfo {
    open spec fn obeys_eq_spec() -> bool {
        true
    }

    open spec fn eq_spec(&self, other: &Self) -> bool {
        same_device(self@, other@)
    }
}

impl Eq for DeviceInfo {

}

impl Hash for DeviceInfo {
    /// Feeds the identity of the device to `state`, and nothing else.
    fn hash<H: Hasher>(&self, state: &mut H) {
        self.id.hash(state)
    }
}

impl DeviceInfo {
    /// The record of the device `id` with the given metadata.
    pub(crate) fn new(
        name: String,
        vendor_id: u16,
        product_id: u16,
        usage_page: u16,
        usage_id: u16,
        serial_number: Option<String>,
        id: DeviceId,
    ) -> (info: DeviceInfo)
        ensures
            info@ == (DeviceInfoView {
                name: name@,
                vendor_id,
                product_id,
                usage_page,
                usage_id,
                serial_number: text_view(serial_number),
                id: id@,
            }),
    {
        DeviceInfo { name, vendor_id, product_id, usage_page, usage_id, serial_number, id }
    }

    /// A copy of this record.
    pub fn duplicate(&self) -> (copy: DeviceInfo)
        ensures
            copy@ == self@,
    {
        let serial_number = match &self.serial_number {
            Some(serial) => Some(serial.clone()),
            None => None,
        };
        DeviceInfo {
            name: self.name.clone(),
            vendor_id: self.vendor_id,
            product_id: self.product_id,
            usage_page: self.usage_page,
            usage_id: self.usage_id,
            serial_number,
            id: self.id.duplicate(),
        }
    }

    /// The human-readable name.
    pub fn name(&self) -> (name: &str)
        ensures
            name@ == self@.name,
    {
        self.name.as_str()
    }

    /// The HID vendor id of the device's manufacturer.
    pub fn vendor_id(&self) -> (vendor_id: u16)
        ensures
            vendor_id == self@.vendor_id,
    {
        self.vendor_id
    }

    /// The HID product id assigned to this device.
    pub fn product_id(&self) -> (product_id: u16)
        ensures
            product_id == self@.product_id,
    {
        self.product_id
    }

    /// The HID usage page.
    pub fn usage_page(&self) -> (usage_page: u16)
        ensures
            usage_page == self@.usage_page,
    {
        self.usage_page
    }

    /// The HID usage id.
    pub fn usage_id(&self) -> (usage_id: u16)
        ensures
            usage_id == self@.usage_id,
    {
        self.usage_id
    }

    /// The HID serial number, where the platform and the device give one.
    pub fn serial_number(&self) -> (serial_number: Option<&str>)
        ensures
            match serial_number {
                Some(serial) => self@.serial_number == Some(serial@),
                None => self@.serial_number is None,
            },
    {
        match &self.serial_number {
            Some(serial) => Some(serial.as_str()),
            None => None,
        }
    }

    /// The platform's identity of the device.
    pub fn id(&self) -> (id: &DeviceId)
        ensures
            id@ == self@.id,
    {
        &self.id
    }

    /// The registry entry identifier, where the device is identified by one.
    pub fn device_registry_entry_id(&self) -> (entry: Option<u64>)
        ensures
            entry == match self@.id {
                DeviceIdView::RegistryEntry(entry) => Some(entry),
                _ => None,
            },
    {
        match &self.id {
            DeviceId::RegistryEntry(entry) => Some(*entry),
            _ => None,
        }
    }

    /// The file path of the device node, where the device is identified by
    /// one.
    pub fn device_path(&self) -> (path: Option<&str>)
        ensures
            match self@.id {
                DeviceIdView::Path(text) => path matches Some(p) && p@ == text,
                _ => path is None,
            },
    {
        match &self.id {
            DeviceId::Path(path) => Some(path.as_str()),
            _ => None,
        }
    }

    /// The interface identifier, where the device is identified by one.
    pub fn device_guid(&self) -> (guid: Option<&str>)
        ensures
            match self@.id {
                DeviceIdView::Guid(text) => guid matches Some(g) && g@ == text,
                _ => guid is None,
            },
    {
        match &self.id {
            DeviceId::Guid(guid) => Some(guid.as_str()),
            _ => None,
        }
    }

    /// The number of the backend's device object, where the device is
    /// identified by one.
    pub fn device_object(&self) -> (number: Option<u64>)
        ensures
            number == match self@.id {
                DeviceIdView::Object(number) => Some(number),
                _ => None,
            },
    {
        match &self.id {
            DeviceId::Object(number) => Some(*number),
            _ => None,
        }
    }
}

/// Selects devices during an enumeration: a device is selected when each
/// field that is `Some` equals the device's corresponding field.
#[derive(Debug, Clone, PartialEq, Eq, Hash)]
pub struct DeviceCriteria {
    pub vendor_id: Option<u16>,
    pub product_id: Option<u16>,
    pub usage_page: Option<u16>,
    pub usage_id: Option<u16>,
    pub serial_number: Option<String>,
}

/// The mathematical value of a [`DeviceCriteria`].
pub struct DeviceCriteriaView {
    pub vendor_id: Option<u16>,
    pub product_id: Option<u16>,
    pub usage_page: Option<u16>,
    pub usage_id: Option<u16>,
    pub serial_number: Option<Seq<char>>,
}

impl View for DeviceCriteria {
    type V = DeviceCriteriaView;

    open spec fn view(&self) -> DeviceCriteriaView {
        DeviceCriteriaView {
            vendor_id: self.vendor_id,
            product_id: self.product_id,
            usage_page: self.usage_page,
            usage_id: self.usage_id,
            serial_number: text_view(self.serial_number),
        }
    }
}

impl Default for DeviceCriteria {
    /// The criteria without any field, which select every device.
    fn default() -> (criteria: DeviceCriteria)
        ensures
            criteria@ == (DeviceCriteriaView {
                vendor_id: None,
                product_id: None,
                usage_page: None,
                usage_id: None,
                serial_number: None,
            }),
    {
        DeviceCriteria {
            vendor_id: None,
            product_id: None,
            usage_page: None,
            usage_id: None,
            serial_number: None,
        }
    }
}

/// Whether a field of some criteria accepts the device's `actual` value: an
/// absent field accepts every value, a present one only its own.
pub open spec fn field_accepts<T>(wanted: Option<T>, actual: T) -> bool {
    wanted matches Some(value) ==> value == actual
}

/// Whether `criteria` select `device`: every present field equals the
/// device's corresponding field.
pub open spec fn criteria_match(criteria: DeviceCriteriaView, device: DeviceInfoView) -> bool {
    &&& field_accepts(criteria.vendor_id, device.vendor_id)
    &&& field_accepts(criteria.product_id, device.product_id)
    &&& field_accepts(criteria.usage_page, device.usage_page)
    &&& field_accepts(criteria.usage_id, device.usage_id)
    &&& criteria.serial_number is Some ==> criteria.serial_number == device.serial_number
}

/// Whether at least one element of `criteria` selects `device`.
pub open spec fn any_criteria_match(criteria: Seq<DeviceCriteria>, device: DeviceInfoView) -> bool {
    exists|i: int| 0 <= i < criteria.len() && criteria_match(#[trigger] criteria[i]@, device)
}

fn accepts(wanted: Option<u16>, actual: u16) -> (accepted: bool)
    ensures
        accepted == field_accepts(wanted, actual),
{
    match wanted {
        Some(value) => value == actual,
        None => true,
    }
}

impl DeviceCriteria {
    /// Whether these criteria select `device`.
    pub fn matches(&self, device: &DeviceInfo) -> (selected: bool)
        ensures
            selected == criteria_match(self@, device@),
    {
        let serial_accepted = match &self.serial_number {
            None => true,
            Some(wanted) => match &device.serial_number {
                Some(actual) => *wanted == *actual,
                None => false,
            },
        };
        accepts(self.vendor_id, device.vendor_id) && accepts(self.product_id, device.product_id)
            && accepts(self.usage_page, device.usage_page) && accepts(
            self.usage_id,
            device.usage_id,
        ) && serial_accepted
    }
}

/// Whether at least one element of `criteria` selects `device`. An empty
/// list selects no device.
pub fn matches_any(criteria: &Vec<DeviceCriteria>, device: &DeviceInfo) -> (selected: bool)
    ensures
        selected == any_criteria_match(criteria@, device@),
{
    let mut i: usize = 0;
    while i < criteria.len()
        invariant
            i <= criteria.len(),
            forall|j: int| 0 <= j < i ==> !criteria_match(#[trigger] criteria@[j]@, device@),
        decreases criteria.len() - i,
    {
        if criteria[i].matches(device) {
            return true;
        }
        i += 1;
    }
    false
}

/// Criteria without any field select every device, and criteria select a
/// device exactly when no present field differs from the device's.
pub proof fn lemma_absent_fields_match(criteria: DeviceCriteriaView, device: DeviceInfoView)
    ensures
        criteria.vendor_id is None && criteria.product_id is None && criteria.usage_page is None
            && criteria.usage_id is None && criteria.serial_number is None ==> criteria_match(
            criteria,
            device,
        ),
        criteria_match(criteria, device) <==> !(criteria.vendor_id matches Some(wanted) && wanted
            != device.vendor_id) && !(criteria.product_id matches Some(wanted) && wanted
            != device.product_id) && !(criteria.usage_page matches Some(wanted) && wanted
            != device.usage_page) && !(criteria.usage_id matches Some(wanted) && wanted
            != device.usage_id) && !(criteria.serial_number matches Some(wanted) && Some(wanted)
            != device.serial_number),
{
}

/// A list of criteria selects a device exactly when one of its elements
/// does: the empty list selects nothing, and a list with one more element
/// selects what the list or the element selects.
pub proof fn lemma_any_criteria(
    criteria: Seq<DeviceCriteria>,
    element: DeviceCriteria,
    device: DeviceInfoView,
)
    ensures
        !any_criteria_match(Seq::<DeviceCriteria>::empty(), device),
        any_criteria_match(criteria.push(element), device) <==> any_criteria_match(
            criteria,
            device,
        ) || criteria_match(element@, device),
{
    let longer = criteria.push(element);
    if any_criteria_match(criteria, device) {
        let i = choose|i: int| 0 <= i < criteria.len() && criteria_match(
            #[trigger] criteria[i]@,
            device,
        );
        assert(longer[i] == criteria[i]);
    }
    if criteria_match(element@, device) {
        assert(longer[criteria.len() as int] == element);
    }
    if any_criteria_match(longer, device) {
        let i = choose|i: int| 0 <= i < longer.len() && criteria_match(
            #[trigger] longer[i]@,
            device,
        );
        if i < criteria.len() {
            assert(longer[i] == criteria[i]);
        } else {
            assert(longer[i] == element);
        }
    }
}

} // verus!
