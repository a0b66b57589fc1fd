use std::collections::hash_map::DefaultHasher;
use std::collections::HashSet;
use std::hash::Hash;
use std::hash::Hasher;

use async_hid::descriptor::get_device_info;
use async_hid::descriptor::ObjectKind;
use async_hid::descriptor::RawCollection;
use async_hid::descriptor::RawDevice;
use async_hid::device_info::matches_any;
use async_hid::device_info::DeviceCriteria;
use async_hid::device_info::DeviceId;
use async_hid::device_info::DeviceInfo;

fn raw(name: &str, id: DeviceId, vendor_id: u16, product_id: u16, page: u16, usage: u16) -> RawDevice {
    RawDevice {
        kind: ObjectKind::Object,
        is_hid_device: true,
        id,
        product_name: name.to_string(),
        vendor_id,
        product_id,
        serial_number: None,
        collections_is_array: true,
        collections: vec![RawCollection { is_collection_info: true, usage_page: Some(page), usage: Some(usage) }],
    }
}

fn pad() -> DeviceInfo {
    get_device_info(&raw("Pad", DeviceId::Object(1), 0x46D, 0xC52B, 1, 5)).unwrap()
}

fn hash_of<T: Hash>(value: &T) -> u64 {
    let mut hasher = DefaultHasher::new();
    value.hash(&mut hasher);
    hasher.finish()
}

#[test]
fn accessors_return_the_fields() {
    let mut device = raw("Pad", DeviceId::Path("/dev/hidraw3".to_string()), 0x46D, 0xC52B, 1, 5);
    device.serial_number = Some("A1B2".to_string());
    let info = get_device_info(&device).unwrap();
    assert_eq!(info.name(), "Pad");
    assert_eq!(info.vendor_id(), 0x46D);
    assert_eq!(info.product_id(), 0xC52B);
    assert_eq!(info.usage_page(), 1);
    assert_eq!(info.usage_id(), 5);
    assert_eq!(info.serial_number(), Some("A1B2"));
    assert_eq!(info.device_path(), Some("/dev/hidraw3"));
    assert_eq!(info.device_registry_entry_id(), None);
    assert_eq!(info.device_guid(), None);
    assert_eq!(info.device_object(), None);
    assert_eq!(info.id(), &DeviceId::Path("/dev/hidraw3".to_string()));
}

#[test]
fn each_identity_has_its_accessor() {
    let entry = get_device_info(&raw("A", DeviceId::RegistryEntry(4294967297), 1, 2, 3, 4)).unwrap();
    assert_eq!(entry.device_registry_entry_id(), Some(4294967297));
    assert_eq!(entry.device_path(), None);
    let guid = get_device_info(&raw("B", DeviceId::Guid("{4d1e55b2}".to_string()), 1, 2, 3, 4)).unwrap();
    assert_eq!(guid.device_guid(), Some("{4d1e55b2}"));
    assert_eq!(guid.device_object(), None);
    let object = get_device_info(&raw("C", DeviceId::Object(9), 1, 2, 3, 4)).unwrap();
    assert_eq!(object.device_object(), Some(9));
    assert_eq!(object.device_guid(), None);
    assert_eq!(object.serial_number(), None);
}

#[test]
fn records_of_one_device_are_equal_and_hash_alike() {
    let first = get_device_info(&raw("Pad", DeviceId::Object(1), 0x46D, 0xC52B, 1, 5)).unwrap();
    let second = get_device_info(&raw("Pad", DeviceId::Object(1), 0x46D, 0xC52B, 1, 5)).unwrap();
    assert!(first == second);
    assert_eq!(hash_of(&first), hash_of(&second));
}

#[test]
fn equality_goes_by_the_identity_alone() {
    let first = get_device_info(&raw("Pad", DeviceId::Object(1), 0x46D, 0xC52B, 1, 5)).unwrap();
    let renamed = get_device_info(&raw("Other", DeviceId::Object(1), 7, 8, 9, 10)).unwrap();
    let other = get_device_info(&raw("Pad", DeviceId::Object(2), 0x46D, 0xC52B, 1, 5)).unwrap();
    assert!(first == renamed);
    assert_eq!(hash_of(&first), hash_of(&renamed));
    assert!(first != other);
    let mut set = HashSet::new();
    set.insert(first);
    set.insert(renamed);
    set.insert(other);
    assert_eq!(set.len(), 2);
}

#[test]
fn identities_of_different_kinds_differ() {
    assert!(DeviceId::RegistryEntry(5) != DeviceId::Object(5));
    assert!(DeviceId::Path("x".to_string()) != DeviceId::Guid("x".to_string()));
    assert!(DeviceId::Path("x".to_string()) == DeviceId::Path("x".to_string()));
    assert!(DeviceId::Path("x".to_string()) != DeviceId::Path("y".to_string()));
    assert_eq!(DeviceId::Guid("g".to_string()).duplicate(), DeviceId::Guid("g".to_string()));
    assert_ne!(hash_of(&DeviceId::RegistryEntry(5)), hash_of(&DeviceId::Object(5)));
}

#[test]
fn duplicate_keeps_every_field() {
    let mut device = raw("Pad", DeviceId::RegistryEntry(77), 0x46D, 0xC52B, 1, 5);
    device.serial_number = Some("S".to_string());
    let info = get_device_info(&device).unwrap();
    let copy = info.duplicate();
    assert_eq!(copy.name(), "Pad");
    assert_eq!(copy.vendor_id(), 0x46D);
    assert_eq!(copy.product_id(), 0xC52B);
    assert_eq!(copy.usage_page(), 1);
    assert_eq!(copy.usage_id(), 5);
    assert_eq!(copy.serial_number(), Some("S"));
    assert_eq!(copy.device_registry_entry_id(), Some(77));
}

#[test]
fn default_criteria_have_no_field_and_match_every_device() {
    let criteria = DeviceCriteria::default();
    assert_eq!(criteria.vendor_id, None);
    assert_eq!(criteria.product_id, None);
    assert_eq!(criteria.usage_page, None);
    assert_eq!(criteria.usage_id, None);
    assert_eq!(criteria.serial_number, None);
    assert!(criteria.matches(&pad()));
}

#[test]
fn present_fields_must_all_equal() {
    let device = pad();
    let vendor = DeviceCriteria { vendor_id: Some(0x46D), ..DeviceCriteria::default() };
    assert!(vendor.matches(&device));
    let wrong_vendor = DeviceCriteria { vendor_id: Some(0x1), ..DeviceCriteria::default() };
    assert!(!wrong_vendor.matches(&device));
    let all = DeviceCriteria {
        vendor_id: Some(0x46D),
        product_id: Some(0xC52B),
        usage_page: Some(1),
        usage_id: Some(5),
        serial_number: None,
    };
    assert!(all.matches(&device));
    let one_off = DeviceCriteria { usage_id: Some(6), ..all.clone() };
    assert!(!one_off.matches(&device));
    let product_off = DeviceCriteria { product_id: Some(0xC52C), ..all.clone() };
    assert!(!product_off.matches(&device));
    let page_off = DeviceCriteria { usage_page: Some(2), ..all };
    assert!(!page_off.matches(&device));
}

#[test]
fn serial_number_criteria() {
    let wanted = DeviceCriteria { serial_number: Some("A1".to_string()), ..DeviceCriteria::default() };
    assert!(!wanted.matches(&pad()));
    let mut device = raw("Pad", DeviceId::Object(1), 0x46D, 0xC52B, 1, 5);
    device.serial_number = Some("A1".to_string());
    assert!(wanted.matches(&get_device_info(&device).unwrap()));
    device.serial_number = Some("A2".to_string());
    assert!(!wanted.matches(&get_device_info(&device).unwrap()));
}

#[test]
fn a_list_matches_when_one_element_does() {
    let device = pad();
    let miss = DeviceCriteria { vendor_id: Some(0x1), ..DeviceCriteria::default() };
    let hit = DeviceCriteria { product_id: Some(0xC52B), ..DeviceCriteria::default() };
    assert!(!matches_any(&vec![], &device));
    assert!(!matches_any(&vec![miss.clone()], &device));
    assert!(matches_any(&vec![miss.clone(), hit.clone()], &device));
    assert!(matches_any(&vec![hit, miss], &device));
}
