use async_hid::descriptor::cast;
use async_hid::descriptor::get_device_info;
use async_hid::descriptor::get_web_hid_api;
use async_hid::descriptor::is_valid_object;
use async_hid::descriptor::ObjectKind;
use async_hid::descriptor::RawCollection;
use async_hid::descriptor::RawDevice;
use async_hid::device_info::DeviceId;
use async_hid::error::HidError;

fn pad() -> RawDevice {
    RawDevice {
        kind: ObjectKind::Object,
        is_hid_device: true,
        id: DeviceId::Object(1),
        product_name: "Pad".to_string(),
        vendor_id: 0x46D,
        product_id: 0xC52B,
        serial_number: None,
        collections_is_array: true,
        collections: vec![
            RawCollection { is_collection_info: true, usage_page: Some(1), usage: Some(5) },
            RawCollection { is_collection_info: true, usage_page: Some(12), usage: Some(1) },
        ],
    }
}

fn custom(message: &str) -> HidError {
    HidError::PlatformSpecific(message.to_string())
}

#[test]
fn null_and_undefined_are_no_objects() {
    assert_eq!(is_valid_object(ObjectKind::Object), Ok(()));
    assert_eq!(is_valid_object(ObjectKind::Null), Err(custom("JavaScript object is null.")));
    assert_eq!(is_valid_object(ObjectKind::Undefined), Err(custom("JavaScript object is undefined.")));
}

#[test]
fn cast_names_the_type_it_wanted() {
    assert_eq!(cast(true, "HidDevice"), Ok(()));
    assert_eq!(cast(false, "HidDevice"), Err(custom("Failed to cast JavaScript object to type HidDevice.")));
    assert_eq!(cast(false, ""), Err(custom("Failed to cast JavaScript object to type .")));
}

#[test]
fn the_api_needs_a_window_and_an_entry_point() {
    assert_eq!(get_web_hid_api(true, ObjectKind::Object), Ok(()));
    assert_eq!(get_web_hid_api(false, ObjectKind::Object), Err(HidError::PlatformUnavailable));
    assert_eq!(get_web_hid_api(true, ObjectKind::Null), Err(HidError::PlatformUnavailable));
    assert_eq!(get_web_hid_api(true, ObjectKind::Undefined), Err(HidError::PlatformUnavailable));
    assert_eq!(get_web_hid_api(false, ObjectKind::Undefined), Err(HidError::PlatformUnavailable));
}

#[test]
fn a_record_takes_its_usage_from_the_first_collection() {
    let info = get_device_info(&pad()).unwrap();
    assert_eq!(info.name(), "Pad");
    assert_eq!(info.vendor_id(), 0x46D);
    assert_eq!(info.product_id(), 0xC52B);
    assert_eq!(info.usage_page(), 1);
    assert_eq!(info.usage_id(), 5);
    assert_eq!(info.serial_number(), None);
    assert_eq!(info.device_object(), Some(1));
}

#[test]
fn a_value_that_is_no_object_has_no_record() {
    let mut device = pad();
    device.kind = ObjectKind::Null;
    assert_eq!(get_device_info(&device).unwrap_err(), custom("JavaScript object is null."));
    device.kind = ObjectKind::Undefined;
    assert_eq!(get_device_info(&device).unwrap_err(), custom("JavaScript object is undefined."));
}

#[test]
fn a_value_that_is_no_device_has_no_record() {
    let mut device = pad();
    device.is_hid_device = false;
    assert_eq!(
        get_device_info(&device).unwrap_err(),
        custom("Failed to cast JavaScript object to type HidDevice.")
    );
}

#[test]
fn collections_must_be_a_list_with_a_first_element() {
    let mut device = pad();
    device.collections_is_array = false;
    assert_eq!(get_device_info(&device).unwrap_err(), custom("Failed to cast JavaScript object to type Array."));
    device.collections_is_array = true;
    device.collections = vec![];
    assert_eq!(
        get_device_info(&device).unwrap_err(),
        custom("Invalid device descriptor, collections are empty.")
    );
}

#[test]
fn the_first_collection_must_give_usage_page_and_usage() {
    let mut device = pad();
    device.collections[0].is_collection_info = false;
    assert_eq!(
        get_device_info(&device).unwrap_err(),
        custom("Failed to cast JavaScript object to type HidCollectionInfo.")
    );
    device.collections[0].is_collection_info = true;
    device.collections[0].usage_page = None;
    assert_eq!(
        get_device_info(&device).unwrap_err(),
        custom("Invalid device descriptor, usage page unavailable.")
    );
    device.collections[0].usage_page = Some(1);
    device.collections[0].usage = None;
    assert_eq!(
        get_device_info(&device).unwrap_err(),
        custom("Invalid device descriptor, usage id unavailable.")
    );
}

#[test]
fn checks_come_in_order() {
    let mut device = pad();
    device.kind = ObjectKind::Null;
    device.is_hid_device = false;
    device.collections = vec![];
    assert_eq!(get_device_info(&device).unwrap_err(), custom("JavaScript object is null."));
    device.kind = ObjectKind::Object;
    assert_eq!(
        get_device_info(&device).unwrap_err(),
        custom("Failed to cast JavaScript object to type HidDevice.")
    );
}

#[test]
fn errors_are_made_by_their_constructors() {
    assert_eq!(HidError::custom("x"), HidError::PlatformSpecific("x".to_string()));
    assert_eq!(HidError::zero_sized_data(), HidError::ZeroSizedBuffer);
}
