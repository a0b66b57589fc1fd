//! What a platform reports of a device, and the record made from it.

use vstd::prelude::*;
use crate::device_info::DeviceId;
use crate::device_info::DeviceInfo;
use crate::device_info::DeviceInfoView;
use crate::device_info::hashed;
use crate::device_info::same_device;
use crate::device_info::text_view;
use crate::error::HidError;
use crate::error::HidErrorView;
use crate::error::HidResult;
use crate::error::unit_result_view;

verus! {

/// What kind of value the platform handed over where an object was expected.
#[derive(Debug, Clone, Copy, PartialEq, Eq, Structural)]
pub enum ObjectKind {
    /// The null value.
    Null,
    /// The undefined value.
    Undefined,
    /// Any other value.
    Object,
}

/// One top-level collection of a device's report descriptor, as the platform
/// reports it.
#[derive(Debug, Clone)]
pub struct RawCollection {
    /// Whether the value is a collection description at all.
    pub is_collection_info: bool,
    /// The usage page of the collection, if the platform gives one.
    pub usage_page: Option<u16>,
    /// The usage id of the collection, if the platform gives one.
    pub usage: Option<u16>,
}

/// A device as the platform reports it, before anything is known to be
/// usable.
#[derive(Debug, Clone)]
pub struct RawDevice {
    /// What kind of value stands for the device.
    pub kind: ObjectKind,
    /// Whether the value is a HID device object.
    pub is_hid_device: bool,
    /// The platform's identity of the device.
    pub id: DeviceId,
    /// The product name.
    pub product_name: String,
    /// The vendor id.
    pub vendor_id: u16,
    /// The product id.
    pub product_id: u16,
    /// The serial number, where the platform gives one.
    pub serial_number: Option<String>,
    /// Whether the device's collections are a list.
    pub collections_is_array: bool,
    /// The top-level collections of the device.
    pub collections: Vec<RawCollection>,
}

/// The verdict on a value of the given kind: `null` and `undefined` are
/// rejected, each with its own message.
pub open spec fn valid_object(kind: ObjectKind) -> Result<(), HidErrorView> {
    match kind {
        ObjectKind::Null => Err(HidErrorView::PlatformSpecific("JavaScript object is null."@)),
        ObjectKind::Undefined => Err(
            HidErrorView::PlatformSpecific("JavaScript object is undefined."@),
        ),
        ObjectKind::Object => Ok(()),
    }
}

/// The message for a value that is not of the type named `target`.
pub open spec fn cast_failure(target: Seq<char>) -> Seq<char> {
    "Failed to cast JavaScript object to type "@ + target + "."@
}

/// The verdict on a value that is (`is_instance`) or is not of the type
/// named `target`.
pub open spec fn cast_verdict(is_instance: bool, target: Seq<char>) -> Result<
    (),
    HidErrorView,
> {
    if is_instance {
        Ok(())
    } else {
        Err(HidErrorView::PlatformSpecific(cast_failure(target)))
    }
}

/// The verdict on the platform's device API: it is unavailable where there
/// is no window, and where the window's HID entry point is `null` or
/// `undefined`.
pub open spec fn web_hid_api(has_window: bool, api: ObjectKind) -> Result<(), HidErrorView> {
    if has_window && api == ObjectKind::Object {
        Ok(())
    } else {
        Err(HidErrorView::PlatformUnavailable)
    }
}

/// Rejects the values `null` and `undefined`.
pub fn is_valid_object(kind: ObjectKind) -> (verdict: HidResult<()>)
    ensures
        unit_result_view(verdict) == valid_object(kind),
{
    match kind {
        ObjectKind::Null => Err(HidError::custom("JavaScript object is null.")),
        ObjectKind::Undefined => Err(HidError::custom("JavaScript object is undefined.")),
        ObjectKind::Object => Ok(()),
    }
}

/// Accepts a value that is of the type named `target`, and rejects any
/// other with a message that names the type.
pub fn cast(is_instance: bool, target: &str) -> (verdict: HidResult<()>)
    ensures
        unit_result_view(verdict) == cast_verdict(is_instance, target@),
{
    if is_instance {
        Ok(())
    } else {
        let message = String::from_str("Failed to cast JavaScript object to type ").concat(
            target,
        ).concat(".");
        Err(HidError::PlatformSpecific(message))
    }
}

/// Decides whether the platform's device API can be used, from whether a
/// window exists and what its HID entry point is.
pub fn get_web_hid_api(has_window: bool, api: ObjectKind) -> (verdict: HidResult<()>)
    ensures
        unit_result_view(verdict) == web_hid_api(has_window, api),
{
    if !has_window {
        return Err(HidError::PlatformUnavailable);
    }
    match api {
        ObjectKind::Object => Ok(()),
        _ => Err(HidError::PlatformUnavailable),
    }
}

/// The mathematical value of the result of describing a device.
pub open spec fn info_result_view(result: HidResult<DeviceInfo>) -> Result<
    DeviceInfoView,
    HidErrorView,
> {
    match result {
        Ok(info) => Ok(info@),
        Err(error) => Err(error@),
    }
}

/// The record of the device that the platform reports as `raw`, or why there
/// is none.
///
/// The value must be an object, and a HID device; its collections must be a
/// list with a first element that is a collection description with a usage
/// page and a usage id. The record takes its usage page and usage id from
/// that first collection, and everything else from the device itself.
pub open spec fn describe(raw: RawDevice) -> Result<DeviceInfoView, HidErrorView> {
    if valid_object(raw.kind) is Err {
        Err(valid_object(raw.kind)->Err_0)
    } else if !raw.is_hid_device {
        Err(HidErrorView::PlatformSpecific(cast_failure("HidDevice"@)))
    } else if !raw.collections_is_array {
        Err(HidErrorView::PlatformSpecific(cast_failure("Array"@)))
    } else if raw.collections@.len() == 0 {
        Err(
            HidErrorView::PlatformSpecific(
                "Invalid device descriptor, collections are empty."@,
            ),
        )
    } else if !raw.collections@[0].is_collection_info {
        Err(HidErrorView::PlatformSpecific(cast_failure("HidCollectionInfo"@)))
    } else if raw.collections@[0].usage_page is None {
        Err(
            HidErrorView::PlatformSpecific(
                "Invalid device descriptor, usage page unavailable."@,
            ),
        )
    } else if raw.collections@[0].usage is None {
        Err(
            HidErrorView::PlatformSpecific("Invalid device descriptor, usage id unavailable."@),
        )
    } else {
        Ok(
            DeviceInfoView {
                name: raw.product_name@,
                vendor_id: raw.vendor_id,
                product_id: raw.product_id,
                usage_page: raw.collections@[0].usage_page->0,
                usage_id: raw.collections@[0].usage->0,
                serial_number: text_view(raw.serial_number),
                id: raw.id@,
            },
        )
    }
}

/// Whether a record can be made of the device that the platform reports as
/// `raw`.
pub open spec fn describable(raw: RawDevice) -> bool {
    describe(raw) is Ok
}

/// Makes the record of the device that the platform reports as `raw`.
pub fn get_device_info(raw: &RawDevice) -> (described: HidResult<DeviceInfo>)
    ensures
        info_result_view(described) == describe(*raw),
{
    match is_valid_object(raw.kind) {
        Err(error) => {
            return Err(error);
        },
        Ok(_) => {},
    }
    match cast(raw.is_hid_device, "HidDevice") {
        Err(error) => {
            return Err(error);
        },
        Ok(_) => {},
    }
    match cast(raw.collections_is_array, "Array") {
        Err(error) => {
            return Err(error);
        },
        Ok(_) => {},
    }
    if raw.collections.len() == 0 {
        return Err(HidError::custom("Invalid device descriptor, collections are empty."));
    }
    let collection = &raw.collections[0];
    match cast(collection.is_collection_info, "HidCollectionInfo") {
        Err(error) => {
            return Err(error);
        },
        Ok(_) => {},
    }
    let usage_page = match collection.usage_page {
        Some(usage_page) => usage_page,
        None => {
            return Err(HidError::custom("Invalid device descriptor, usage page unavailable."));
        },
    };
    let usage_id = match collection.usage {
        Some(usage_id) => usage_id,
        None => {
            return Err(HidError::custom("Invalid device descriptor, usage id unavailable."));
        },
    };
    let serial_number = match &raw.serial_number {
        Some(serial) => Some(serial.clone()),
        None => None,
    };
    Ok(
        DeviceInfo::new(
            raw.product_name.clone(),
            raw.vendor_id,
            raw.product_id,
            usage_page,
            usage_id,
            serial_number,
            raw.id.duplicate(),
        ),
    )
}

/// Two records that are made of one device are equal and feed the same to a
/// hasher, whatever else the platform reports of the device each time.
pub proof fn lemma_identity_is_stable(first: RawDevice, second: RawDevice)
    requires
        first.id@ == second.id@,
        describable(first),
        describable(second),
    ensures
        same_device(describe(first)->Ok_0, describe(second)->Ok_0),
        hashed(describe(first)->Ok_0) == hashed(describe(second)->Ok_0),
        describe(first)->Ok_0.id == first.id@,
{
}

} // verus!
