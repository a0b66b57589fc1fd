//! Enumeration: from what the platform reports to the stream of records.

use vstd::prelude::*;
use crate::descriptor::RawDevice;
use crate::descriptor::describable;
use crate::descriptor::describe;
use crate::descriptor::get_device_info;
use crate::device_info::DeviceCriteria;
use crate::device_info::DeviceIdView;
use crate::device_info::DeviceInfo;
use crate::device_info::DeviceInfoView;
use crate::device_info::any_criteria_match;
use crate::device_info::matches_any;
use crate::stream::Iter;
use crate::stream::StreamState;
use crate::stream::iter;

verus! {

/// The mathematical values of a sequence of records.
pub open spec fn views(devices: Seq<DeviceInfo>) -> Seq<DeviceInfoView> {
    devices.map_values(|device: DeviceInfo| device@)
}

/// The records of those devices of `raw` of which a record can be made, in
/// their order.
pub open spec fn described(raw: Seq<RawDevice>) -> Seq<DeviceInfoView> {
    raw.filter(|device: RawDevice| describable(device)).map_values(
        |device: RawDevice| describe(device)->Ok_0,
    )
}

/// Whether `devices` holds a record of the device `id`.
pub open spec fn knows(devices: Seq<DeviceInfoView>, id: DeviceIdView) -> bool {
    exists|i: int| 0 <= i < devices.len() && (#[trigger] devices[i]).id == id
}

/// `found`, followed by those records of `existing` whose device has no
/// record before them in the result.
pub open spec fn merged(found: Seq<DeviceInfoView>, existing: Seq<DeviceInfoView>) -> Seq<
    DeviceInfoView,
>
    decreases existing.len(),
{
    if existing.len() == 0 {
        found
    } else {
        let earlier = merged(found, existing.drop_last());
        if knows(earlier, existing.last().id) {
            earlier
        } else {
            earlier.push(existing.last())
        }
    }
}

/// Those records of `devices` that at least one element of `criteria`
/// selects, in their order.
pub open spec fn selected(criteria: Seq<DeviceCriteria>, devices: Seq<DeviceInfoView>) -> Seq<
    DeviceInfoView,
> {
    devices.filter(|device: DeviceInfoView| any_criteria_match(criteria, device))
}

/// Makes the records of the devices that the platform reports as `raw`. A
/// device of which no record can be made is left out.
pub fn collect_devices(raw: &Vec<RawDevice>) -> (devices: Vec<DeviceInfo>)
    ensures
        views(devices@) == described(raw@),
{
    let mut devices: Vec<DeviceInfo> = Vec::new();
    let mut i: usize = 0;
    while i < raw.len()
        invariant
            i <= raw.len(),
            views(devices@) == described(raw@.take(i as int)),
        decreases raw.len() - i,
    {
        let ghost before = devices@;
        let described_one = get_device_info(&raw[i]);
        proof {
            reveal(Seq::filter);
            assert(raw@.take(i + 1).drop_last() =~= raw@.take(i as int));
            assert(raw@.take(i + 1).last() == raw@[i as int]);
        }
        match described_one {
            Ok(info) => {
                devices.push(info);
                assert(views(devices@) =~= views(before).push(info@));
                assert(views(devices@) =~= described(raw@.take(i + 1)));
            },
            Err(_) => {
                assert(views(devices@) =~= described(raw@.take(i + 1)));
            },
        }
        i += 1;
    }
    assert(raw@.take(i as int) =~= raw@);
    devices
}

/// Whether `devices` holds a record of the device of `device`.
fn contains(devices: &Vec<DeviceInfo>, device: &DeviceInfo) -> (found: bool)
    ensures
        found == knows(views(devices@), device@.id),
{
    let mut i: usize = 0;
    while i < devices.len()
        invariant
            i <= devices.len(),
            forall|j: int| 0 <= j < i ==> (#[trigger] views(devices@)[j]).id != device@.id,
        decreases devices.len() - i,
    {
        if devices[i] == *device {
            assert(views(devices@)[i as int].id == device@.id);
            return true;
        }
        assert(views(devices@)[i as int].id != device@.id);
        i += 1;
    }
    false
}

/// Where `queued` holds what is left of `all` after `taken` records, its
/// first record is the next of `all`: taking it leaves the rest of `all`
/// queued, and makes the records taken so far one longer.
proof fn lemma_next_record(all: Seq<DeviceInfoView>, queued: Seq<DeviceInfo>, taken: int)
    requires
        0 <= taken <= all.len(),
        views(queued) == all.skip(taken),
        queued.len() > 0,
    ensures
        taken < all.len(),
        all[taken] == queued[0]@,
        all.take(taken + 1).drop_last() == all.take(taken),
        all.take(taken + 1).last() == queued[0]@,
        views(queued.drop_first()) == all.skip(taken + 1),
{
    assert(views(queued).len() == queued.len());
    assert(views(queued)[0] == queued[0]@);
    assert(all.skip(taken)[0] == all[taken]);
    assert(all.take(taken + 1).drop_last() =~= all.take(taken));
    assert(views(queued.drop_first()) =~= views(queued).drop_first());
    assert(all.skip(taken).drop_first() =~= all.skip(taken + 1));
}

/// Appends to `found` each record of `existing` whose device has no record
/// in the list yet.
pub fn merge_devices(found: Vec<DeviceInfo>, existing: Vec<DeviceInfo>) -> (devices: Vec<
    DeviceInfo,
>)
    ensures
        views(devices@) == merged(views(found@), views(existing@)),
{
    let ghost all = views(existing@);
    let mut devices = found;
    let mut rest = iter(existing);
    let mut taken: Ghost<int> = Ghost(0);
    loop
        invariant
            all == views(existing@),
            0 <= taken@ <= all.len(),
            views(rest.remaining()) == all.skip(taken@),
            views(devices@) == merged(views(found@), all.take(taken@)),
        decreases all.len() - taken@,
    {
        let ghost before = devices@;
        let ghost queued = rest.remaining();
        match rest.poll_next() {
            Some(item) => {
                proof {
                    lemma_next_record(all, queued, taken@);
                }
                if !contains(&devices, &item) {
                    devices.push(item);
                    assert(views(devices@) =~= views(before).push(item@));
                }
                proof {
                    taken@ = taken@ + 1;
                }
            },
            None => {
                assert(views(queued).len() == 0);
                assert(all.take(taken@) =~= all);
                return devices;
            },
        }
    }
}

/// Keeps those records of `devices` that at least one element of `criteria`
/// selects.
pub fn select_devices(criteria: &Vec<DeviceCriteria>, devices: Vec<DeviceInfo>) -> (kept: Vec<
    DeviceInfo,
>)
    ensures
        views(kept@) == selected(criteria@, views(devices@)),
{
    let ghost all = views(devices@);
    let mut kept: Vec<DeviceInfo> = Vec::new();
    let mut rest = iter(devices);
    let mut taken: Ghost<int> = Ghost(0);
    loop
        invariant
            all == views(devices@),
            0 <= taken@ <= all.len(),
            views(rest.remaining()) == all.skip(taken@),
            views(kept@) == selected(criteria@, all.take(taken@)),
        decreases all.len() - taken@,
    {
        let ghost before = kept@;
        let ghost queued = rest.remaining();
        match rest.poll_next() {
            Some(item) => {
                proof {
                    reveal(Seq::filter);
                    lemma_next_record(all, queued, taken@);
                }
                if matches_any(criteria, &item) {
                    kept.push(item);
                    assert(views(kept@) =~= views(before).push(item@));
                }
                proof {
                    taken@ = taken@ + 1;
                }
            },
            None => {
                assert(views(queued).len() == 0);
                assert(all.take(taken@) =~= all);
                return kept;
            },
        }
    }
}

/// One filter of a device request, as the platform's chooser takes it.
#[derive(Debug, Clone, Copy, PartialEq, Eq, Structural)]
pub struct HidDeviceRequest {
    pub vendor_id: Option<u16>,
    pub product_id: Option<u16>,
    pub usage_page: Option<u16>,
    pub usage_id: Option<u16>,
}

/// The filter that asks the platform for what `criteria` select, as far as
/// the platform can be asked: by vendor, product, usage page and usage id.
pub open spec fn request_of(criteria: DeviceCriteria) -> HidDeviceRequest {
    HidDeviceRequest {
        vendor_id: criteria.vendor_id,
        product_id: criteria.product_id,
        usage_page: criteria.usage_page,
        usage_id: criteria.usage_id,
    }
}

/// The filters of the device request for `criteria`, one for each element.
pub fn request_filters(criteria: &Vec<DeviceCriteria>) -> (filters: Vec<HidDeviceRequest>)
    ensures
        filters@ == criteria@.map_values(|c: DeviceCriteria| request_of(c)),
{
    let mut filters: Vec<HidDeviceRequest> = Vec::new();
    let mut i: usize = 0;
    while i < criteria.len()
        invariant
            i <= criteria.len(),
            filters@ == criteria@.take(i as int).map_values(|c: DeviceCriteria| request_of(c)),
        decreases criteria.len() - i,
    {
        let element = &criteria[i];
        filters.push(
            HidDeviceRequest {
                vendor_id: element.vendor_id,
                product_id: element.product_id,
                usage_page: element.usage_page,
                usage_id: element.usage_id,
            },
        );
        assert(filters@ =~= criteria@.take(i + 1).map_values(|c: DeviceCriteria| request_of(c)));
        i += 1;
    }
    assert(criteria@.take(i as int) =~= criteria@);
    filters
}

/// The stream of all accessible devices.
///
/// `requested` holds the devices that the platform granted on this request,
/// `known` those that it had granted before. The stream gives the records of
/// `requested`, then those of `known` whose device has no record before
/// them. A device of which no record can be made is left out.
pub fn enumerate(requested: &Vec<RawDevice>, known: &Vec<RawDevice>) -> (stream: Iter<DeviceInfo>)
    ensures
        views(stream.remaining()) == merged(described(requested@), described(known@)),
        stream.state() == StreamState::Unstarted,
{
    let found = collect_devices(requested);
    let existing = collect_devices(known);
    iter(merge_devices(found, existing))
}

/// The stream of those accessible devices that at least one element of
/// `criteria` selects.
///
/// `granted` holds the devices that the platform granted on the request
/// made with [`request_filters`]. A device of which no record can be made is
/// left out.
pub fn enumerate_with_criteria(criteria: Vec<DeviceCriteria>, granted: &Vec<RawDevice>) -> (stream:
    Iter<DeviceInfo>)
    ensures
        views(stream.remaining()) == selected(criteria@, described(granted@)),
        stream.state() == StreamState::Unstarted,
{
    let devices = collect_devices(granted);
    iter(select_devices(&criteria, devices))
}

impl DeviceInfo {
    /// The stream of all accessible devices: see [`enumerate`].
    pub fn enumerate(requested: &Vec<RawDevice>, known: &Vec<RawDevice>) -> (stream: Iter<
        DeviceInfo,
    >)
        ensures
            views(stream.remaining()) == merged(described(requested@), described(known@)),
            stream.state() == StreamState::Unstarted,
    {
        enumerate(requested, known)
    }

    /// The stream of those accessible devices that at least one element of
    /// `criteria` selects: see [`enumerate_with_criteria`].
    pub fn enumerate_with_criteria(criteria: Vec<DeviceCriteria>, granted: &Vec<RawDevice>) -> (stream:
        Iter<DeviceInfo>)
        ensures
            views(stream.remaining()) == selected(criteria@, described(granted@)),
            stream.state() == StreamState::Unstarted,
    {
        enumerate_with_criteria(criteria, granted)
    }
}

/// Whether no two records of `devices` are of one device.
pub open spec fn distinct(devices: Seq<DeviceInfoView>) -> bool {
    forall|i: int, j: int|
        0 <= i < j < devices.len() ==> (#[trigger] devices[i]).id != (#[trigger] devices[j]).id
}

/// A merged list starts with the first list, holds a record of every device
/// of either list and of no other, and holds no device twice unless the
/// first list does.
pub proof fn lemma_merged(found: Seq<DeviceInfoView>, existing: Seq<DeviceInfoView>)
    ensures
        found.len() <= merged(found, existing).len() <= found.len() + existing.len(),
        merged(found, existing).take(found.len() as int) == found,
        forall|id: DeviceIdView| #[trigger]
            knows(merged(found, existing), id) <==> knows(found, id) || knows(existing, id),
        distinct(found) ==> distinct(merged(found, existing)),
    decreases existing.len(),
{
    let all = merged(found, existing);
    if existing.len() == 0 {
        assert(all.take(found.len() as int) =~= found);
        assert forall|id: DeviceIdView| #[trigger] knows(all, id) <==> knows(found, id) || knows(
            existing,
            id,
        ) by {}
    } else {
        let front = existing.drop_last();
        let last = existing.last();
        let earlier = merged(found, front);
        lemma_merged(found, front);
        assert(all.take(found.len() as int) =~= earlier.take(found.len() as int));
        assert forall|id: DeviceIdView| #[trigger] knows(all, id) <==> knows(found, id) || knows(
            existing,
            id,
        ) by {
            if knows(existing, id) {
                let i = choose|i: int| 0 <= i < existing.len() && (#[trigger] existing[i]).id
                    == id;
                if i < front.len() {
                    assert(front[i].id == id);
                    assert(knows(front, id));
                    assert(knows(earlier, id));
                } else {
                    assert(last.id == id);
                }
                if knows(earlier, id) {
                    let k = choose|k: int| 0 <= k < earlier.len() && (#[trigger] earlier[k]).id
                        == id;
                    assert(all[k].id == id);
                } else {
                    assert(all[earlier.len() as int].id == id);
                }
            }
            if knows(found, id) {
                assert(knows(earlier, id));
                let k = choose|k: int| 0 <= k < earlier.len() && (#[trigger] earlier[k]).id == id;
                assert(all[k].id == id);
            }
            if knows(all, id) {
                let k = choose|k: int| 0 <= k < all.len() && (#[trigger] all[k]).id == id;
                if k < earlier.len() {
                    assert(earlier[k].id == id);
                    assert(knows(earlier, id));
                    if knows(front, id) {
                        let i = choose|i: int| 0 <= i < front.len() && (#[trigger] front[i]).id
                            == id;
                        assert(existing[i].id == id);
                    }
                } else {
                    assert(existing[existing.len() - 1].id == id);
                }
            }
        }
        if distinct(found) {
            assert forall|i: int, j: int| 0 <= i < j < all.len() implies (#[trigger] all[i]).id
                != (#[trigger] all[j]).id by {
                if j < earlier.len() {
                    assert(earlier[i].id != earlier[j].id);
                } else {
                    assert(!knows(earlier, last.id));
                    assert(earlier[i].id != last.id);
                }
            }
        }
    }
}

} // verus!
