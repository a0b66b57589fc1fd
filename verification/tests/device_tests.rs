use std::collections::hash_map::DefaultHasher;
use std::hash::Hash;
use std::hash::Hasher;

use async_hid::channel::count_taken;
use async_hid::channel::InputBridge;
use async_hid::descriptor::get_device_info;
use async_hid::descriptor::ObjectKind;
use async_hid::descriptor::RawCollection;
use async_hid::descriptor::RawDevice;
use async_hid::device::BackendDeviceReader;
use async_hid::device::BackendDeviceWriter;
use async_hid::device::DeviceReader;
use async_hid::device::DeviceWriter;
use async_hid::device_info::DeviceId;
use async_hid::device_info::DeviceInfo;
use async_hid::error::HidError;
use async_hid::report::check_buffer;
use async_hid::report::Report;

fn info(name: &str, number: u64) -> DeviceInfo {
    get_device_info(&RawDevice {
        kind: ObjectKind::Object,
        is_hid_device: true,
        id: DeviceId::Object(number),
        product_name: name.to_string(),
        vendor_id: 0x46D,
        product_id: 0xC52B,
        serial_number: None,
        collections_is_array: true,
        collections: vec![RawCollection { is_collection_info: true, usage_page: Some(1), usage: Some(5) }],
    })
    .unwrap()
}

/// What a wait on the queue of `reader` gives when it does not have to wait:
/// the oldest pending report, or `None` where the queue is closed.
fn received(reader: &BackendDeviceReader) -> Option<Report> {
    reader.input_channel().try_recv().ok()
}

fn hash_of<T: Hash>(value: &T) -> u64 {
    let mut hasher = DefaultHasher::new();
    value.hash(&mut hasher);
    hasher.finish()
}

#[test]
fn a_new_bridge_feeds_no_queue() {
    let bridge = InputBridge::new();
    assert_eq!(bridge.len(), 0);
    assert_eq!(bridge.publish(&Report { report_id: 1, payload: vec![] }), 0);
}

#[test]
fn a_published_report_is_read_from_the_queue() {
    let mut bridge = InputBridge::new();
    let reader = BackendDeviceReader::new(bridge.attach());
    assert_eq!(bridge.len(), 1);
    assert_eq!(bridge.publish(&Report { report_id: 7, payload: vec![9, 9] }), 1);
    let mut buffer = [0u8, 0, 0, 0];
    assert_eq!(reader.read_input_report(&mut buffer, received(&reader)), Ok(3));
    assert_eq!(buffer, [7, 9, 9, 0]);
}

#[test]
fn reports_come_out_in_the_order_they_went_in() {
    let mut bridge = InputBridge::new();
    let mut reader = DeviceReader::new(BackendDeviceReader::new(bridge.attach()), info("Pad", 1));
    for id in 1..=5u8 {
        assert_eq!(bridge.publish(&Report { report_id: id, payload: vec![id, id] }), 1);
    }
    for id in 1..=5u8 {
        let mut buffer = [0u8; 3];
        let incoming = reader.input_channel().try_recv().ok();
        assert_eq!(reader.read_input_report(&mut buffer, incoming), Ok(3));
        assert_eq!(buffer, [id, id, id]);
    }
}

#[test]
fn an_empty_destination_is_refused_before_anything_is_taken_off_the_queue() {
    let mut bridge = InputBridge::new();
    let reader = BackendDeviceReader::new(bridge.attach());
    bridge.publish(&Report { report_id: 7, payload: vec![9, 9] });
    let mut empty: [u8; 0] = [];
    assert_eq!(check_buffer(&empty), Err(HidError::ZeroSizedBuffer));
    assert_eq!(reader.input_channel().len(), 1);
    let mut buffer = [0u8; 4];
    assert_eq!(check_buffer(&buffer), Ok(()));
    let incoming = received(&reader);
    assert_eq!(reader.read_input_report(&mut buffer, incoming), Ok(3));
    assert_eq!(reader.input_channel().len(), 0);
    let unread = Report { report_id: 1, payload: vec![] };
    assert_eq!(reader.read_input_report(&mut empty, Some(unread)), Err(HidError::ZeroSizedBuffer));
    assert_eq!(reader.read_input_report(&mut empty, None), Err(HidError::ZeroSizedBuffer));
}

#[test]
fn an_overflowing_report_is_taken_off_the_queue() {
    let mut bridge = InputBridge::new();
    let reader = BackendDeviceReader::new(bridge.attach());
    bridge.publish(&Report { report_id: 7, payload: vec![0; 10] });
    bridge.publish(&Report { report_id: 8, payload: vec![1] });
    let mut buffer = [0u8; 4];
    assert_eq!(reader.read_input_report(&mut buffer, received(&reader)), Err(HidError::BufferOverflow));
    assert_eq!(reader.read_input_report(&mut buffer, received(&reader)), Ok(2));
    assert_eq!(buffer[..2], [8, 1]);
}

#[test]
fn a_detached_bridge_closes_the_queue_after_what_is_pending() {
    let mut bridge = InputBridge::new();
    let reader = BackendDeviceReader::new(bridge.attach());
    bridge.publish(&Report { report_id: 1, payload: vec![] });
    bridge.detach();
    assert_eq!(bridge.len(), 0);
    let mut buffer = [0u8; 2];
    assert_eq!(reader.read_input_report(&mut buffer, received(&reader)), Ok(1));
    assert_eq!(reader.read_input_report(&mut buffer, received(&reader)), Err(HidError::ChannelClosed));
    assert_eq!(reader.read_input_report(&mut buffer, received(&reader)), Err(HidError::ChannelClosed));
}

#[test]
fn every_queue_gets_every_report() {
    let mut bridge = InputBridge::new();
    let first = BackendDeviceReader::new(bridge.attach());
    let second = BackendDeviceReader::new(bridge.attach());
    assert_eq!(bridge.len(), 2);
    assert_eq!(bridge.publish(&Report { report_id: 3, payload: vec![4] }), 2);
    let mut buffer = [0u8; 2];
    assert_eq!(first.read_input_report(&mut buffer, received(&first)), Ok(2));
    assert_eq!(buffer, [3, 4]);
    let mut other = [0u8; 2];
    assert_eq!(second.read_input_report(&mut other, received(&second)), Ok(2));
    assert_eq!(other, [3, 4]);
}

#[test]
fn a_queue_without_reader_takes_nothing() {
    let mut bridge = InputBridge::new();
    let kept = BackendDeviceReader::new(bridge.attach());
    let dropped = bridge.attach();
    drop(dropped);
    assert_eq!(bridge.publish(&Report { report_id: 3, payload: vec![] }), 1);
    let mut buffer = [0u8; 1];
    assert_eq!(kept.read_input_report(&mut buffer, received(&kept)), Ok(1));
}

#[test]
fn the_writer_takes_the_report_out_of_the_buffer() {
    let mut writer = DeviceWriter::new(BackendDeviceWriter::new(), info("Pad", 1));
    assert_eq!(writer.write_output_report(&[2, 10, 20]), Ok(Report { report_id: 2, payload: vec![10, 20] }));
    assert_eq!(writer.write_output_report(&[2]), Ok(Report { report_id: 2, payload: vec![] }));
    assert_eq!(writer.write_output_report(&[]), Err(HidError::ZeroSizedBuffer));
    assert_eq!(BackendDeviceWriter::new().write_output_report(&[]), Err(HidError::ZeroSizedBuffer));
    assert_eq!(writer.device_info().name(), "Pad");
}

#[test]
fn readers_and_writers_compare_by_their_device() {
    let mut bridge = InputBridge::new();
    let first = DeviceReader::new(BackendDeviceReader::new(bridge.attach()), info("Pad", 1));
    let same = DeviceReader::new(BackendDeviceReader::new(bridge.attach()), info("Renamed", 1));
    let other = DeviceReader::new(BackendDeviceReader::new(bridge.attach()), info("Pad", 2));
    assert!(first == same);
    assert!(first != other);
    assert_eq!(hash_of(&first), hash_of(&same));
    assert_eq!(first.device_info().name(), "Pad");
    let writer = DeviceWriter::new(BackendDeviceWriter::new(), info("Pad", 1));
    let same_writer = DeviceWriter::new(BackendDeviceWriter::new(), info("Pad", 1));
    let other_writer = DeviceWriter::new(BackendDeviceWriter::new(), info("Pad", 3));
    assert!(writer == same_writer);
    assert!(writer != other_writer);
    assert_eq!(hash_of(&writer), hash_of(&same_writer));
    assert_ne!(hash_of(&writer), hash_of(&first));
}

#[test]
fn the_queues_that_took_a_report_are_counted() {
    assert_eq!(count_taken(&vec![]), 0);
    assert_eq!(count_taken(&vec![false, false]), 0);
    assert_eq!(count_taken(&vec![true, false, true]), 2);
    assert_eq!(count_taken(&vec![true, true, true, true]), 4);
}

#[test]
fn publish_counts_the_queues_whose_reader_lives() {
    let mut bridge = InputBridge::new();
    let first = bridge.attach();
    let second = bridge.attach();
    let third = bridge.attach();
    drop(second);
    assert_eq!(bridge.len(), 3);
    assert_eq!(bridge.publish(&Report { report_id: 1, payload: vec![2] }), 2);
    assert_eq!(first.len(), 1);
    assert_eq!(third.len(), 1);
    drop(first);
    drop(third);
    assert_eq!(bridge.publish(&Report { report_id: 1, payload: vec![2] }), 0);
}
