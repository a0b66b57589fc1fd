//! The readers and writers of an open device.

use vstd::prelude::*;
use vstd::std_specs::cmp::PartialEqSpecImpl;
use std::hash::Hash;
use std::hash::Hasher;
use async_channel::Receiver;
use crate::device_info::DeviceInfo;
use crate::device_info::DeviceInfoView;
use crate::error::HidResult;
use crate::report::ReadOutcome;
use crate::report::Report;
use crate::report::deliver_report;
use crate::report::incoming_view;
use crate::report::output_report;
use crate::report::read_outcome;
use crate::report::read_result_view;
use crate::report::report_result_view;
use crate::report::split_output_report;

verus! {

/// The reading side of an open device: the queue of its pending input
/// reports.
#[derive(Debug)]
pub struct BackendDeviceReader {
    input_channel: Receiver<Report>,
}

impl BackendDeviceReader {
    /// The queue from which the reader takes its reports.
    pub closed spec fn queue(&self) -> Receiver<Report> {
        self.input_channel
    }

    /// The reader that takes its reports from `input_channel`.
    pub fn new(input_channel: Receiver<Report>) -> (reader: BackendDeviceReader)
        ensures
            reader.queue() == input_channel,
    {
        BackendDeviceReader { input_channel }
    }

    /// The queue of pending input reports.
    pub fn input_channel(&self) -> (queue: &Receiver<Report>)
        ensures
            *queue == self.queue(),
    {
        &self.input_channel
    }

    /// Writes the input report that the backend received from the queue of
    /// this reader into `buf`, and returns the number of bytes written.
    ///
    /// `incoming` is what the wait on [`Self::input_channel`] gave: the
    /// oldest pending report, or `None` where the queue is closed. The
    /// backend makes sure with [`check_buffer`](crate::report::check_buffer)
    /// that `buf` is not empty before it waits; an empty `buf` is refused
    /// here too, whatever was received.
    pub fn read_input_report(&self, buf: &mut [u8], incoming: Option<Report>) -> (outcome:
        HidResult<usize>)
        ensures
            read_outcome(old(buf)@, incoming_view(incoming)) == (ReadOutcome {
                result: read_result_view(outcome),
                buffer: final(buf)@,
            }),
    {
        deliver_report(buf, incoming)
    }
}

/// The writing side of an open device.
#[derive(Debug)]
pub struct BackendDeviceWriter {

}

impl BackendDeviceWriter {
    /// The writing side of a device.
    pub fn new() -> (writer: BackendDeviceWriter) {
        BackendDeviceWriter {  }
    }

    /// Takes the output report that the caller submits in `buf`, for the
    /// backend to send: the first byte is the report id, the bytes behind it
    /// are the payload. An empty `buf` is refused.
    pub fn write_output_report(&self, buf: &[u8]) -> (submitted: HidResult<Report>)
        ensures
            report_result_view(submitted) == output_report(buf@),
    {
        split_output_report(buf)
    }
}

/// An opened device reader.
///
/// When the reader and the writer of a device are both released, the device
/// is closed.
#[derive(Debug)]
pub struct DeviceReader {
    pub(crate) inner: BackendDeviceReader,
    pub(crate) device_info: DeviceInfo,
}

impl DeviceReader {
    /// The mathematical value of the record of this device.
    pub closed spec fn info(&self) -> DeviceInfoView {
        self.device_info@
    }

    /// The queue from which the reader takes its reports.
    pub closed spec fn queue(&self) -> Receiver<Report> {
        self.inner.queue()
    }

    /// The reader of the device of `device_info` over `inner`.
    pub fn new(inner: BackendDeviceReader, device_info: DeviceInfo) -> (reader: DeviceReader)
        ensures
            reader.info() == device_info@,
            reader.queue() == inner.queue(),
    {
        DeviceReader { inner, device_info }
    }

    /// Writes the input report that the backend received from the queue of
    /// this reader into `buffer`: see
    /// [`BackendDeviceReader::read_input_report`].
    pub fn read_input_report(&mut self, buffer: &mut [u8], incoming: Option<Report>) -> (outcome:
        HidResult<usize>)
        ensures
            read_outcome(old(buffer)@, incoming_view(incoming)) == (ReadOutcome {
                result: read_result_view(outcome),
                buffer: final(buffer)@,
            }),
            final(self).info() == old(self).info(),
            final(self).queue() == old(self).queue(),
    {
        self.inner.read_input_report(buffer, incoming)
    }

    /// The queue of pending input reports of this reader.
    pub fn input_channel(&self) -> (queue: &Receiver<Report>)
        ensures
            *queue == self.queue(),
    {
        self.inner.input_channel()
    }

    /// The record of this device.
    pub fn device_info(&self) -> (info: &DeviceInfo)
        ensures
            info@ == self.info(),
    {
        &self.device_info
    }
}

impl PartialEq for DeviceReader {
    fn eq(&self, other: &Self) -> (equal: bool) {
        self.device_info == other.device_info
    }
}

impl PartialEqSpecImpl for DeviceReader {
    open spec fn obeys_eq_spec() -> bool {
        true
    }

    open spec fn eq_spec(&self, other: &Self) -> bool {
        self.info().id == other.info().id
    }
}

impl Eq for DeviceReader {

}

impl Hash for DeviceReader {
    /// Feeds the name of the reading side and the identity of the device to
    /// `state`.
    fn hash<H: Hasher>(&self, state: &mut H) {
        "BackendDeviceReader".hash(state);
        self.device_info.hash(state);
    }
}

/// An opened device writer.
///
/// When the writer and the reader of a device are both released, the device
/// is closed.
#[derive(Debug)]
pub struct DeviceWriter {
    pub(crate) inner: BackendDeviceWriter,
    pub(crate) device_info: DeviceInfo,
}

impl DeviceWriter {
    /// The mathematical value of the record of this device.
    pub closed spec fn info(&self) -> DeviceInfoView {
        self.device_info@
    }

    /// The writer of the device of `device_info` over `inner`.
    pub fn new(inner: BackendDeviceWriter, device_info: DeviceInfo) -> (writer: DeviceWriter)
        ensures
            writer.info() == device_info@,
    {
        DeviceWriter { inner, device_info }
    }

    /// Takes the output report that the caller submits in `buffer`: see
    /// [`BackendDeviceWriter::write_output_report`].
    pub fn write_output_report(&mut self, buffer: &[u8]) -> (submitted: HidResult<Report>)
        ensures
            report_result_view(submitted) == output_report(buffer@),
            final(self).info() == old(self).info(),
    {
        self.inner.write_output_report(buffer)
    }

    /// The record of this device.
    pub fn device_info(&self) -> (info: &DeviceInfo)
        ensures
            info@ == self.info(),
    {
        &self.device_info
    }
}

impl PartialEq for DeviceWriter {
    fn eq(&self, other: &Self) -> (equal: bool) {
        self.device_info == other.device_info
    }
}

impl PartialEqSpecImpl for DeviceWriter {
    open spec fn obeys_eq_spec() -> bool {
        true
    }

    open spec fn eq_spec(&self, other: &Self) -> bool {
        self.info().id == other.info().id
    }
}

impl Eq for DeviceWriter {

}

impl Hash for DeviceWriter {
    /// Feeds the name of the writing side and the identity of the device to
    /// `state`.
    fn hash<H: Hasher>(&self, state: &mut H) {
        "BackendDeviceWriter".hash(state);
        self.device_info.hash(state);
    }
}

} // verus!
