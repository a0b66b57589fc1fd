//! Device-independent core of a Human Interface Device (HID) access layer.
//!
//! The crate holds the rules that every platform backend shares: how a
//! discovered device is described and compared, which devices a list of
//! criteria selects, how input and output reports are framed in caller
//! buffers, how the readers and writers of one physical device share a single
//! native resource, and how an enumeration is handed out item by item.
//! Platform backends perform the native calls and feed their results to the
//! functions of this crate.

pub mod error;
pub mod hashing;
pub mod device_info;
pub mod descriptor;
pub mod stream;
pub mod enumeration;
pub mod report;
pub mod channel;
pub mod handle;
pub mod device;
pub mod open;
