//! The error type shared by every operation of the crate.

use vstd::prelude::*;

verus! {

/// Why an operation on a device failed.
#[derive(Debug, Clone, PartialEq, Eq, Hash)]
pub enum HidError {
    /// The platform API or its runtime context cannot be reached.
    PlatformUnavailable,
    /// The identity of the device no longer resolves to a connected device.
    NotFound,
    /// The platform refused to open the device.
    AccessDenied,
    /// The device is open elsewhere and the platform forbids a second open.
    AlreadyInUse,
    /// A caller-supplied report buffer has length zero.
    ZeroSizedBuffer,
    /// An incoming report does not fit into the destination buffer.
    BufferOverflow,
    /// The device or its event source was torn down.
    ChannelClosed,
    /// A failure that has no cross-platform classification, with the
    /// backend's description of it.
    PlatformSpecific(String),
}

/// The result of an operation of this crate.
pub type HidResult<T> = Result<T, HidError>;

/// The mathematical value of a [`HidError`]: the same variants, with the
/// backend's description as a sequence of characters.
pub enum HidErrorView {
    PlatformUnavailable,
    NotFound,
    AccessDenied,
    AlreadyInUse,
    ZeroSizedBuffer,
    BufferOverflow,
    ChannelClosed,
    PlatformSpecific(Seq<char>),
}

impl View for HidError {
    type V = HidErrorView;

    open spec fn view(&self) -> HidErrorView {
        match self {
            HidError::PlatformUnavailable => HidErrorView::PlatformUnavailable,
            HidError::NotFound => HidErrorView::NotFound,
            HidError::AccessDenied => HidErrorView::AccessDenied,
            HidError::AlreadyInUse => HidErrorView::AlreadyInUse,
            HidError::ZeroSizedBuffer => HidErrorView::ZeroSizedBuffer,
            HidError::BufferOverflow => HidErrorView::BufferOverflow,
            HidError::ChannelClosed => HidErrorView::ChannelClosed,
            HidError::PlatformSpecific(details) => HidErrorView::PlatformSpecific(details@),
        }
    }
}

/// The mathematical value of a result whose error is a [`HidError`] and whose
/// success carries nothing.
pub open spec fn unit_result_view(result: HidResult<()>) -> Result<(), HidErrorView> {
    match result {
        Ok(_) => Ok(()),
        Err(error) => Err(error@),
    }
}

impl HidError {
    /// An error without a cross-platform classification, described by
    /// `message`.
    pub fn custom(message: &str) -> (error: HidError)
        ensures
            error@ == HidErrorView::PlatformSpecific(message@),
    {
        HidError::PlatformSpecific(String::from_str(message))
    }

    /// The error for a report buffer of length zero.
    pub fn zero_sized_data() -> (error: HidError)
        ensures
            error@ == HidErrorView::ZeroSizedBuffer,
    {
        HidError::ZeroSizedBuffer
    }
}

} // verus!
