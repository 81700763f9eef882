//! The errors of USBTMC communication.
use vstd::prelude::*;

verus! {

/// An error from the underlying USB library, one variant per kind it reports.
#[derive(Clone, Copy, Debug, PartialEq, Eq, Structural)]
pub enum UsbError {
    Access,
    BadDescriptor,
    Busy,
    Interrupted,
    InvalidParam,
    Io,
    NoDevice,
    NoMem,
    NotFound,
    NotSupported,
    Other,
    Overflow,
    Pipe,
    Timeout,
}

/// A response from the device that didn't conform to the USBTMC bulk
/// transfer framing.
#[derive(Clone, Copy, Debug, PartialEq, Eq, Structural)]
#[allow(inconsistent_fields)]
pub enum ProtocolError {
    /// A `DEV_DEP_MSG_IN` header carried the wrong `bTag`.
    BTagMismatch { expected: u8, got: u8 },

    /// A `DEV_DEP_MSG_IN` header carried the wrong `bTagInverse`.
    BTagInverseMismatch { expected: u8, got: u8 },

    /// A bulk-IN transfer returned no data at all.
    BulkInEnded,

    /// The answer to a control request had the wrong length.
    ControlResponseLength { request: u8, got: usize, expected: usize },

    /// A `DEV_DEP_MSG_IN` transfer ended before its header and payload had
    /// arrived.
    TransferEnded { received: u64, expected: u64 },

    /// A header that should have been a `DEV_DEP_MSG_IN` carried another
    /// `MsgID`.
    UnexpectedMessageId { got: u8 },
}

/// An error communicating with a USBTMC device.
#[derive(Clone, Copy, Debug, PartialEq, Eq, Structural)]
pub enum Error {
    /// The device declined a control request, answering with this status.
    ControlRequestFailed { request: u8, status: u8 },

    /// No connected USB device matched the requested vendor and product ID.
    DeviceNotFound { vendor_id: u16, product_id: u16 },

    /// More than one connected USB device matched the requested vendor and
    /// product ID.
    MultipleDevicesFound { vendor_id: u16, product_id: u16, count: usize },

    /// The device's response didn't conform to the USBTMC framing. The host
    /// and device are out of sync; the device should be reopened.
    Protocol(ProtocolError),

    /// The underlying USB library failed.
    Usb(UsbError),

    /// The device has no USBTMC interface exposing a bulk-IN and a bulk-OUT
    /// endpoint.
    UsbTmcInterfaceNotFound,

    /// A response wasn't valid UTF-8.
    Utf8,
}

} // verus!
