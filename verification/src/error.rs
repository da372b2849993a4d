//! The failures that discovery and a download session report.

use crate::text::{decimal, hex_padded, push_decimal, push_hex_padded, push_text};
use vstd::prelude::*;

verus! {

/// A failure of the USB transport, as the transport layer classifies it.
#[derive(Debug, Clone, Copy, PartialEq, Eq, Structural)]
pub enum UsbError {
    Io,
    InvalidParam,
    Access,
    NoDevice,
    NotFound,
    Busy,
    Timeout,
    Overflow,
    Pipe,
    Interrupted,
    NoMem,
    NotSupported,
    BadDescriptor,
    Other,
}

impl UsbError {
    /// The text that describes the failure.
    pub open spec fn description_text(self) -> Seq<char> {
        match self {
            UsbError::Io => "Input/Output Error"@,
            UsbError::InvalidParam => "Invalid parameter"@,
            UsbError::Access => "Access denied (insufficient permissions)"@,
            UsbError::NoDevice => "No such device (it may have been disconnected)"@,
            UsbError::NotFound => "Entity not found"@,
            UsbError::Busy => "Resource busy"@,
            UsbError::Timeout => "Operation timed out"@,
            UsbError::Overflow => "Overflow"@,
            UsbError::Pipe => "Pipe error"@,
            UsbError::Interrupted => "System call interrupted (perhaps due to signal)"@,
            UsbError::NoMem => "Insufficient memory"@,
            UsbError::NotSupported => "Operation not supported or unimplemented on this platform"@,
            UsbError::BadDescriptor => "Malformed descriptor"@,
            UsbError::Other => "Other error"@,
        }
    }

    /// The text that describes the failure.
    pub fn description(&self) -> (text: &'static str)
        ensures
            text@ == self.description_text(),
    {
        match self {
            UsbError::Io => "Input/Output Error",
            UsbError::InvalidParam => "Invalid parameter",
            UsbError::Access => "Access denied (insufficient permissions)",
            UsbError::NoDevice => "No such device (it may have been disconnected)",
            UsbError::NotFound => "Entity not found",
            UsbError::Busy => "Resource busy",
            UsbError::Timeout => "Operation timed out",
            UsbError::Overflow => "Overflow",
            UsbError::Pipe => "Pipe error",
            UsbError::Interrupted => "System call interrupted (perhaps due to signal)",
            UsbError::NoMem => "Insufficient memory",
            UsbError::NotSupported => "Operation not supported or unimplemented on this platform",
            UsbError::BadDescriptor => "Malformed descriptor",
            UsbError::Other => "Other error",
        }
    }
}

/// Why discovery or a download session failed.
#[derive(Debug)]
pub enum AccuChekError {
    /// The USB transport failed.
    Usb(UsbError),
    /// A file operation failed; the text says how.
    Io(String),
    /// Readings could not be serialised; the text says why.
    Json(String),
    /// The process lacks the privileges to reach the device.
    PermissionDenied,
    /// No attached device passed the matcher.
    NoDeviceFound,
    /// The device's vendor and product pair is not on the whitelist.
    DeviceNotWhitelisted(u16, u16),
    /// The device sent something the protocol does not allow.
    Protocol(String),
    /// A transfer did not carry the expected amount of data.
    Communication(String),
    /// The selected index is not below the number of matching devices.
    InvalidDeviceIndex(usize),
    /// The device has no stored measurements.
    EmptyDataSegment,
    /// The device aborted the association.
    AssociationAborted,
    /// The segment header did not answer the transfer request.
    UnexpectedResponse,
    /// The configuration text could not be read.
    ConfigParse(String),
}

/// An `AccuChekError` with its texts as sequences of characters.
pub enum ErrorView {
    Usb(UsbError),
    Io(Seq<char>),
    Json(Seq<char>),
    PermissionDenied,
    NoDeviceFound,
    DeviceNotWhitelisted(u16, u16),
    Protocol(Seq<char>),
    Communication(Seq<char>),
    InvalidDeviceIndex(usize),
    EmptyDataSegment,
    AssociationAborted,
    UnexpectedResponse,
    ConfigParse(Seq<char>),
}

impl View for AccuChekError {
    type V = ErrorView;

    open spec fn view(&self) -> ErrorView {
        match *self {
            AccuChekError::Usb(e) => ErrorView::Usb(e),
            AccuChekError::Io(s) => ErrorView::Io(s@),
            AccuChekError::Json(s) => ErrorView::Json(s@),
            AccuChekError::PermissionDenied => ErrorView::PermissionDenied,
            AccuChekError::NoDeviceFound => ErrorView::NoDeviceFound,
            AccuChekError::DeviceNotWhitelisted(v, p) => ErrorView::DeviceNotWhitelisted(v, p),
            AccuChekError::Protocol(s) => ErrorView::Protocol(s@),
            AccuChekError::Communication(s) => ErrorView::Communication(s@),
            AccuChekError::InvalidDeviceIndex(i) => ErrorView::InvalidDeviceIndex(i),
            AccuChekError::EmptyDataSegment => ErrorView::EmptyDataSegment,
            AccuChekError::AssociationAborted => ErrorView::AssociationAborted,
            AccuChekError::UnexpectedResponse => ErrorView::UnexpectedResponse,
            AccuChekError::ConfigParse(s) => ErrorView::ConfigParse(s@),
        }
    }
}

impl ErrorView {
    /// The one-line description of the failure.
    pub open spec fn message(self) -> Seq<char> {
        match self {
            ErrorView::Usb(e) => "USB error: "@ + e.description_text(),
            ErrorView::Io(s) => "IO error: "@ + s,
            ErrorView::Json(s) => "JSON serialization error: "@ + s,
            ErrorView::PermissionDenied => "Permission denied - must run as root/administrator"@,
            ErrorView::NoDeviceFound => "No Accu-Chek device found"@,
            ErrorView::DeviceNotWhitelisted(v, p) => "Device not in whitelist: vendor=0x"@
                + hex_padded(v as nat, false, 4) + ", product=0x"@ + hex_padded(
                p as nat,
                false,
                4,
            ),
            ErrorView::Protocol(s) => "Protocol error: "@ + s,
            ErrorView::Communication(s) => "Device communication error: "@ + s,
            ErrorView::InvalidDeviceIndex(i) => "Invalid device index: "@ + decimal(i as nat),
            ErrorView::EmptyDataSegment => "Empty data segment"@,
            ErrorView::AssociationAborted => "Association aborted by device"@,
            ErrorView::UnexpectedResponse => "Unexpected response from device"@,
            ErrorView::ConfigParse(s) => "Config parse error: "@ + s,
        }
    }
}

impl AccuChekError {
    /// The one-line description of the failure.
    pub fn message(&self) -> (text: String)
        ensures
            text@ == self@.message(),
    {
        let mut out = String::new();
        match self {
            AccuChekError::Usb(e) => {
                push_text(&mut out, "USB error: ");
                push_text(&mut out, e.description());
            },
            AccuChekError::Io(s) => {
                push_text(&mut out, "IO error: ");
                push_text(&mut out, s.as_str());
            },
            AccuChekError::Json(s) => {
                push_text(&mut out, "JSON serialization error: ");
                push_text(&mut out, s.as_str());
            },
            AccuChekError::PermissionDenied => {
                push_text(&mut out, "Permission denied - must run as root/administrator");
            },
            AccuChekError::NoDeviceFound => {
                push_text(&mut out, "No Accu-Chek device found");
            },
            AccuChekError::DeviceNotWhitelisted(v, p) => {
                push_text(&mut out, "Device not in whitelist: vendor=0x");
                push_hex_padded(&mut out, *v as u64, false, 4);
                push_text(&mut out, ", product=0x");
                push_hex_padded(&mut out, *p as u64, false, 4);
            },
            AccuChekError::Protocol(s) => {
                push_text(&mut out, "Protocol error: ");
                push_text(&mut out, s.as_str());
            },
            AccuChekError::Communication(s) => {
                push_text(&mut out, "Device communication error: ");
                push_text(&mut out, s.as_str());
            },
            AccuChekError::InvalidDeviceIndex(i) => {
                push_text(&mut out, "Invalid device index: ");
                push_decimal(&mut out, *i as u64);
            },
            AccuChekError::EmptyDataSegment => {
                push_text(&mut out, "Empty data segment");
            },
            AccuChekError::AssociationAborted => {
                push_text(&mut out, "Association aborted by device");
            },
            AccuChekError::UnexpectedResponse => {
                push_text(&mut out, "Unexpected response from device");
            },
            AccuChekError::ConfigParse(s) => {
                push_text(&mut out, "Config parse error: ");
                push_text(&mut out, s.as_str());
            },
        }
        assert(out@ =~= self@.message());
        out
    }
}

/// The result is the failure `failure`.
pub open spec fn fails_with<T>(result: Result<T, AccuChekError>, failure: ErrorView) -> bool {
    match result {
        Ok(_) => false,
        Err(e) => e@ == failure,
    }
}

/// A protocol failure with the given text.
pub fn protocol_error(text: &str) -> (e: AccuChekError)
    ensures
        e@ == ErrorView::Protocol(text@),
{
    AccuChekError::Protocol(String::from_str(text))
}

} // verus!
