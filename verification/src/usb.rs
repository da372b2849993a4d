//! The few notions of USB that the matcher and the session speak of.

use vstd::prelude::*;

verus! {

/// Direction of a transfer or of an endpoint, seen from the host.
#[derive(Debug, Clone, Copy, PartialEq, Eq, Structural)]
pub enum Direction {
    /// Device to host.
    In,
    /// Host to device.
    Out,
}

/// Transfer type of an endpoint.
#[derive(Debug, Clone, Copy, PartialEq, Eq, Structural)]
pub enum TransferType {
    Control,
    Isochronous,
    Bulk,
    Interrupt,
}

/// Who defines the meaning of a control request.
#[derive(Debug, Clone, Copy, PartialEq, Eq, Structural)]
pub enum RequestType {
    Standard,
    Class,
    Vendor,
    Reserved,
}

/// Whom a control request addresses.
#[derive(Debug, Clone, Copy, PartialEq, Eq, Structural)]
pub enum Recipient {
    Device,
    Interface,
    Endpoint,
    Other,
}

/// The code of the standard request GET_STATUS.
pub const REQUEST_GET_STATUS: u8 = 0;

/// Seconds after which every transfer of a session is given up.
pub const TRANSFER_TIMEOUT_SECS: u64 = 5;

/// The packet size of the meter's bulk endpoints.
pub const BULK_PACKET_SIZE: u16 = 64;

/// The `bmRequestType` byte of a control request: the direction in bit 7, the
/// request type in bits 5 and 6, the recipient in the low bits.
pub open spec fn request_type_byte(
    direction: Direction,
    kind: RequestType,
    recipient: Recipient,
) -> int {
    (match direction {
        Direction::In => 0x80int,
        Direction::Out => 0x00int,
    }) + (match kind {
        RequestType::Standard => 0x00int,
        RequestType::Class => 0x20int,
        RequestType::Vendor => 0x40int,
        RequestType::Reserved => 0x60int,
    }) + (match recipient {
        Recipient::Device => 0int,
        Recipient::Interface => 1int,
        Recipient::Endpoint => 2int,
        Recipient::Other => 3int,
    })
}

/// Builds the `bmRequestType` byte of a control request.
pub fn request_type(direction: Direction, kind: RequestType, recipient: Recipient) -> (value: u8)
    ensures
        value as int == request_type_byte(direction, kind, recipient),
{
    let direction_bits: u8 = match direction {
        Direction::In => 0x80,
        Direction::Out => 0x00,
    };
    let type_bits: u8 = match kind {
        RequestType::Standard => 0x00,
        RequestType::Class => 0x20,
        RequestType::Vendor => 0x40,
        RequestType::Reserved => 0x60,
    };
    let recipient_bits: u8 = match recipient {
        Recipient::Device => 0,
        Recipient::Interface => 1,
        Recipient::Endpoint => 2,
        Recipient::Other => 3,
    };
    direction_bits + type_bits + recipient_bits
}

} // verus!
