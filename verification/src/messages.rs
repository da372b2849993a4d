//! The messages that the host sends in a session, byte for byte.
//!
//! Every message is a sequence of big-endian fields of sixteen or thirty-two
//! bits. The meter is fixed firmware: the order and the widths of the fields
//! are part of the protocol.

use crate::protocol::{
    be16_bytes, be32_bytes, write_be16, write_be32, ACTION_TYPE_MDC_ACT_SEG_GET_INFO,
    ACTION_TYPE_MDC_ACT_SEG_TRIG_XFER, APDU_TYPE_ASSOCIATION_RELEASE_REQUEST,
    APDU_TYPE_ASSOCIATION_RESPONSE, APDU_TYPE_PRESENTATION_APDU, DATA_APDU_INVOKE_CONFIRMED_ACTION,
    DATA_APDU_INVOKE_GET, DATA_APDU_RESPONSE_CONFIRMED_EVENT_REPORT, EVENT_TYPE_MDC_NOTI_CONFIG,
    EVENT_TYPE_MDC_NOTI_SEGMENT_DATA,
};
use vstd::prelude::*;

verus! {

/// The association response: the host accepts the association and declares
/// its protocol version, encoding rules, nomenclature version, functional
/// units, system type and an eight-byte system id.
pub open spec fn association_response_bytes() -> Seq<u8> {
    be16_bytes(0xE300)  // association response
     + be16_bytes(44)  // length of what follows
     + be16_bytes(0x0003)  // result: accepted, configuration unknown
     + be16_bytes(20601)  // data protocol id
     + be16_bytes(38)  // length of the protocol information
     + be32_bytes(0x80000002)  // protocol version
     + be16_bytes(0x8000)  // encoding rules: MDER
     + be32_bytes(0x80000000)  // nomenclature version
     + be32_bytes(0)  // functional units: normal association
     + be32_bytes(0x80000000)  // system type: manager
     + be16_bytes(8)  // length of the system id
     + be32_bytes(0x12345678)  // system id, high half
     + be32_bytes(0)  // system id, low half
     + be32_bytes(0) + be32_bytes(0) + be16_bytes(0)
}

/// The confirmation that the configuration report under `invoke_id` was
/// received and accepted.
pub open spec fn config_confirmation_bytes(invoke_id: u16) -> Seq<u8> {
    be16_bytes(0xE700)  // presentation
     + be16_bytes(22)  // length of what follows
     + be16_bytes(20)  // length of the octet string
     + be16_bytes(invoke_id as int) + be16_bytes(0x0201)  // confirmed event report response
     + be16_bytes(14)  // length of what follows
     + be16_bytes(0)  // object handle
     + be32_bytes(0)  // current time
     + be16_bytes(0x0D1C)  // event: configuration notification
     + be16_bytes(4)  // length of what follows
     + be16_bytes(0x4000)  // configuration report id
     + be16_bytes(0)  // configuration result: accepted
}

/// The request, under `invoke_id`, for the attributes of the device's
/// top-level object, handle zero.
pub open spec fn mds_request_bytes(invoke_id: u16) -> Seq<u8> {
    be16_bytes(0xE700)  // presentation
     + be16_bytes(14)  // length of what follows
     + be16_bytes(12)  // length of the octet string
     + be16_bytes(invoke_id as int) + be16_bytes(0x0103)  // get
     + be16_bytes(6)  // length of what follows
     + be16_bytes(0)  // object handle
     + be32_bytes(0)  // current time
}

/// The request, under `invoke_id`, for the segment information of all
/// segments of the measurement store `store_handle`.
pub open spec fn action_request_bytes(invoke_id: u16, store_handle: u16) -> Seq<u8> {
    be16_bytes(0xE700)  // presentation
     + be16_bytes(20)  // length of what follows
     + be16_bytes(18)  // length of the octet string
     + be16_bytes(invoke_id as int) + be16_bytes(0x0107)  // confirmed action
     + be16_bytes(12)  // length of what follows
     + be16_bytes(store_handle as int) + be16_bytes(0x0C0D)  // action: get segment information
     + be16_bytes(6)  // length of what follows
     + be16_bytes(1)  // all segments
     + be16_bytes(2)  // length of what follows
     + be16_bytes(0)
}

/// The request, under `invoke_id`, to transfer segment zero of the
/// measurement store `store_handle`.
pub open spec fn segment_request_bytes(invoke_id: u16, store_handle: u16) -> Seq<u8> {
    be16_bytes(0xE700)  // presentation
     + be16_bytes(16)  // length of what follows
     + be16_bytes(14)  // length of the octet string
     + be16_bytes(invoke_id as int) + be16_bytes(0x0107)  // confirmed action
     + be16_bytes(8)  // length of what follows
     + be16_bytes(store_handle as int) + be16_bytes(0x0C1C)  // action: trigger segment transfer
     + be16_bytes(2)  // length of what follows
     + be16_bytes(0)  // segment
}

/// The acknowledgement of a data segment received under `invoke_id`. It
/// hands back three fields of the segment as they came: `first` and `second`
/// of thirty-two bits, `third` of sixteen.
pub open spec fn segment_ack_bytes(
    invoke_id: u16,
    store_handle: u16,
    first: u32,
    second: u32,
    third: u16,
) -> Seq<u8> {
    be16_bytes(0xE700)  // presentation
     + be16_bytes(30)  // length of what follows
     + be16_bytes(28)  // length of the octet string
     + be16_bytes(invoke_id as int) + be16_bytes(0x0201)  // confirmed event report response
     + be16_bytes(22)  // length of what follows
     + be16_bytes(store_handle as int) + be32_bytes(0xFFFFFFFF)  // relative time: none
     + be16_bytes(0x0D21)  // event: segment data notification
     + be16_bytes(12)  // length of what follows
     + be32_bytes(first as int) + be32_bytes(second as int) + be16_bytes(third as int)
        + be16_bytes(0x0080)
}

/// The request to release the association.
pub open spec fn release_request_bytes() -> Seq<u8> {
    be16_bytes(0xE400)  // association release request
     + be16_bytes(2)  // length of what follows
     + be16_bytes(0)  // reason: normal
}

/// Builds the association response.
pub fn association_response() -> (msg: Vec<u8>)
    ensures
        msg@ == association_response_bytes(),
{
    let mut msg = Vec::new();
    write_be16(&mut msg, APDU_TYPE_ASSOCIATION_RESPONSE);
    write_be16(&mut msg, 44);
    write_be16(&mut msg, 0x0003);
    write_be16(&mut msg, 20601);
    write_be16(&mut msg, 38);
    write_be32(&mut msg, 0x80000002);
    write_be16(&mut msg, 0x8000);
    write_be32(&mut msg, 0x80000000);
    write_be32(&mut msg, 0);
    write_be32(&mut msg, 0x80000000);
    write_be16(&mut msg, 8);
    write_be32(&mut msg, 0x12345678);
    write_be32(&mut msg, 0x00000000);
    write_be32(&mut msg, 0x00000000);
    write_be32(&mut msg, 0x00000000);
    write_be16(&mut msg, 0x0000);
    assert(msg@ =~= association_response_bytes());
    msg
}

/// Builds the confirmation of the configuration report.
pub fn config_confirmation(invoke_id: u16) -> (msg: Vec<u8>)
    ensures
        msg@ == config_confirmation_bytes(invoke_id),
{
    let mut msg = Vec::new();
    write_be16(&mut msg, APDU_TYPE_PRESENTATION_APDU);
    write_be16(&mut msg, 22);
    write_be16(&mut msg, 20);
    write_be16(&mut msg, invoke_id);
    write_be16(&mut msg, DATA_APDU_RESPONSE_CONFIRMED_EVENT_REPORT);
    write_be16(&mut msg, 14);
    write_be16(&mut msg, 0);
    write_be32(&mut msg, 0);
    write_be16(&mut msg, EVENT_TYPE_MDC_NOTI_CONFIG);
    write_be16(&mut msg, 4);
    write_be16(&mut msg, 0x4000);
    write_be16(&mut msg, 0);
    assert(msg@ =~= config_confirmation_bytes(invoke_id));
    msg
}

/// Builds the request for the attributes of the device's top-level object.
pub fn mds_request(invoke_id: u16) -> (msg: Vec<u8>)
    ensures
        msg@ == mds_request_bytes(invoke_id),
{
    let mut msg = Vec::new();
    write_be16(&mut msg, APDU_TYPE_PRESENTATION_APDU);
    write_be16(&mut msg, 14);
    write_be16(&mut msg, 12);
    write_be16(&mut msg, invoke_id);
    write_be16(&mut msg, DATA_APDU_INVOKE_GET);
    write_be16(&mut msg, 6);
    write_be16(&mut msg, 0);
    write_be32(&mut msg, 0);
    assert(msg@ =~= mds_request_bytes(invoke_id));
    msg
}

/// Builds the request for the segment information of all segments.
pub fn action_request(invoke_id: u16, store_handle: u16) -> (msg: Vec<u8>)
    ensures
        msg@ == action_request_bytes(invoke_id, store_handle),
{
    let mut msg = Vec::new();
    write_be16(&mut msg, APDU_TYPE_PRESENTATION_APDU);
    write_be16(&mut msg, 20);
    write_be16(&mut msg, 18);
    write_be16(&mut msg, invoke_id);
    write_be16(&mut msg, DATA_APDU_INVOKE_CONFIRMED_ACTION);
    write_be16(&mut msg, 12);
    write_be16(&mut msg, store_handle);
    write_be16(&mut msg, ACTION_TYPE_MDC_ACT_SEG_GET_INFO);
    write_be16(&mut msg, 6);
    write_be16(&mut msg, 1);
    write_be16(&mut msg, 2);
    write_be16(&mut msg, 0);
    assert(msg@ =~= action_request_bytes(invoke_id, store_handle));
    msg
}

/// Builds the request to transfer segment zero.
pub fn segment_request(invoke_id: u16, store_handle: u16) -> (msg: Vec<u8>)
    ensures
        msg@ == segment_request_bytes(invoke_id, store_handle),
{
    let mut msg = Vec::new();
    write_be16(&mut msg, APDU_TYPE_PRESENTATION_APDU);
    write_be16(&mut msg, 16);
    write_be16(&mut msg, 14);
    write_be16(&mut msg, invoke_id);
    write_be16(&mut msg, DATA_APDU_INVOKE_CONFIRMED_ACTION);
    write_be16(&mut msg, 8);
    write_be16(&mut msg, store_handle);
    write_be16(&mut msg, ACTION_TYPE_MDC_ACT_SEG_TRIG_XFER);
    write_be16(&mut msg, 2);
    write_be16(&mut msg, 0);
    assert(msg@ =~= segment_request_bytes(invoke_id, store_handle));
    msg
}

/// Builds the acknowledgement of a data segment.
pub fn segment_ack(invoke_id: u16, store_handle: u16, first: u32, second: u32, third: u16) -> (msg:
    Vec<u8>)
    ensures
        msg@ == segment_ack_bytes(invoke_id, store_handle, first, second, third),
{
    let mut msg = Vec::new();
    write_be16(&mut msg, APDU_TYPE_PRESENTATION_APDU);
    write_be16(&mut msg, 30);
    write_be16(&mut msg, 28);
    write_be16(&mut msg, invoke_id);
    write_be16(&mut msg, DATA_APDU_RESPONSE_CONFIRMED_EVENT_REPORT);
    write_be16(&mut msg, 22);
    write_be16(&mut msg, store_handle);
    write_be32(&mut msg, 0xFFFFFFFF);
    write_be16(&mut msg, EVENT_TYPE_MDC_NOTI_SEGMENT_DATA);
    write_be16(&mut msg, 12);
    write_be32(&mut msg, first);
    write_be32(&mut msg, second);
    write_be16(&mut msg, third);
    write_be16(&mut msg, 0x0080);
    assert(msg@ =~= segment_ack_bytes(invoke_id, store_handle, first, second, third));
    msg
}

/// Builds the request to release the association.
pub fn release_request() -> (msg: Vec<u8>)
    ensures
        msg@ == release_request_bytes(),
{
    let mut msg = Vec::new();
    write_be16(&mut msg, APDU_TYPE_ASSOCIATION_RELEASE_REQUEST);
    write_be16(&mut msg, 2);
    write_be16(&mut msg, 0x0000);
    assert(msg@ =~= release_request_bytes());
    msg
}

/// The lengths of the messages, and that each declares in its second field
/// the number of bytes that follow that field.
pub proof fn lemma_message_lengths(
    invoke_id: u16,
    store_handle: u16,
    first: u32,
    second: u32,
    third: u16,
)
    ensures
        association_response_bytes().len() == 48,
        config_confirmation_bytes(invoke_id).len() == 26,
        mds_request_bytes(invoke_id).len() == 18,
        action_request_bytes(invoke_id, store_handle).len() == 24,
        segment_request_bytes(invoke_id, store_handle).len() == 20,
        segment_ack_bytes(invoke_id, store_handle, first, second, third).len() == 34,
        release_request_bytes().len() == 6,
{
}

/// The association response, written out.
pub proof fn lemma_association_response_literal()
    ensures
        association_response_bytes() == seq![
            0xE3u8, 0x00, 0x00, 0x2C, 0x00, 0x03, 0x50, 0x79, 0x00, 0x26, 0x80, 0x00, 0x00, 0x02,
            0x80, 0x00, 0x80, 0x00, 0x00, 0x00, 0x00, 0x00, 0x00, 0x00, 0x80, 0x00, 0x00, 0x00,
            0x00, 0x08, 0x12, 0x34, 0x56, 0x78, 0x00, 0x00, 0x00, 0x00, 0x00, 0x00, 0x00, 0x00,
            0x00, 0x00, 0x00, 0x00, 0x00, 0x00,
        ],
{
    assert(association_response_bytes() =~= seq![
        0xE3u8, 0x00, 0x00, 0x2C, 0x00, 0x03, 0x50, 0x79, 0x00, 0x26, 0x80, 0x00, 0x00, 0x02, 0x80,
        0x00, 0x80, 0x00, 0x00, 0x00, 0x00, 0x00, 0x00, 0x00, 0x80, 0x00, 0x00, 0x00, 0x00, 0x08,
        0x12, 0x34, 0x56, 0x78, 0x00, 0x00, 0x00, 0x00, 0x00, 0x00, 0x00, 0x00, 0x00, 0x00, 0x00,
        0x00, 0x00, 0x00,
    ]);
}

} // verus!
