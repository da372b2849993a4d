//! The download session as a state machine.
//!
//! A session is a fixed sequence of transfers with the meter. The machine
//! never touches the transport: it tells the caller which transfer to make
//! (`Action`), the caller makes it and reports how it ended (`Event`), and
//! `Session::step` decides what follows. The phase of a session names the
//! transfer that is under way. Nothing is retried: any failure closes the
//! session and discards the readings gathered so far.

use crate::device::AccuChekDevice;
use crate::error::{fails_with, protocol_error, AccuChekError, ErrorView, UsbError};
use crate::locator::{
    attribute_not_found_text, attribute_offset, find_attribute, find_object, get_attr, get_obj,
    object_not_found_text, object_offset, truncated_text, Lookup,
};
use crate::messages::{
    action_request, action_request_bytes, association_response, association_response_bytes,
    config_confirmation, config_confirmation_bytes, mds_request, mds_request_bytes,
    release_request, release_request_bytes, segment_ack, segment_ack_bytes, segment_request,
    segment_request_bytes,
};
use crate::protocol::{
    be16_at, be32_at, read_be16, read_be32, ACTION_TYPE_MDC_ACT_SEG_TRIG_XFER,
    APDU_TYPE_ASSOCIATION_ABORT, MDC_ATTR_NUM_SEG, MDC_MOC_VMO_PMSTORE,
};
use crate::segment::{
    counter_exhausted_text, counter_fits, declared_entries, lemma_segment_ids_consecutive,
    lemma_segment_readings_count, parse_data, reading_views, segment_fits,
    segment_readings, GlucoseReading, ReadingView,
};
use crate::text::{decimal, push_decimal, push_text};
use crate::usb::{
    request_type, request_type_byte, Direction, Recipient, RequestType, REQUEST_GET_STATUS,
    TRANSFER_TIMEOUT_SECS,
};
use vstd::prelude::*;

verus! {

/// Bytes asked for in the control transfer that opens the exchange.
pub const CONTROL_READ_LEN: usize = 2;

/// Bytes asked for when waiting for the pairing request.
pub const PAIRING_READ_LEN: usize = 64;

/// Bytes asked for in every other read.
pub const RESPONSE_READ_LEN: usize = 1024;

/// Offset of the invoke-id in a response.
pub const INVOKE_ID_OFFSET: usize = 6;

/// The data-response code by which the meter says that it holds no
/// measurements.
pub const DATA_RESPONSE_EMPTY: u16 = 3;

/// The transfer that is under way.
#[derive(Debug, Clone, Copy, PartialEq, Eq, Structural)]
pub enum Phase {
    /// Opening the device, selecting its configuration, claiming its
    /// interface and selecting the alternate setting.
    Opened,
    /// The control transfer that probes the device.
    ControlHandshake,
    /// Reading the pairing request.
    PairingWait,
    /// Writing the association response.
    PairingConfirm,
    /// Reading the configuration report.
    ConfigWait,
    /// Writing the confirmation of the configuration report.
    ConfigConfirm,
    /// Writing the request for the device's top-level attributes.
    MdsRequest,
    /// Reading the answer to that request.
    MdsWait,
    /// Writing the request for the segment information.
    ActionRequest,
    /// Reading the answer to that request.
    ActionWait,
    /// Writing the request to transfer the segment.
    SegmentRequest,
    /// Reading the header of the segment stream.
    SegmentHeaderWait,
    /// Reading a data segment.
    SegmentDataWait,
    /// Writing the acknowledgement of a data segment.
    SegmentAck,
    /// Writing the request to release the association.
    Release,
    /// Reading the confirmation of the release.
    ReleaseWait,
    /// The session is over.
    Closed,
}

/// A transfer that the caller is to make for the session, and to give up
/// after `timeout_secs` seconds.
#[derive(Debug)]
pub enum Action {
    /// Open the device; detach a kernel driver from the interface where one
    /// is active and the platform can detach it; select the configuration;
    /// claim the interface; select the alternate setting.
    Open { config_value: u8, interface_number: u8, alternate_setting: u8 },
    /// Make a control transfer that reads up to `length` bytes.
    ControlRead { request_type: u8, request: u8, value: u16, index: u16, length: usize },
    /// Read up to `length` bytes from a bulk endpoint.
    BulkRead { endpoint: u8, length: usize },
    /// Write `data` to a bulk endpoint.
    BulkWrite { endpoint: u8, data: Vec<u8> },
}

/// An `Action` with its data as a sequence of bytes.
pub enum ActionView {
    Open { config_value: u8, interface_number: u8, alternate_setting: u8 },
    ControlRead { request_type: u8, request: u8, value: u16, index: u16, length: usize },
    BulkRead { endpoint: u8, length: usize },
    BulkWrite { endpoint: u8, data: Seq<u8> },
}

impl View for Action {
    type V = ActionView;

    open spec fn view(&self) -> ActionView {
        match *self {
            Action::Open { config_value, interface_number, alternate_setting } => ActionView::Open {
                config_value,
                interface_number,
                alternate_setting,
            },
            Action::ControlRead {
                request_type,
                request,
                value,
                index,
                length,
            } => ActionView::ControlRead { request_type, request, value, index, length },
            Action::BulkRead { endpoint, length } => ActionView::BulkRead { endpoint, length },
            Action::BulkWrite { endpoint, data } => ActionView::BulkWrite { endpoint, data: data@ },
        }
    }
}

impl Action {
    /// Seconds after which the transfer is to be given up: the same for
    /// every transfer of a session.
    pub fn timeout_secs(&self) -> (secs: u64)
        ensures
            secs == 5,
    {
        TRANSFER_TIMEOUT_SECS
    }
}

/// How the transfer that the session asked for ended.
#[derive(Debug)]
pub enum Event {
    /// The device is open and set up.
    Opened,
    /// A read ended with these bytes.
    Received(Vec<u8>),
    /// A write ended after this many bytes.
    Sent(usize),
    /// The transfer failed, or was given up after the timeout.
    Failed(UsbError),
}

/// An `Event` with its data as a sequence of bytes.
pub enum EventView {
    Opened,
    Received(Seq<u8>),
    Sent(usize),
    Failed(UsbError),
}

impl View for Event {
    type V = EventView;

    open spec fn view(&self) -> EventView {
        match *self {
            Event::Opened => EventView::Opened,
            Event::Received(bytes) => EventView::Received(bytes@),
            Event::Sent(n) => EventView::Sent(n),
            Event::Failed(e) => EventView::Failed(e),
        }
    }
}

/// What a step of the session comes to.
#[derive(Debug)]
pub enum Step {
    /// The session goes on with this transfer.
    Continue(Action),
    /// The session ended well, with these readings.
    Finished(Vec<GlucoseReading>),
    /// The session failed.
    Failed(AccuChekError),
}

/// A `Step` seen through the views of what it holds.
pub enum StepView {
    Continue(ActionView),
    Finished(Seq<ReadingView>),
    Failed(ErrorView),
}

impl View for Step {
    type V = StepView;

    open spec fn view(&self) -> StepView {
        match *self {
            Step::Continue(action) => StepView::Continue(action@),
            Step::Finished(readings) => StepView::Finished(reading_views(readings@)),
            Step::Failed(e) => StepView::Failed(e@),
        }
    }
}

/// The state of one download session.
#[derive(Debug)]
pub struct Session {
    /// The transfer that is under way.
    pub phase: Phase,
    /// The invoke-id that the meter sent last.
    pub invoke_id: u16,
    /// One more than the number of transfers that have ended well; for
    /// diagnostics. It stops at the largest `u32`.
    pub phase_index: u32,
    /// Handle of the meter's measurement store, once the configuration report
    /// has been read.
    pub pm_store_handle: u16,
    /// The number of segments that the measurement store reports.
    pub segment_count: u16,
    /// The data segment read last was marked as the last one.
    pub last_segment: bool,
    /// Address of the bulk endpoint from host to device.
    pub send_endpoint: u8,
    /// Address of the bulk endpoint from device to host.
    pub receive_endpoint: u8,
    /// The readings gathered so far.
    pub readings: Vec<GlucoseReading>,
    /// The id of the next reading.
    pub reading_id: usize,
}

/// A `Session` with its readings seen through their views.
pub struct SessionView {
    pub phase: Phase,
    pub invoke_id: u16,
    pub phase_index: u32,
    pub pm_store_handle: u16,
    pub segment_count: u16,
    pub last_segment: bool,
    pub send_endpoint: u8,
    pub receive_endpoint: u8,
    pub readings: Seq<ReadingView>,
    pub reading_id: usize,
}

impl View for Session {
    type V = SessionView;

    open spec fn view(&self) -> SessionView {
        SessionView {
            phase: self.phase,
            invoke_id: self.invoke_id,
            phase_index: self.phase_index,
            pm_store_handle: self.pm_store_handle,
            segment_count: self.segment_count,
            last_segment: self.last_segment,
            send_endpoint: self.send_endpoint,
            receive_endpoint: self.receive_endpoint,
            readings: reading_views(self.readings@),
            reading_id: self.reading_id,
        }
    }
}

/// One of the steps that set a device up for the exchange, once it is open.
#[derive(Debug, Clone, Copy, PartialEq, Eq, Structural)]
pub enum SetupStep {
    /// Detach the kernel driver from the interface.
    DetachKernelDriver { interface_number: u8 },
    /// Select the configuration.
    SetConfiguration { config_value: u8 },
    /// Claim the interface.
    ClaimInterface { interface_number: u8 },
    /// Select the alternate setting of the interface.
    SetAlternateSetting { interface_number: u8, alternate_setting: u8 },
}

/// The steps that set a device up, in their order. The kernel driver is
/// detached first, where the platform can detach one and one is active on the
/// interface; elsewhere that step is left out.
pub open spec fn setup_steps_of(
    config_value: u8,
    interface_number: u8,
    alternate_setting: u8,
    can_detach: bool,
    driver_active: bool,
) -> Seq<SetupStep> {
    let rest = seq![
        SetupStep::SetConfiguration { config_value },
        SetupStep::ClaimInterface { interface_number },
        SetupStep::SetAlternateSetting { interface_number, alternate_setting },
    ];
    if can_detach && driver_active {
        seq![SetupStep::DetachKernelDriver { interface_number }] + rest
    } else {
        rest
    }
}

/// Lists the steps that set the device up once it is open. `can_detach`
/// says whether the platform can detach a kernel driver, `driver_active`
/// whether one is active on the interface.
pub fn setup_steps(device: &AccuChekDevice, can_detach: bool, driver_active: bool) -> (steps: Vec<
    SetupStep,
>)
    ensures
        steps@ == setup_steps_of(
            device.config_value,
            device.interface_number,
            device.alternate_setting,
            can_detach,
            driver_active,
        ),
{
    let mut steps: Vec<SetupStep> = Vec::new();
    if can_detach && driver_active {
        steps.push(SetupStep::DetachKernelDriver { interface_number: device.interface_number });
    }
    steps.push(SetupStep::SetConfiguration { config_value: device.config_value });
    steps.push(SetupStep::ClaimInterface { interface_number: device.interface_number });
    steps.push(
        SetupStep::SetAlternateSetting {
            interface_number: device.interface_number,
            alternate_setting: device.alternate_setting,
        },
    );
    assert(steps@ =~= setup_steps_of(
        device.config_value,
        device.interface_number,
        device.alternate_setting,
        can_detach,
        driver_active,
    ));
    steps
}

/// What the session learns from a configuration report.
#[derive(Debug, Clone, Copy, PartialEq, Eq, Structural)]
pub struct ConfigReport {
    pub invoke_id: u16,
    pub pm_store_handle: u16,
    pub segment_count: u16,
}

/// What the session learns from a data segment besides its readings.
#[derive(Debug, Clone, Copy, PartialEq, Eq, Structural)]
pub struct SegmentHeader {
    pub invoke_id: u16,
    /// The three fields that the acknowledgement hands back.
    pub first: u32,
    pub second: u32,
    pub third: u16,
    /// The segment is marked as the last one.
    pub last: bool,
}

/// The text of the failure for an event that does not belong to the transfer
/// under way.
pub open spec fn unexpected_event_text() -> Seq<char> {
    "Unexpected transport event"@
}

/// The text of the failure for a write that ended short.
pub open spec fn short_write_text(name: Seq<char>, written: usize, len: nat) -> Seq<char> {
    "Failed to send message "@ + name + ": wrote "@ + decimal(written as nat) + " of "@ + decimal(
        len,
    ) + " bytes"@
}

/// The text of the failure for a data-response code that is neither zero nor
/// the code for an empty store.
pub open spec fn data_error_text(code: u16) -> Seq<char> {
    "Data error code: "@ + decimal(code as nat)
}

/// The invoke-id that follows `id`; after the largest comes zero.
pub open spec fn next_invoke_id(id: u16) -> u16 {
    if id == 0xFFFF {
        0
    } else {
        (id + 1) as u16
    }
}

/// The phase index after one more transfer.
pub open spec fn next_phase_index(index: u32) -> u32 {
    if index == u32::MAX {
        index
    } else {
        (index + 1) as u32
    }
}

/// The name of the message that is written in a phase.
pub open spec fn message_name(phase: Phase) -> Seq<char> {
    match phase {
        Phase::PairingConfirm => "pairing confirmation"@,
        Phase::ConfigConfirm => "config received confirmation"@,
        Phase::MdsRequest => "MDS attribute request"@,
        Phase::ActionRequest => "action request"@,
        Phase::SegmentRequest => "request segments"@,
        Phase::SegmentAck => "data segment received ACK"@,
        Phase::Release => "release request"@,
        _ => ""@,
    }
}

/// The length of the message that is written in a phase.
pub open spec fn message_len(phase: Phase) -> nat {
    match phase {
        Phase::PairingConfirm => 48,
        Phase::ConfigConfirm => 26,
        Phase::MdsRequest => 18,
        Phase::ActionRequest => 24,
        Phase::SegmentRequest => 20,
        Phase::SegmentAck => 34,
        Phase::Release => 6,
        _ => 0,
    }
}

/// The phase is one in which a message is written.
pub open spec fn writes(phase: Phase) -> bool {
    phase is PairingConfirm || phase is ConfigConfirm || phase is MdsRequest
        || phase is ActionRequest || phase is SegmentRequest || phase is SegmentAck
        || phase is Release
}

/// The phase is one in which a response is read.
pub open spec fn reads(phase: Phase) -> bool {
    phase is ControlHandshake || phase is PairingWait || phase is ConfigWait || phase is MdsWait
        || phase is ActionWait || phase is SegmentHeaderWait || phase is SegmentDataWait
        || phase is ReleaseWait
}

/// What a configuration report yields: the invoke-id at offset 6, the handle
/// of the first object of the measurement-store class, and the value of that
/// object's segment-count attribute.
pub open spec fn config_report_of(bytes: Seq<u8>) -> Result<ConfigReport, ErrorView> {
    if bytes.len() < 8 {
        Err(ErrorView::Protocol(truncated_text()))
    } else {
        match find_object(bytes, 61) {
            Lookup::Missing => Err(ErrorView::Protocol(object_not_found_text())),
            Lookup::Truncated => Err(ErrorView::Protocol(truncated_text())),
            Lookup::Found(k) => {
                let at = object_offset(bytes, k);
                let rest = bytes.skip(at + 8);
                match find_attribute(rest, be16_at(bytes, at + 4) as u16, 2385) {
                    Lookup::Missing => Err(ErrorView::Protocol(attribute_not_found_text())),
                    Lookup::Truncated => Err(ErrorView::Protocol(truncated_text())),
                    Lookup::Found(j) => {
                        let value_at = attribute_offset(rest, j) + 4;
                        if rest.len() < value_at + 2 {
                            Err(ErrorView::Protocol(truncated_text()))
                        } else {
                            Ok(
                                ConfigReport {
                                    invoke_id: be16_at(bytes, 6) as u16,
                                    pm_store_handle: be16_at(bytes, at + 2) as u16,
                                    segment_count: be16_at(rest, value_at) as u16,
                                },
                            )
                        }
                    },
                }
            },
        }
    }
}

/// The invoke-id of a response, at offset 6.
pub open spec fn invoke_id_of(bytes: Seq<u8>) -> Result<u16, ErrorView> {
    if bytes.len() < 8 {
        Err(ErrorView::Protocol(truncated_text()))
    } else {
        Ok(be16_at(bytes, 6) as u16)
    }
}

/// The invoke-id of the answer to the request for the device's attributes; an
/// answer whose first field is the association-abort code is a failure of its
/// own, however short the answer is.
pub open spec fn mds_answer_of(bytes: Seq<u8>) -> Result<u16, ErrorView> {
    if bytes.len() < 2 {
        Err(ErrorView::Protocol(truncated_text()))
    } else if be16_at(bytes, 0) == 0xE600 {
        Err(ErrorView::AssociationAborted)
    } else {
        invoke_id_of(bytes)
    }
}

/// The judgement of the header of the segment stream. A header of 22 bytes or
/// more with a data-response code other than zero at offset 20 is a failure:
/// code 3 says that the store is empty, any other code is an error. A header of
/// 16 bytes or more must name the transfer request at offset 14.
pub open spec fn segment_header_failure(bytes: Seq<u8>) -> Option<ErrorView> {
    if bytes.len() >= 22 && be16_at(bytes, 20) != 0 {
        if be16_at(bytes, 20) == 3 {
            Some(ErrorView::EmptyDataSegment)
        } else {
            Some(ErrorView::Protocol(data_error_text(be16_at(bytes, 20) as u16)))
        }
    } else if bytes.len() >= 16 && be16_at(bytes, 14) != 0x0C1C {
        Some(ErrorView::UnexpectedResponse)
    } else {
        None
    }
}

/// What a data segment says besides its readings: the invoke-id at offset 6,
/// the fields at offsets 22, 26 and 30, and bit 0x40 of the status byte at
/// offset 32.
pub open spec fn segment_header_of(bytes: Seq<u8>) -> Result<SegmentHeader, ErrorView> {
    if bytes.len() < 33 {
        Err(ErrorView::Protocol(truncated_text()))
    } else {
        Ok(
            SegmentHeader {
                invoke_id: be16_at(bytes, 6) as u16,
                first: be32_at(bytes, 22) as u32,
                second: be32_at(bytes, 26) as u32,
                third: be16_at(bytes, 30) as u16,
                last: bytes[32] as int / 64 % 2 == 1,
            },
        )
    }
}

impl SessionView {
    /// The session closed after a failure: its readings are discarded.
    pub open spec fn failed(self) -> SessionView {
        SessionView { phase: Phase::Closed, readings: Seq::empty(), ..self }
    }

    /// The session after one more transfer, in the given phase.
    pub open spec fn moved_to(self, phase: Phase) -> SessionView {
        SessionView { phase, phase_index: next_phase_index(self.phase_index), ..self }
    }

    /// A read of a response of the usual size.
    pub open spec fn read_action(self) -> ActionView {
        ActionView::BulkRead { endpoint: self.receive_endpoint, length: 1024 }
    }

    /// A write of `data`.
    pub open spec fn write_action(self, data: Seq<u8>) -> ActionView {
        ActionView::BulkWrite { endpoint: self.send_endpoint, data }
    }

    /// What follows when the device has been opened.
    pub open spec fn after_open(self) -> (SessionView, StepView) {
        (
            SessionView { phase: Phase::ControlHandshake, ..self },
            StepView::Continue(
                ActionView::ControlRead {
                    request_type: request_type_byte(
                        Direction::In,
                        RequestType::Standard,
                        Recipient::Device,
                    ) as u8,
                    request: 0,
                    value: 0,
                    index: 0,
                    length: 2,
                },
            ),
        )
    }

    /// What follows when the write of the current phase ended after `written`
    /// bytes: a failure unless the whole message was written, else the next
    /// transfer.
    pub open spec fn after_write(self, written: usize) -> (SessionView, StepView) {
        if written != message_len(self.phase) {
            (
                self.failed(),
                StepView::Failed(
                    ErrorView::Communication(
                        short_write_text(
                            message_name(self.phase),
                            written,
                            message_len(self.phase),
                        ),
                    ),
                ),
            )
        } else {
            match self.phase {
                Phase::PairingConfirm => (
                    self.moved_to(Phase::ConfigWait),
                    StepView::Continue(self.read_action()),
                ),
                Phase::ConfigConfirm => (
                    self.moved_to(Phase::MdsRequest),
                    StepView::Continue(
                        self.write_action(mds_request_bytes(next_invoke_id(self.invoke_id))),
                    ),
                ),
                Phase::MdsRequest => (
                    self.moved_to(Phase::MdsWait),
                    StepView::Continue(self.read_action()),
                ),
                Phase::ActionRequest => (
                    self.moved_to(Phase::ActionWait),
                    StepView::Continue(self.read_action()),
                ),
                Phase::SegmentRequest => (
                    self.moved_to(Phase::SegmentHeaderWait),
                    StepView::Continue(self.read_action()),
                ),
                Phase::SegmentAck => if self.last_segment {
                    (
                        self.moved_to(Phase::Release),
                        StepView::Continue(self.write_action(release_request_bytes())),
                    )
                } else {
                    (
                        self.moved_to(Phase::SegmentDataWait),
                        StepView::Continue(self.read_action()),
                    )
                },
                _ => (self.moved_to(Phase::ReleaseWait), StepView::Continue(self.read_action())),
            }
        }
    }

    /// What follows when the configuration report has been read.
    pub open spec fn after_config(self, bytes: Seq<u8>) -> (SessionView, StepView) {
        match config_report_of(bytes) {
            Err(e) => (self.failed(), StepView::Failed(e)),
            Ok(report) => (
                SessionView {
                    invoke_id: report.invoke_id,
                    pm_store_handle: report.pm_store_handle,
                    segment_count: report.segment_count,
                    ..self.moved_to(Phase::ConfigConfirm)
                },
                StepView::Continue(
                    self.write_action(config_confirmation_bytes(report.invoke_id)),
                ),
            ),
        }
    }

    /// What follows when the answer to the request for the device's
    /// attributes has been read.
    pub open spec fn after_mds_answer(self, bytes: Seq<u8>) -> (SessionView, StepView) {
        match mds_answer_of(bytes) {
            Err(e) => (self.failed(), StepView::Failed(e)),
            Ok(id) => (
                SessionView { invoke_id: id, ..self.moved_to(Phase::ActionRequest) },
                StepView::Continue(
                    self.write_action(
                        action_request_bytes(next_invoke_id(id), self.pm_store_handle),
                    ),
                ),
            ),
        }
    }

    /// What follows when the answer to the request for the segment
    /// information has been read.
    pub open spec fn after_action_answer(self, bytes: Seq<u8>) -> (SessionView, StepView) {
        match invoke_id_of(bytes) {
            Err(e) => (self.failed(), StepView::Failed(e)),
            Ok(id) => (
                SessionView { invoke_id: id, ..self.moved_to(Phase::SegmentRequest) },
                StepView::Continue(
                    self.write_action(
                        segment_request_bytes(next_invoke_id(id), self.pm_store_handle),
                    ),
                ),
            ),
        }
    }

    /// What follows when the header of the segment stream has been read.
    pub open spec fn after_segment_header(self, bytes: Seq<u8>) -> (SessionView, StepView) {
        match segment_header_failure(bytes) {
            Some(e) => (self.failed(), StepView::Failed(e)),
            None => (
                self.moved_to(Phase::SegmentDataWait),
                StepView::Continue(self.read_action()),
            ),
        }
    }

    /// What follows when a data segment has been read: its readings are
    /// added to those of the session, and the segment is acknowledged.
    pub open spec fn after_segment_data(self, bytes: Seq<u8>) -> (SessionView, StepView) {
        match segment_header_of(bytes) {
            Err(e) => (self.failed(), StepView::Failed(e)),
            Ok(header) => if !segment_fits(bytes) {
                (self.failed(), StepView::Failed(ErrorView::Protocol(truncated_text())))
            } else if !counter_fits(bytes, self.reading_id) {
                (self.failed(), StepView::Failed(ErrorView::Protocol(counter_exhausted_text())))
            } else {
                let found = segment_readings(bytes, self.reading_id);
                (
                    SessionView {
                        invoke_id: header.invoke_id,
                        last_segment: header.last,
                        readings: self.readings + found,
                        reading_id: (self.reading_id + found.len()) as usize,
                        ..self.moved_to(Phase::SegmentAck)
                    },
                    StepView::Continue(
                        self.write_action(
                            segment_ack_bytes(
                                header.invoke_id,
                                self.pm_store_handle,
                                header.first,
                                header.second,
                                header.third,
                            ),
                        ),
                    ),
                )
            },
        }
    }

    /// What follows when the read of the current phase ended with `bytes`.
    pub open spec fn after_read(self, bytes: Seq<u8>) -> (SessionView, StepView) {
        match self.phase {
            Phase::ControlHandshake => (
                self.moved_to(Phase::PairingWait),
                StepView::Continue(
                    ActionView::BulkRead { endpoint: self.receive_endpoint, length: 64 },
                ),
            ),
            Phase::PairingWait => (
                self.moved_to(Phase::PairingConfirm),
                StepView::Continue(self.write_action(association_response_bytes())),
            ),
            Phase::ConfigWait => self.after_config(bytes),
            Phase::MdsWait => self.after_mds_answer(bytes),
            Phase::ActionWait => self.after_action_answer(bytes),
            Phase::SegmentHeaderWait => self.after_segment_header(bytes),
            Phase::SegmentDataWait => self.after_segment_data(bytes),
            _ => (
                SessionView { readings: Seq::empty(), ..self.moved_to(Phase::Closed) },
                StepView::Finished(self.readings),
            ),
        }
    }

    /// The state that follows on an event, and what the step comes to. A
    /// failed transfer closes the session with the transport's failure; an event
    /// that does not belong to the transfer under way closes it too.
    pub open spec fn transition(self, event: EventView) -> (SessionView, StepView) {
        match event {
            EventView::Failed(e) => (self.failed(), StepView::Failed(ErrorView::Usb(e))),
            EventView::Opened if self.phase is Opened => self.after_open(),
            EventView::Sent(written) if writes(self.phase) => self.after_write(written),
            EventView::Received(bytes) if reads(self.phase) => self.after_read(bytes),
            _ => (
                self.failed(),
                StepView::Failed(ErrorView::Communication(unexpected_event_text())),
            ),
        }
    }
}

/// Reads from a configuration report what the session needs of it.
pub fn read_config(buffer: &[u8]) -> (result: Result<ConfigReport, AccuChekError>)
    ensures
        match config_report_of(buffer@) {
            Ok(report) => result == Ok::<ConfigReport, AccuChekError>(report),
            Err(e) => fails_with(result, e),
        },
{
    if buffer.len() < INVOKE_ID_OFFSET + 2 {
        return Err(protocol_error("Response shorter than its layout requires"));
    }
    let invoke_id = read_be16(buffer, INVOKE_ID_OFFSET);
    let (store, attribute_count, pm_store_handle) = match get_obj(buffer, MDC_MOC_VMO_PMSTORE) {
        Ok(found) => found,
        Err(e) => {
            return Err(e);
        },
    };
    let (value, _size) = match get_attr(store, attribute_count, MDC_ATTR_NUM_SEG) {
        Ok(found) => found,
        Err(e) => {
            return Err(e);
        },
    };
    proof {
        let k = find_object(buffer@, 61)->Found_0;
        let at = object_offset(buffer@, k);
        assert(store@ == buffer@.skip(at + 8));
        assert(attribute_count == be16_at(buffer@, at + 4) as u16);
        let j = find_attribute(store@, attribute_count, 2385)->Found_0;
        let value_at = attribute_offset(store@, j) + 4;
        assert(value@ == store@.skip(value_at));
        assert(value@.len() == store@.len() - value_at);
        if value@.len() >= 2 {
            assert(value@[0] == store@[value_at]);
            assert(value@[1] == store@[value_at + 1]);
        }
    }
    if value.len() < 2 {
        return Err(protocol_error("Response shorter than its layout requires"));
    }
    let segment_count = read_be16(value, 0);
    Ok(ConfigReport { invoke_id, pm_store_handle, segment_count })
}

/// Reads the invoke-id of a response.
pub fn read_invoke_id(buffer: &[u8]) -> (result: Result<u16, AccuChekError>)
    ensures
        match invoke_id_of(buffer@) {
            Ok(id) => result == Ok::<u16, AccuChekError>(id),
            Err(e) => fails_with(result, e),
        },
{
    if buffer.len() < INVOKE_ID_OFFSET + 2 {
        return Err(protocol_error("Response shorter than its layout requires"));
    }
    Ok(read_be16(buffer, INVOKE_ID_OFFSET))
}

/// Reads the invoke-id of the answer to the request for the device's
/// attributes, unless the answer is an association abort.
pub fn read_mds_answer(buffer: &[u8]) -> (result: Result<u16, AccuChekError>)
    ensures
        match mds_answer_of(buffer@) {
            Ok(id) => result == Ok::<u16, AccuChekError>(id),
            Err(e) => fails_with(result, e),
        },
{
    if buffer.len() < 2 {
        return Err(protocol_error("Response shorter than its layout requires"));
    }
    if read_be16(buffer, 0) == APDU_TYPE_ASSOCIATION_ABORT {
        return Err(AccuChekError::AssociationAborted);
    }
    read_invoke_id(buffer)
}

/// Judges the header of the segment stream.
pub fn check_segment_header(buffer: &[u8]) -> (result: Result<(), AccuChekError>)
    ensures
        match segment_header_failure(buffer@) {
            Some(e) => fails_with(result, e),
            None => result is Ok,
        },
{
    if buffer.len() >= 22 {
        let data_response = read_be16(buffer, 20);
        if data_response != 0 {
            if data_response == DATA_RESPONSE_EMPTY {
                return Err(AccuChekError::EmptyDataSegment);
            }
            let mut text = String::new();
            push_text(&mut text, "Data error code: ");
            push_decimal(&mut text, data_response as u64);
            return Err(AccuChekError::Protocol(text));
        }
    }
    if buffer.len() >= 16 {
        let header_value = read_be16(buffer, 14);
        if header_value != ACTION_TYPE_MDC_ACT_SEG_TRIG_XFER {
            return Err(AccuChekError::UnexpectedResponse);
        }
    }
    Ok(())
}

/// Reads from a data segment what its acknowledgement hands back, and
/// whether it is the last one.
pub fn read_segment_header(buffer: &[u8]) -> (result: Result<SegmentHeader, AccuChekError>)
    ensures
        match segment_header_of(buffer@) {
            Ok(header) => result == Ok::<SegmentHeader, AccuChekError>(header),
            Err(e) => fails_with(result, e),
        },
{
    if buffer.len() < 33 {
        return Err(protocol_error("Response shorter than its layout requires"));
    }
    let status: u8 = buffer[32];
    Ok(
        SegmentHeader {
            invoke_id: read_be16(buffer, INVOKE_ID_OFFSET),
            first: read_be32(buffer, 22),
            second: read_be32(buffer, 26),
            third: read_be16(buffer, 30),
            last: status / 64 % 2 == 1,
        },
    )
}

/// The failure for a write that ended short.
fn short_write(name: &str, written: usize, len: usize) -> (e: AccuChekError)
    ensures
        e@ == ErrorView::Communication(short_write_text(name@, written, len as nat)),
{
    let mut text = String::new();
    push_text(&mut text, "Failed to send message ");
    push_text(&mut text, name);
    push_text(&mut text, ": wrote ");
    push_decimal(&mut text, written as u64);
    push_text(&mut text, " of ");
    push_decimal(&mut text, len as u64);
    push_text(&mut text, " bytes");
    AccuChekError::Communication(text)
}

fn bump_invoke_id(id: u16) -> (next: u16)
    ensures
        next == next_invoke_id(id),
{
    if id == 0xFFFF {
        0
    } else {
        id + 1
    }
}

impl Session {
    /// A session with the given device, and the transfer that opens it.
    pub fn start(device: &AccuChekDevice) -> (started: (Session, Action))
        ensures
            started.0@ == (SessionView {
                phase: Phase::Opened,
                invoke_id: 0,
                phase_index: 1,
                pm_store_handle: 0,
                segment_count: 0,
                last_segment: false,
                send_endpoint: device.send_endpoint,
                receive_endpoint: device.receive_endpoint,
                readings: Seq::empty(),
                reading_id: 0,
            }),
            started.1@ == (ActionView::Open {
                config_value: device.config_value,
                interface_number: device.interface_number,
                alternate_setting: device.alternate_setting,
            }),
    {
        let session = Session {
            phase: Phase::Opened,
            invoke_id: 0,
            phase_index: 1,
            pm_store_handle: 0,
            segment_count: 0,
            last_segment: false,
            send_endpoint: device.send_endpoint,
            receive_endpoint: device.receive_endpoint,
            readings: Vec::new(),
            reading_id: 0,
        };
        assert(session@.readings =~= Seq::empty());
        (
            session,
            Action::Open {
                config_value: device.config_value,
                interface_number: device.interface_number,
                alternate_setting: device.alternate_setting,
            },
        )
    }

    /// Closes the session after a failure and discards its readings.
    fn fail(&mut self, e: AccuChekError) -> (step: Step)
        ensures
            final(self)@ == old(self)@.failed(),
            step@ == StepView::Failed(e@),
    {
        self.phase = Phase::Closed;
        self.readings = Vec::new();
        assert(self@.readings =~= Seq::empty());
        Step::Failed(e)
    }

    /// Enters `phase` after one more transfer.
    fn move_to(&mut self, phase: Phase)
        ensures
            final(self)@ == old(self)@.moved_to(phase),
    {
        self.phase = phase;
        if self.phase_index < u32::MAX {
            self.phase_index = self.phase_index + 1;
        }
    }

    fn read(&self) -> (action: Action)
        ensures
            action@ == self@.read_action(),
    {
        Action::BulkRead { endpoint: self.receive_endpoint, length: RESPONSE_READ_LEN }
    }

    fn write(&self, data: Vec<u8>) -> (action: Action)
        ensures
            action@ == self@.write_action(data@),
    {
        Action::BulkWrite { endpoint: self.send_endpoint, data }
    }

    /// The name and the length of the message that is written in the current
    /// phase.
    fn pending_message(&self) -> (pending: (&'static str, usize))
        ensures
            pending.0@ == message_name(self.phase),
            pending.1 == message_len(self.phase),
    {
        match self.phase {
            Phase::PairingConfirm => ("pairing confirmation", 48),
            Phase::ConfigConfirm => ("config received confirmation", 26),
            Phase::MdsRequest => ("MDS attribute request", 18),
            Phase::ActionRequest => ("action request", 24),
            Phase::SegmentRequest => ("request segments", 20),
            Phase::SegmentAck => ("data segment received ACK", 34),
            Phase::Release => ("release request", 6),
            _ => ("", 0),
        }
    }

    fn on_open(&mut self) -> (step: Step)
        requires
            old(self).phase is Opened,
        ensures
            (final(self)@, step@) == old(self)@.after_open(),
    {
        self.phase = Phase::ControlHandshake;
        Step::Continue(
            Action::ControlRead {
                request_type: request_type(Direction::In, RequestType::Standard, Recipient::Device),
                request: REQUEST_GET_STATUS,
                value: 0,
                index: 0,
                length: CONTROL_READ_LEN,
            },
        )
    }

    fn on_write(&mut self, written: usize) -> (step: Step)
        requires
            writes(old(self).phase),
        ensures
            (final(self)@, step@) == old(self)@.after_write(written),
    {
        let (name, len) = self.pending_message();
        if written != len {
            return self.fail(short_write(name, written, len));
        }
        match self.phase {
            Phase::PairingConfirm => {
                self.move_to(Phase::ConfigWait);
                Step::Continue(self.read())
            },
            Phase::ConfigConfirm => {
                self.move_to(Phase::MdsRequest);
                Step::Continue(self.write(mds_request(bump_invoke_id(self.invoke_id))))
            },
            Phase::MdsRequest => {
                self.move_to(Phase::MdsWait);
                Step::Continue(self.read())
            },
            Phase::ActionRequest => {
                self.move_to(Phase::ActionWait);
                Step::Continue(self.read())
            },
            Phase::SegmentRequest => {
                self.move_to(Phase::SegmentHeaderWait);
                Step::Continue(self.read())
            },
            Phase::SegmentAck => {
                if self.last_segment {
                    self.move_to(Phase::Release);
                    Step::Continue(self.write(release_request()))
                } else {
                    self.move_to(Phase::SegmentDataWait);
                    Step::Continue(self.read())
                }
            },
            _ => {
                self.move_to(Phase::ReleaseWait);
                Step::Continue(self.read())
            },
        }
    }

    fn on_config(&mut self, buffer: &[u8]) -> (step: Step)
        ensures
            (final(self)@, step@) == old(self)@.after_config(buffer@),
    {
        match read_config(buffer) {
            Err(e) => self.fail(e),
            Ok(report) => {
                self.move_to(Phase::ConfigConfirm);
                self.invoke_id = report.invoke_id;
                self.pm_store_handle = report.pm_store_handle;
                self.segment_count = report.segment_count;
                Step::Continue(self.write(config_confirmation(report.invoke_id)))
            },
        }
    }

    fn on_mds_answer(&mut self, buffer: &[u8]) -> (step: Step)
        ensures
            (final(self)@, step@) == old(self)@.after_mds_answer(buffer@),
    {
        match read_mds_answer(buffer) {
            Err(e) => self.fail(e),
            Ok(id) => {
                self.move_to(Phase::ActionRequest);
                self.invoke_id = id;
                Step::Continue(
                    self.write(action_request(bump_invoke_id(id), self.pm_store_handle)),
                )
            },
        }
    }

    fn on_action_answer(&mut self, buffer: &[u8]) -> (step: Step)
        ensures
            (final(self)@, step@) == old(self)@.after_action_answer(buffer@),
    {
        match read_invoke_id(buffer) {
            Err(e) => self.fail(e),
            Ok(id) => {
                self.move_to(Phase::SegmentRequest);
                self.invoke_id = id;
                Step::Continue(
                    self.write(segment_request(bump_invoke_id(id), self.pm_store_handle)),
                )
            },
        }
    }

    fn on_segment_header(&mut self, buffer: &[u8]) -> (step: Step)
        ensures
            (final(self)@, step@) == old(self)@.after_segment_header(buffer@),
    {
        match check_segment_header(buffer) {
            Err(e) => self.fail(e),
            Ok(()) => {
                self.move_to(Phase::SegmentDataWait);
                Step::Continue(self.read())
            },
        }
    }

    fn on_segment_data(&mut self, buffer: &[u8]) -> (step: Step)
        ensures
            (final(self)@, step@) == old(self)@.after_segment_data(buffer@),
    {
        let header = match read_segment_header(buffer) {
            Ok(header) => header,
            Err(e) => {
                return self.fail(e);
            },
        };
        match parse_data(buffer, &mut self.readings, &mut self.reading_id) {
            Err(e) => self.fail(e),
            Ok(()) => {
                self.move_to(Phase::SegmentAck);
                self.invoke_id = header.invoke_id;
                self.last_segment = header.last;
                Step::Continue(
                    self.write(
                        segment_ack(
                            header.invoke_id,
                            self.pm_store_handle,
                            header.first,
                            header.second,
                            header.third,
                        ),
                    ),
                )
            },
        }
    }

    fn on_read(&mut self, buffer: &[u8]) -> (step: Step)
        requires
            reads(old(self).phase),
        ensures
            (final(self)@, step@) == old(self)@.after_read(buffer@),
    {
        match self.phase {
            Phase::ControlHandshake => {
                self.move_to(Phase::PairingWait);
                Step::Continue(
                    Action::BulkRead { endpoint: self.receive_endpoint, length: PAIRING_READ_LEN },
                )
            },
            Phase::PairingWait => {
                self.move_to(Phase::PairingConfirm);
                Step::Continue(self.write(association_response()))
            },
            Phase::ConfigWait => self.on_config(buffer),
            Phase::MdsWait => self.on_mds_answer(buffer),
            Phase::ActionWait => self.on_action_answer(buffer),
            Phase::SegmentHeaderWait => self.on_segment_header(buffer),
            Phase::SegmentDataWait => self.on_segment_data(buffer),
            _ => {
                self.move_to(Phase::Closed);
                let mut readings: Vec<GlucoseReading> = Vec::new();
                core::mem::swap(&mut self.readings, &mut readings);
                assert(self@.readings =~= Seq::empty());
                Step::Finished(readings)
            },
        }
    }

    /// Takes the outcome of the transfer that the session asked for last and
    /// decides what follows: the next transfer, the end of the session with its
    /// readings, or its failure.
    pub fn step(&mut self, event: Event) -> (step: Step)
        ensures
            (final(self)@, step@) == old(self)@.transition(event@),
    {
        match event {
            Event::Failed(e) => self.fail(AccuChekError::Usb(e)),
            Event::Opened => {
                if self.phase == Phase::Opened {
                    self.on_open()
                } else {
                    self.fail(AccuChekError::Communication(
                        String::from_str("Unexpected transport event"),
                    ))
                }
            },
            Event::Sent(written) => {
                if self.is_writing() {
                    self.on_write(written)
                } else {
                    self.fail(AccuChekError::Communication(
                        String::from_str("Unexpected transport event"),
                    ))
                }
            },
            Event::Received(bytes) => {
                if self.is_reading() {
                    self.on_read(bytes.as_slice())
                } else {
                    self.fail(AccuChekError::Communication(
                        String::from_str("Unexpected transport event"),
                    ))
                }
            },
        }
    }

    /// The session waits for a write to end.
    pub fn is_writing(&self) -> (writing: bool)
        ensures
            writing == writes(self.phase),
    {
        match self.phase {
            Phase::PairingConfirm
            | Phase::ConfigConfirm
            | Phase::MdsRequest
            | Phase::ActionRequest
            | Phase::SegmentRequest
            | Phase::SegmentAck
            | Phase::Release => true,
            _ => false,
        }
    }

    /// The session waits for a read to end.
    pub fn is_reading(&self) -> (reading: bool)
        ensures
            reading == reads(self.phase),
    {
        match self.phase {
            Phase::ControlHandshake
            | Phase::PairingWait
            | Phase::ConfigWait
            | Phase::MdsWait
            | Phase::ActionWait
            | Phase::SegmentHeaderWait
            | Phase::SegmentDataWait
            | Phase::ReleaseWait => true,
            _ => false,
        }
    }
}

/// The phase that follows `phase` when its transfer ended well. After the
/// acknowledgement of a data segment comes the next data segment, unless the
/// segment was the last one: then the release follows.
pub open spec fn following(phase: Phase, last_segment: bool) -> Phase {
    match phase {
        Phase::Opened => Phase::ControlHandshake,
        Phase::ControlHandshake => Phase::PairingWait,
        Phase::PairingWait => Phase::PairingConfirm,
        Phase::PairingConfirm => Phase::ConfigWait,
        Phase::ConfigWait => Phase::ConfigConfirm,
        Phase::ConfigConfirm => Phase::MdsRequest,
        Phase::MdsRequest => Phase::MdsWait,
        Phase::MdsWait => Phase::ActionRequest,
        Phase::ActionRequest => Phase::ActionWait,
        Phase::ActionWait => Phase::SegmentRequest,
        Phase::SegmentRequest => Phase::SegmentHeaderWait,
        Phase::SegmentHeaderWait => Phase::SegmentDataWait,
        Phase::SegmentDataWait => Phase::SegmentAck,
        Phase::SegmentAck => if last_segment {
            Phase::Release
        } else {
            Phase::SegmentDataWait
        },
        Phase::Release => Phase::ReleaseWait,
        Phase::ReleaseWait => Phase::Closed,
        Phase::Closed => Phase::Closed,
    }
}

/// The phases follow one another in a fixed order. A step that goes on
/// enters the phase that follows the current one, asks for a read exactly in
/// the phases that read and for a write exactly in those that write, and never
/// lowers the phase index.
pub proof fn lemma_phases_in_order(s: SessionView, event: EventView)
    requires
        s.transition(event).1 is Continue,
    ensures
        s.transition(event).0.phase == following(s.phase, s.last_segment),
        s.transition(event).0.phase_index >= s.phase_index,
        s.transition(event).1->Continue_0 is BulkWrite <==> writes(s.transition(event).0.phase),
        (s.transition(event).1->Continue_0 is BulkRead || s.transition(event).1->Continue_0
            is ControlRead) <==> reads(s.transition(event).0.phase),
        s.transition(event).1->Continue_0 matches ActionView::BulkWrite { endpoint, data }
            ==> endpoint == s.send_endpoint && data.len() == message_len(
            s.transition(event).0.phase,
        ),
        s.transition(event).1->Continue_0 matches ActionView::BulkRead { endpoint, length }
            ==> endpoint == s.receive_endpoint,
{
}

/// A failure of any kind closes the session and discards the readings
/// gathered so far; nothing is retried.
pub proof fn lemma_failure_closes(s: SessionView, event: EventView)
    requires
        s.transition(event).1 is Failed,
    ensures
        s.transition(event).0.phase is Closed,
        s.transition(event).0.readings.len() == 0,
{
}

/// A failed transfer fails the session with the transport's failure, in
/// whatever phase it happens.
pub proof fn lemma_transport_failure_is_fatal(s: SessionView, e: UsbError)
    ensures
        s.transition(EventView::Failed(e)) == (s.failed(), StepView::Failed(ErrorView::Usb(e))),
{
}

/// A closed session stays closed: every further event is a failure, and no
/// transfer is asked for.
pub proof fn lemma_closed_stays_closed(s: SessionView, event: EventView)
    requires
        s.phase is Closed,
    ensures
        s.transition(event).0.phase is Closed,
        s.transition(event).1 is Failed,
{
}

/// A write that ended short of the whole message fails the session with a
/// communication failure, in every phase that writes.
pub proof fn lemma_short_write_is_fatal(s: SessionView, written: usize)
    requires
        writes(s.phase),
        written != message_len(s.phase),
    ensures
        s.transition(EventView::Sent(written)) == (
            s.failed(),
            StepView::Failed(
                ErrorView::Communication(
                    short_write_text(message_name(s.phase), written, message_len(s.phase)),
                ),
            ),
        ),
{
}

/// A segment-stream header that carries the data-response code 3 ends the
/// session with the failure that says that the store is empty, and with no
/// readings; any other code but zero is a protocol failure that names the
/// code.
pub proof fn lemma_data_response_code(s: SessionView, bytes: Seq<u8>)
    requires
        s.phase is SegmentHeaderWait,
        bytes.len() >= 22,
        be16_at(bytes, 20) != 0,
    ensures
        s.transition(EventView::Received(bytes)).0 == s.failed(),
        be16_at(bytes, 20) == 3 ==> s.transition(EventView::Received(bytes)).1
            == StepView::Failed(ErrorView::EmptyDataSegment),
        be16_at(bytes, 20) != 3 ==> s.transition(EventView::Received(bytes)).1
            == StepView::Failed(
            ErrorView::Protocol(data_error_text(be16_at(bytes, 20) as u16)),
        ),
{
}

/// Every data segment that is received whole is acknowledged once: the step
/// that takes it asks for the write of its acknowledgement, which hands back the
/// segment's invoke-id and its fields at offsets 22, 26 and 30, and the readings
/// of the segment are added behind those gathered before.
pub proof fn lemma_segment_acknowledged(s: SessionView, bytes: Seq<u8>)
    requires
        s.phase is SegmentDataWait,
        bytes.len() >= 33,
        segment_fits(bytes),
        counter_fits(bytes, s.reading_id),
    ensures
        s.transition(EventView::Received(bytes)).1 == StepView::Continue(
            ActionView::BulkWrite {
                endpoint: s.send_endpoint,
                data: segment_ack_bytes(
                    be16_at(bytes, 6) as u16,
                    s.pm_store_handle,
                    be32_at(bytes, 22) as u32,
                    be32_at(bytes, 26) as u32,
                    be16_at(bytes, 30) as u16,
                ),
            },
        ),
        s.transition(EventView::Received(bytes)).0.phase is SegmentAck,
        s.transition(EventView::Received(bytes)).0.readings == s.readings + segment_readings(
            bytes,
            s.reading_id,
        ),
        s.transition(EventView::Received(bytes)).0.reading_id == s.reading_id + segment_readings(
            bytes,
            s.reading_id,
        ).len(),
        s.transition(EventView::Received(bytes)).0.last_segment == (bytes[32] as int / 64 % 2
            == 1),
{
    lemma_segment_readings_count(bytes, s.reading_id);
}

impl SessionView {
    /// The readings are numbered through: reading `k` has the id `k`, and the
    /// next id is their number.
    pub open spec fn numbered_through(self) -> bool {
        &&& self.reading_id == self.readings.len()
        &&& forall|k: int| 0 <= k < self.readings.len() ==> (#[trigger] self.readings[k]).id == k
    }
}

/// The ids of a download run through all its segments: a session whose
/// readings are numbered through keeps them so at every step that does not
/// close it, whatever the event, and the readings that a session ends with are
/// numbered through too.
pub proof fn lemma_ids_run_through(s: SessionView, event: EventView)
    requires
        s.numbered_through(),
    ensures
        s.transition(event).0.phase is Closed || s.transition(event).0.numbered_through(),
        s.transition(event).1 matches StepView::Finished(readings) ==> forall|k: int|
            0 <= k < readings.len() ==> (#[trigger] readings[k]).id == k,
{
    if s.phase is SegmentDataWait && event is Received {
        let bytes = event->Received_0;
        if segment_header_of(bytes) is Ok && segment_fits(bytes) && counter_fits(
            bytes,
            s.reading_id,
        ) {
            lemma_segment_readings_count(bytes, s.reading_id);
            lemma_segment_ids_consecutive(bytes, s.reading_id);
            let found = segment_readings(bytes, s.reading_id);
            let after = s.transition(event).0;
            assert(after.readings == s.readings + found);
            assert forall|k: int| 0 <= k < after.readings.len() implies (
            #[trigger] after.readings[k]).id == k by {
                if k >= s.readings.len() {
                    assert(after.readings[k] == found[k - s.readings.len()]);
                }
            }
        }
    }
}

/// The state of a session after a run of events, none of which ends it.
#[verifier::opaque]
pub open spec fn run(s: SessionView, events: Seq<EventView>) -> SessionView
    decreases events.len(),
{
    if events.len() == 0 {
        s
    } else {
        run(s, events.drop_last()).transition(events.last()).0
    }
}

/// A run of one event more.
proof fn lemma_run_push(s: SessionView, events: Seq<EventView>, event: EventView)
    ensures
        run(s, events.push(event)) == run(s, events).transition(event).0,
{
    reveal_with_fuel(run, 2);
    assert(events.push(event).drop_last() =~= events);
}

/// A run of no event leaves the session as it is.
proof fn lemma_run_nothing(s: SessionView)
    ensures
        run(s, Seq::empty()) == s,
{
    reveal_with_fuel(run, 2);
}

/// A session that waits for a data segment, receives one that is not marked
/// as the last and writes the whole of its acknowledgement waits for the next
/// data segment, with the readings of the segment added to its own.
proof fn lemma_segment_round(s: SessionView, bytes: Seq<u8>)
    requires
        s.phase is SegmentDataWait,
        bytes.len() >= 33 && segment_fits(bytes) && counter_fits(bytes, s.reading_id),
    ensures
        ({
            let after = s.transition(EventView::Received(bytes)).0.transition(
                EventView::Sent(34),
            ).0;
            &&& after.phase == if bytes[32] as int / 64 % 2 == 1 {
                Phase::Release
            } else {
                Phase::SegmentDataWait
            }
            &&& after.readings == s.readings + segment_readings(bytes, s.reading_id)
            &&& after.reading_id == s.reading_id + segment_readings(bytes, s.reading_id).len()
            &&& after.pm_store_handle == s.pm_store_handle
            &&& segment_readings(bytes, s.reading_id).len() <= declared_entries(bytes)
        }),
{
    lemma_segment_acknowledged(s, bytes);
    lemma_segment_readings_count(bytes, s.reading_id);
}

/// A download of two data segments, the second marked as the last: a
/// session that waits for a data segment and receives the two segments, each
/// followed by the whole write of its acknowledgement, then the whole write of
/// the release request and the release confirmation, ends with the readings it
/// had, then those of the first segment, then those of the second, numbered
/// through.
pub proof fn lemma_two_segment_download(
    s: SessionView,
    first: Seq<u8>,
    second: Seq<u8>,
    confirmation: Seq<u8>,
)
    requires
        s.phase is SegmentDataWait,
        first.len() >= 33 && segment_fits(first) && counter_fits(first, s.reading_id),
        first[32] as int / 64 % 2 == 0,
        second.len() >= 33 && segment_fits(second),
        second[32] as int / 64 % 2 == 1,
        counter_fits(
            second,
            (s.reading_id + segment_readings(first, s.reading_id).len()) as usize,
        ),
    ensures
        ({
            let middle = (s.reading_id + segment_readings(first, s.reading_id).len()) as usize;
            let before_end = run(
                s,
                seq![
                    EventView::Received(first),
                    EventView::Sent(34),
                    EventView::Received(second),
                    EventView::Sent(34),
                    EventView::Sent(6),
                ],
            );
            &&& before_end.phase is ReleaseWait
            &&& before_end.transition(EventView::Received(confirmation)).1 == StepView::Finished(
                s.readings + segment_readings(first, s.reading_id) + segment_readings(
                    second,
                    middle,
                ),
            )
            &&& before_end.transition(EventView::Received(confirmation)).0.phase is Closed
        }),
{
    let e1 = EventView::Received(first);
    let e2 = EventView::Sent(34);
    let e3 = EventView::Received(second);
    let e5 = EventView::Sent(6);
    let s2 = s.transition(e1).0.transition(e2).0;
    let s4 = s2.transition(e3).0.transition(e2).0;
    let s5 = s4.transition(e5).0;
    lemma_segment_round(s, first);
    lemma_segment_round(s2, second);
    assert(s5.phase is ReleaseWait && s5.readings == s4.readings);
    let start = Seq::<EventView>::empty();
    lemma_run_push(s, start, e1);
    lemma_run_push(s, start.push(e1), e2);
    lemma_run_push(s, start.push(e1).push(e2), e3);
    lemma_run_push(s, start.push(e1).push(e2).push(e3), e2);
    lemma_run_push(s, start.push(e1).push(e2).push(e3).push(e2), e5);
    assert(start.push(e1).push(e2).push(e3).push(e2).push(e5) =~= seq![e1, e2, e3, e2, e5]);
    lemma_run_nothing(s);
    assert(run(s, seq![e1, e2, e3, e2, e5]) == s5);
}

/// The state in which a session with the given endpoints starts.
pub open spec fn started(send_endpoint: u8, receive_endpoint: u8) -> SessionView {
    SessionView {
        phase: Phase::Opened,
        invoke_id: 0,
        phase_index: 1,
        pm_store_handle: 0,
        segment_count: 0,
        last_segment: false,
        send_endpoint,
        receive_endpoint,
        readings: Seq::empty(),
        reading_id: 0,
    }
}

/// The events of a session up to the first data segment, where every write
/// ends whole: the device is opened, the probe and the pairing request are
/// read, and then the configuration report, the answer on the device's
/// attributes, the answer on the segment information and the header of the
/// segment stream, each after the writes that ask for it.
pub open spec fn opening_events(
    probe: Seq<u8>,
    pairing: Seq<u8>,
    config: Seq<u8>,
    mds: Seq<u8>,
    info: Seq<u8>,
    header: Seq<u8>,
) -> Seq<EventView> {
    seq![
        EventView::Opened,
        EventView::Received(probe),
        EventView::Received(pairing),
        EventView::Sent(48),
        EventView::Received(config),
        EventView::Sent(26),
        EventView::Sent(18),
        EventView::Received(mds),
        EventView::Sent(24),
        EventView::Received(info),
        EventView::Sent(20),
        EventView::Received(header),
    ]
}

/// What a step that goes on leaves as it was: outside the reading of a data
/// segment the readings and their counter, in every phase the endpoints, and
/// outside the reading of the configuration report the handle of the store.
proof fn lemma_quiet_step(s: SessionView, event: EventView)
    requires
        s.transition(event).1 is Continue,
    ensures
        s.transition(event).0.phase == following(s.phase, s.last_segment),
        s.transition(event).0.send_endpoint == s.send_endpoint,
        s.transition(event).0.receive_endpoint == s.receive_endpoint,
        !(s.phase is SegmentDataWait) ==> s.transition(event).0.readings == s.readings
            && s.transition(event).0.reading_id == s.reading_id && s.transition(
            event,
        ).0.last_segment == s.last_segment,
        !(s.phase is ConfigWait) ==> s.transition(event).0.pm_store_handle == s.pm_store_handle,
{
}

/// A write that ends whole goes on.
proof fn lemma_whole_write_goes_on(s: SessionView)
    requires
        writes(s.phase),
    ensures
        s.transition(EventView::Sent(message_len(s.phase) as usize)).1 is Continue,
{
}

/// From the start to the wait for the configuration report.
proof fn lemma_opening_first(s: SessionView, probe: Seq<u8>, pairing: Seq<u8>)
    requires
        s.phase is Opened,
    ensures
        ({
            let after = run(
                s,
                seq![
                    EventView::Opened,
                    EventView::Received(probe),
                    EventView::Received(pairing),
                    EventView::Sent(48),
                ],
            );
            &&& after.phase is ConfigWait
            &&& after.readings == s.readings
            &&& after.reading_id == s.reading_id
            &&& after.send_endpoint == s.send_endpoint
            &&& after.receive_endpoint == s.receive_endpoint
        }),
{
    let e1 = EventView::Opened;
    let e2 = EventView::Received(probe);
    let e3 = EventView::Received(pairing);
    let e4 = EventView::Sent(48);
    let none = Seq::<EventView>::empty();
    lemma_run_nothing(s);
    lemma_run_push(s, none, e1);
    let s1 = run(s, none.push(e1));
    lemma_quiet_step(s, e1);
    lemma_run_push(s, none.push(e1), e2);
    let s2 = run(s, none.push(e1).push(e2));
    lemma_quiet_step(s1, e2);
    lemma_run_push(s, none.push(e1).push(e2), e3);
    let s3 = run(s, none.push(e1).push(e2).push(e3));
    lemma_quiet_step(s2, e3);
    lemma_whole_write_goes_on(s3);
    lemma_quiet_step(s3, e4);
    lemma_run_push(s, none.push(e1).push(e2).push(e3), e4);
    assert(none.push(e1).push(e2).push(e3).push(e4) =~= seq![e1, e2, e3, e4]);
}

/// From the wait for the configuration report to the wait for the answer on
/// the device's attributes.
proof fn lemma_opening_second(s: SessionView, config: Seq<u8>)
    requires
        s.phase is ConfigWait,
        config_report_of(config) is Ok,
    ensures
        ({
            let after = run(
                s,
                seq![EventView::Received(config), EventView::Sent(26), EventView::Sent(18)],
            );
            &&& after.phase is MdsWait
            &&& after.readings == s.readings
            &&& after.reading_id == s.reading_id
            &&& after.send_endpoint == s.send_endpoint
            &&& after.receive_endpoint == s.receive_endpoint
            &&& after.pm_store_handle == config_report_of(config)->Ok_0.pm_store_handle
        }),
{
    let e1 = EventView::Received(config);
    let e2 = EventView::Sent(26);
    let e3 = EventView::Sent(18);
    let none = Seq::<EventView>::empty();
    lemma_run_nothing(s);
    lemma_run_push(s, none, e1);
    let s1 = run(s, none.push(e1));
    lemma_quiet_step(s, e1);
    assert(s1.pm_store_handle == config_report_of(config)->Ok_0.pm_store_handle);
    lemma_whole_write_goes_on(s1);
    lemma_quiet_step(s1, e2);
    lemma_run_push(s, none.push(e1), e2);
    let s2 = run(s, none.push(e1).push(e2));
    lemma_whole_write_goes_on(s2);
    lemma_quiet_step(s2, e3);
    lemma_run_push(s, none.push(e1).push(e2), e3);
    assert(none.push(e1).push(e2).push(e3) =~= seq![e1, e2, e3]);
}

/// From the wait for the answer on the device's attributes to the wait for
/// the first data segment.
proof fn lemma_opening_third(s: SessionView, mds: Seq<u8>, info: Seq<u8>, header: Seq<u8>)
    requires
        s.phase is MdsWait,
        mds_answer_of(mds) is Ok,
        invoke_id_of(info) is Ok,
        segment_header_failure(header) is None,
    ensures
        ({
            let after = run(
                s,
                seq![
                    EventView::Received(mds),
                    EventView::Sent(24),
                    EventView::Received(info),
                    EventView::Sent(20),
                    EventView::Received(header),
                ],
            );
            &&& after.phase is SegmentDataWait
            &&& after.readings == s.readings
            &&& after.reading_id == s.reading_id
            &&& after.send_endpoint == s.send_endpoint
            &&& after.receive_endpoint == s.receive_endpoint
            &&& after.pm_store_handle == s.pm_store_handle
        }),
{
    let e1 = EventView::Received(mds);
    let e2 = EventView::Sent(24);
    let e3 = EventView::Received(info);
    let e4 = EventView::Sent(20);
    let e5 = EventView::Received(header);
    let none = Seq::<EventView>::empty();
    lemma_run_nothing(s);
    lemma_run_push(s, none, e1);
    let s1 = run(s, none.push(e1));
    lemma_quiet_step(s, e1);
    lemma_whole_write_goes_on(s1);
    lemma_quiet_step(s1, e2);
    lemma_run_push(s, none.push(e1), e2);
    let s2 = run(s, none.push(e1).push(e2));
    lemma_run_push(s, none.push(e1).push(e2), e3);
    let s3 = run(s, none.push(e1).push(e2).push(e3));
    lemma_quiet_step(s2, e3);
    lemma_whole_write_goes_on(s3);
    lemma_quiet_step(s3, e4);
    lemma_run_push(s, none.push(e1).push(e2).push(e3), e4);
    let s4 = run(s, none.push(e1).push(e2).push(e3).push(e4));
    lemma_quiet_step(s4, e5);
    lemma_run_push(s, none.push(e1).push(e2).push(e3).push(e4), e5);
    assert(none.push(e1).push(e2).push(e3).push(e4).push(e5) =~= seq![e1, e2, e3, e4, e5]);
}

/// A session whose responses are in order comes to wait for the first data
/// segment, with no readings yet and with the handle of the measurement store
/// that the configuration report names.
pub proof fn lemma_session_reaches_data(
    send_endpoint: u8,
    receive_endpoint: u8,
    probe: Seq<u8>,
    pairing: Seq<u8>,
    config: Seq<u8>,
    mds: Seq<u8>,
    info: Seq<u8>,
    header: Seq<u8>,
)
    requires
        config_report_of(config) is Ok,
        mds_answer_of(mds) is Ok,
        invoke_id_of(info) is Ok,
        segment_header_failure(header) is None,
    ensures
        ({
            let s = run(
                started(send_endpoint, receive_endpoint),
                opening_events(probe, pairing, config, mds, info, header),
            );
            &&& s.phase is SegmentDataWait
            &&& s.readings == Seq::<ReadingView>::empty()
            &&& s.reading_id == 0
            &&& s.pm_store_handle == config_report_of(config)->Ok_0.pm_store_handle
            &&& s.send_endpoint == send_endpoint
            &&& s.receive_endpoint == receive_endpoint
        }),
{
    let s0 = started(send_endpoint, receive_endpoint);
    let first = seq![
        EventView::Opened,
        EventView::Received(probe),
        EventView::Received(pairing),
        EventView::Sent(48),
    ];
    let second = seq![EventView::Received(config), EventView::Sent(26), EventView::Sent(18)];
    let third = seq![
        EventView::Received(mds),
        EventView::Sent(24),
        EventView::Received(info),
        EventView::Sent(20),
        EventView::Received(header),
    ];
    lemma_opening_first(s0, probe, pairing);
    let s1 = run(s0, first);
    lemma_opening_second(s1, config);
    let s2 = run(s1, second);
    lemma_opening_third(s2, mds, info, header);
    lemma_run_append(s0, first, second);
    lemma_run_append(s0, first + second, third);
    assert(first + second + third =~= opening_events(probe, pairing, config, mds, info, header));
}

/// A run of events, and then another, is the run of the two in a row.
pub proof fn lemma_run_append(s: SessionView, first: Seq<EventView>, second: Seq<EventView>)
    ensures
        run(s, first + second) == run(run(s, first), second),
    decreases second.len(),
{
    reveal_with_fuel(run, 2);
    if second.len() == 0 {
        assert(first + second =~= first);
    } else {
        lemma_run_append(s, first, second.drop_last());
        assert((first + second).drop_last() =~= first + second.drop_last());
    }
}

/// A whole download of two data segments, the second marked as the last: a
/// session whose responses are in order and whose writes all end whole ends
/// with exactly the readings of the first segment and then those of the second,
/// numbered from zero, and the session is closed.
pub proof fn lemma_whole_download(
    send_endpoint: u8,
    receive_endpoint: u8,
    probe: Seq<u8>,
    pairing: Seq<u8>,
    config: Seq<u8>,
    mds: Seq<u8>,
    info: Seq<u8>,
    header: Seq<u8>,
    first: Seq<u8>,
    second: Seq<u8>,
    confirmation: Seq<u8>,
)
    requires
        config_report_of(config) is Ok,
        mds_answer_of(mds) is Ok,
        invoke_id_of(info) is Ok,
        segment_header_failure(header) is None,
        first.len() >= 33 && segment_fits(first),
        first[32] as int / 64 % 2 == 0,
        second.len() >= 33 && segment_fits(second),
        second[32] as int / 64 % 2 == 1,
    ensures
        ({
            let before_end = run(
                started(send_endpoint, receive_endpoint),
                opening_events(probe, pairing, config, mds, info, header) + seq![
                    EventView::Received(first),
                    EventView::Sent(34),
                    EventView::Received(second),
                    EventView::Sent(34),
                    EventView::Sent(6),
                ],
            );
            &&& before_end.phase is ReleaseWait
            &&& before_end.transition(EventView::Received(confirmation)).1 == StepView::Finished(
                segment_readings(first, 0) + segment_readings(
                    second,
                    segment_readings(first, 0).len() as usize,
                ),
            )
            &&& before_end.transition(EventView::Received(confirmation)).0.phase is Closed
        }),
{
    let s0 = started(send_endpoint, receive_endpoint);
    let opening = opening_events(probe, pairing, config, mds, info, header);
    let rest = seq![
        EventView::Received(first),
        EventView::Sent(34),
        EventView::Received(second),
        EventView::Sent(34),
        EventView::Sent(6),
    ];
    lemma_session_reaches_data(
        send_endpoint,
        receive_endpoint,
        probe,
        pairing,
        config,
        mds,
        info,
        header,
    );
    let s = run(s0, opening);
    assert(declared_entries(first) <= 65535 && declared_entries(second) <= 65535);
    lemma_segment_readings_count(first, 0);
    lemma_segment_readings_count(second, 0);
    lemma_two_segment_download(s, first, second, confirmation);
    lemma_run_append(s0, opening, rest);
    assert(Seq::<ReadingView>::empty() + segment_readings(first, 0) =~= segment_readings(
        first,
        0,
    ));
}

} // verus!
