use accuchek::device::AccuChekDevice;
use accuchek::error::{AccuChekError, UsbError};
use accuchek::segment::GlucoseReading;
use accuchek::session::{
    check_segment_header, read_config, read_invoke_id, read_mds_answer, read_segment_header,
    setup_steps, Action, ConfigReport, Event, Phase, SegmentHeader, Session, SetupStep, Step,
};

fn device() -> AccuChekDevice {
    AccuChekDevice {
        vendor_id: 0x173a,
        product_id: 0x21d5,
        vendor: "Roche".to_string(),
        product: "Accu-Chek".to_string(),
        bus_number: 1,
        device_address: 4,
        config_value: 1,
        interface_number: 0,
        alternate_setting: 0,
        send_endpoint: 0x02,
        receive_endpoint: 0x81,
    }
}

fn push16(buffer: &mut Vec<u8>, value: u16) {
    buffer.extend_from_slice(&value.to_be_bytes());
}

/// A response of `len` zero bytes with the invoke-id in its place.
fn response(invoke_id: u16, len: usize) -> Vec<u8> {
    let mut buffer = vec![0u8; len];
    buffer[0] = 0xE7;
    buffer[6..8].copy_from_slice(&invoke_id.to_be_bytes());
    buffer
}

/// A configuration report with a metric object and a measurement store of the
/// given handle that holds `segments` segments.
fn config_report(invoke_id: u16, handle: u16, segments: u16) -> Vec<u8> {
    let mut buffer = response(invoke_id, 24);
    push16(&mut buffer, 2);
    push16(&mut buffer, 0);
    // A numeric metric with one attribute.
    push16(&mut buffer, 6);
    push16(&mut buffer, 1);
    push16(&mut buffer, 1);
    push16(&mut buffer, 6);
    push16(&mut buffer, 2454);
    push16(&mut buffer, 2);
    push16(&mut buffer, 0x0852);
    // The measurement store with two attributes.
    push16(&mut buffer, 61);
    push16(&mut buffer, handle);
    push16(&mut buffer, 2);
    push16(&mut buffer, 12);
    push16(&mut buffer, 2369);
    push16(&mut buffer, 2);
    push16(&mut buffer, 500);
    push16(&mut buffer, 2385);
    push16(&mut buffer, 2);
    push16(&mut buffer, segments);
    buffer
}

/// The header of a segment stream that answers the transfer request with the
/// given data-response code.
fn segment_header(invoke_id: u16, code: u16) -> Vec<u8> {
    let mut buffer = response(invoke_id, 22);
    buffer[14..16].copy_from_slice(&0x0C1Cu16.to_be_bytes());
    buffer[20..22].copy_from_slice(&code.to_be_bytes());
    buffer
}

/// A data segment with the given entries, each as (date and time in packed
/// decimal, value, status).
fn data_segment(invoke_id: u16, status: u8, entries: &[([u8; 6], u16, u16)]) -> Vec<u8> {
    let mut buffer = response(invoke_id, 22);
    buffer.extend_from_slice(&0xA1B2C3D4u32.to_be_bytes());
    buffer.extend_from_slice(&0x01020304u32.to_be_bytes());
    push16(&mut buffer, entries.len() as u16);
    buffer.extend_from_slice(&[status, 0, 0, 0]);
    for (date, value, entry_status) in entries {
        buffer.extend_from_slice(date);
        buffer.extend_from_slice(&[0, 0]);
        push16(&mut buffer, *value);
        push16(&mut buffer, *entry_status);
    }
    buffer
}

fn fields(reading: &GlucoseReading) -> (usize, i64, &str, u16) {
    (reading.id, reading.epoch, reading.timestamp.as_str(), reading.mg_dl)
}

/// Feeds the session with the script and returns the transfers that it asked
/// for, the first one included, and the step that ended the session, if one
/// did.
fn drive(script: Vec<Event>) -> (Session, Vec<Action>, Option<Step>) {
    let (mut session, first) = Session::start(&device());
    let mut actions = vec![first];
    for event in script {
        match session.step(event) {
            Step::Continue(action) => actions.push(action),
            end => return (session, actions, Some(end)),
        }
    }
    (session, actions, None)
}

fn is_read(action: &Action, len: usize) -> bool {
    matches!(action, Action::BulkRead { endpoint: 0x81, length } if *length == len)
}

fn written(action: &Action) -> &[u8] {
    match action {
        Action::BulkWrite { endpoint: 0x02, data } => data,
        other => panic!("not a write to the send endpoint: {:?}", other),
    }
}

fn first_segment() -> Vec<u8> {
    data_segment(
        0x0107,
        0x00,
        &[
            ([0x20, 0x24, 0x01, 0x15, 0x08, 0x30], 104, 0),
            ([0x20, 0x24, 0x01, 0x15, 0x12, 0x00], 141, 0x0001),
            ([0x20, 0x24, 0x01, 0x16, 0x07, 0x45], 97, 0),
        ],
    )
}

fn last_segment() -> Vec<u8> {
    data_segment(
        0x0108,
        0x40,
        &[
            ([0x20, 0x24, 0x01, 0x17, 0x07, 0x45], 88, 0x0080),
            ([0x20, 0x24, 0x01, 0x17, 0x19, 0x10], 133, 0),
        ],
    )
}

/// The events of a session up to and with the header of the segment stream.
fn script_to_segment_header(header: Vec<u8>) -> Vec<Event> {
    vec![
        Event::Opened,
        Event::Received(vec![0, 0]),
        Event::Received(vec![0xE2, 0x00, 0x00, 0x32]),
        Event::Sent(48),
        Event::Received(config_report(0x0100, 0x0005, 1)),
        Event::Sent(26),
        Event::Sent(18),
        Event::Received(response(0x0102, 40)),
        Event::Sent(24),
        Event::Received(response(0x0104, 30)),
        Event::Sent(20),
        Event::Received(header),
    ]
}

#[test]
fn a_session_starts_by_opening_the_device() {
    let (session, action) = Session::start(&device());
    assert_eq!(session.phase, Phase::Opened);
    assert_eq!(session.phase_index, 1);
    assert_eq!(session.invoke_id, 0);
    assert_eq!(session.reading_id, 0);
    assert!(session.readings.is_empty());
    assert!(matches!(
        action,
        Action::Open { config_value: 1, interface_number: 0, alternate_setting: 0 }
    ));
}

#[test]
fn a_download_of_two_segments_yields_the_readings_of_both() {
    let mut script = script_to_segment_header(segment_header(0x0106, 0));
    script.extend(vec![
        Event::Received(first_segment()),
        Event::Sent(34),
        Event::Received(last_segment()),
        Event::Sent(34),
        Event::Sent(6),
        Event::Received(vec![0xE5, 0x00, 0x00, 0x02, 0x00, 0x00]),
    ]);
    let (session, actions, end) = drive(script);
    let readings = match end {
        Some(Step::Finished(readings)) => readings,
        other => panic!("the session did not finish: {:?}", other),
    };
    assert_eq!(readings.len(), 3);
    assert_eq!(fields(&readings[0]), (0, 1705307400, "2024/01/15 08:30", 104));
    assert_eq!(fields(&readings[1]), (1, 1705391100, "2024/01/16 07:45", 97));
    assert_eq!(fields(&readings[2]), (2, 1705518600, "2024/01/17 19:10", 133));
    assert_eq!(session.phase, Phase::Closed);
    assert!(session.readings.is_empty());

    assert_eq!(actions.len(), 18);
    assert!(actions.iter().all(|a| a.timeout_secs() == 5));
    assert!(matches!(
        actions[0],
        Action::Open { config_value: 1, interface_number: 0, alternate_setting: 0 }
    ));
    assert!(matches!(
        actions[1],
        Action::ControlRead { request_type: 0x80, request: 0, value: 0, index: 0, length: 2 }
    ));
    assert!(is_read(&actions[2], 64));
    assert_eq!(
        written(&actions[3]),
        &[
            0xE3, 0x00, 0x00, 0x2C, 0x00, 0x03, 0x50, 0x79, 0x00, 0x26, 0x80, 0x00, 0x00, 0x02,
            0x80, 0x00, 0x80, 0x00, 0x00, 0x00, 0x00, 0x00, 0x00, 0x00, 0x80, 0x00, 0x00, 0x00,
            0x00, 0x08, 0x12, 0x34, 0x56, 0x78, 0x00, 0x00, 0x00, 0x00, 0x00, 0x00, 0x00, 0x00,
            0x00, 0x00, 0x00, 0x00, 0x00, 0x00
        ]
    );
    assert!(is_read(&actions[4], 1024));
    assert_eq!(
        written(&actions[5]),
        &[
            0xE7, 0x00, 0x00, 0x16, 0x00, 0x14, 0x01, 0x00, 0x02, 0x01, 0x00, 0x0E, 0x00, 0x00,
            0x00, 0x00, 0x00, 0x00, 0x0D, 0x1C, 0x00, 0x04, 0x40, 0x00, 0x00, 0x00
        ]
    );
    assert_eq!(
        written(&actions[6]),
        &[
            0xE7, 0x00, 0x00, 0x0E, 0x00, 0x0C, 0x01, 0x01, 0x01, 0x03, 0x00, 0x06, 0x00, 0x00,
            0x00, 0x00, 0x00, 0x00
        ]
    );
    assert!(is_read(&actions[7], 1024));
    assert_eq!(
        written(&actions[8]),
        &[
            0xE7, 0x00, 0x00, 0x14, 0x00, 0x12, 0x01, 0x03, 0x01, 0x07, 0x00, 0x0C, 0x00, 0x05,
            0x0C, 0x0D, 0x00, 0x06, 0x00, 0x01, 0x00, 0x02, 0x00, 0x00
        ]
    );
    assert!(is_read(&actions[9], 1024));
    assert_eq!(
        written(&actions[10]),
        &[
            0xE7, 0x00, 0x00, 0x10, 0x00, 0x0E, 0x01, 0x05, 0x01, 0x07, 0x00, 0x08, 0x00, 0x05,
            0x0C, 0x1C, 0x00, 0x02, 0x00, 0x00
        ]
    );
    assert!(is_read(&actions[11], 1024));
    assert!(is_read(&actions[12], 1024));
    assert_eq!(
        written(&actions[13]),
        &[
            0xE7, 0x00, 0x00, 0x1E, 0x00, 0x1C, 0x01, 0x07, 0x02, 0x01, 0x00, 0x16, 0x00, 0x05,
            0xFF, 0xFF, 0xFF, 0xFF, 0x0D, 0x21, 0x00, 0x0C, 0xA1, 0xB2, 0xC3, 0xD4, 0x01, 0x02,
            0x03, 0x04, 0x00, 0x03, 0x00, 0x80
        ]
    );
    assert!(is_read(&actions[14], 1024));
    assert_eq!(
        written(&actions[15]),
        &[
            0xE7, 0x00, 0x00, 0x1E, 0x00, 0x1C, 0x01, 0x08, 0x02, 0x01, 0x00, 0x16, 0x00, 0x05,
            0xFF, 0xFF, 0xFF, 0xFF, 0x0D, 0x21, 0x00, 0x0C, 0xA1, 0xB2, 0xC3, 0xD4, 0x01, 0x02,
            0x03, 0x04, 0x00, 0x02, 0x00, 0x80
        ]
    );
    assert_eq!(written(&actions[16]), &[0xE4, 0x00, 0x00, 0x02, 0x00, 0x00]);
    assert!(is_read(&actions[17], 1024));

    // One acknowledgement for each data segment.
    let acks = actions
        .iter()
        .filter(|a| matches!(a, Action::BulkWrite { data, .. } if data.len() == 34))
        .count();
    assert_eq!(acks, 2);
}

#[test]
fn a_download_goes_on_until_the_last_segment() {
    let mut script = script_to_segment_header(segment_header(0x0106, 0));
    for _ in 0..5 {
        script.push(Event::Received(first_segment()));
        script.push(Event::Sent(34));
    }
    let (session, actions, end) = drive(script);
    assert!(end.is_none());
    assert_eq!(session.phase, Phase::SegmentDataWait);
    assert_eq!(session.readings.len(), 10);
    assert_eq!(session.reading_id, 10);
    for (k, reading) in session.readings.iter().enumerate() {
        assert_eq!(reading.id, k);
    }
    assert!(is_read(actions.last().unwrap(), 1024));
    assert_eq!(session.phase_index, 22);
}

#[test]
fn the_session_tracks_what_the_meter_sent() {
    let (session, _, end) = drive(script_to_segment_header(segment_header(0x0106, 0)));
    assert!(end.is_none());
    assert_eq!(session.phase, Phase::SegmentDataWait);
    assert_eq!(session.pm_store_handle, 0x0005);
    assert_eq!(session.segment_count, 1);
    assert_eq!(session.invoke_id, 0x0104);
    assert_eq!(session.send_endpoint, 0x02);
    assert_eq!(session.receive_endpoint, 0x81);
}

#[test]
fn an_empty_store_ends_the_session_without_readings() {
    let (session, actions, end) = drive(script_to_segment_header(segment_header(0x0106, 3)));
    assert!(matches!(end, Some(Step::Failed(AccuChekError::EmptyDataSegment))));
    assert_eq!(session.phase, Phase::Closed);
    assert!(session.readings.is_empty());
    assert_eq!(actions.len(), 12);
}

#[test]
fn another_data_response_code_is_a_protocol_failure() {
    let (session, _, end) = drive(script_to_segment_header(segment_header(0x0106, 7)));
    match end {
        Some(Step::Failed(AccuChekError::Protocol(text))) => {
            assert_eq!(text, "Data error code: 7")
        }
        other => panic!("not a protocol failure: {:?}", other),
    }
    assert_eq!(session.phase, Phase::Closed);
}

#[test]
fn a_header_that_names_another_action_is_unexpected() {
    let mut header = segment_header(0x0106, 0);
    header[15] = 0x0D;
    let (session, _, end) = drive(script_to_segment_header(header));
    assert!(matches!(end, Some(Step::Failed(AccuChekError::UnexpectedResponse))));
    assert_eq!(session.phase, Phase::Closed);
    let mut header = segment_header(0x0106, 0);
    header[15] = 0x0D;
    header.truncate(16);
    let (_, _, end) = drive(script_to_segment_header(header));
    assert!(matches!(end, Some(Step::Failed(AccuChekError::UnexpectedResponse))));
}

#[test]
fn a_short_write_of_the_pairing_confirmation_halts_the_session() {
    let (mut session, actions, end) = drive(vec![
        Event::Opened,
        Event::Received(vec![0, 0]),
        Event::Received(vec![0xE2, 0x00]),
        Event::Sent(47),
        Event::Received(config_report(0x0100, 0x0005, 1)),
    ]);
    match end {
        Some(Step::Failed(AccuChekError::Communication(text))) => {
            assert_eq!(text, "Failed to send message pairing confirmation: wrote 47 of 48 bytes")
        }
        other => panic!("not a communication failure: {:?}", other),
    }
    assert_eq!(actions.len(), 4);
    assert_eq!(session.phase, Phase::Closed);
    // Nothing follows: the closed session takes no further event.
    let next = session.step(Event::Received(config_report(0x0100, 0x0005, 1)));
    assert!(matches!(next, Step::Failed(AccuChekError::Communication(_))));
    assert_eq!(session.phase, Phase::Closed);
}

#[test]
fn a_short_write_fails_in_every_phase_that_writes() {
    let names = [
        (3usize, "pairing confirmation", 48usize),
        (5, "config received confirmation", 26),
        (6, "MDS attribute request", 18),
        (8, "action request", 24),
        (10, "request segments", 20),
        (13, "data segment received ACK", 34),
    ];
    let mut full = script_to_segment_header(segment_header(0x0106, 0));
    full.push(Event::Received(first_segment()));
    full.push(Event::Sent(34));
    for (at, name, len) in names {
        let mut script: Vec<Event> = Vec::new();
        for (k, event) in full.iter().enumerate() {
            if k == at {
                script.push(Event::Sent(len - 1));
                break;
            }
            script.push(match event {
                Event::Opened => Event::Opened,
                Event::Received(bytes) => Event::Received(bytes.clone()),
                Event::Sent(n) => Event::Sent(*n),
                Event::Failed(e) => Event::Failed(*e),
            });
        }
        let (session, _, end) = drive(script);
        match end {
            Some(Step::Failed(AccuChekError::Communication(text))) => assert_eq!(
                text,
                format!("Failed to send message {}: wrote {} of {} bytes", name, len - 1, len)
            ),
            other => panic!("not a communication failure: {:?}", other),
        }
        assert_eq!(session.phase, Phase::Closed);
        assert!(session.readings.is_empty());
    }
}

#[test]
fn a_short_write_of_the_release_request_fails() {
    let mut script = script_to_segment_header(segment_header(0x0106, 0));
    script.extend(vec![Event::Received(last_segment()), Event::Sent(34), Event::Sent(7)]);
    let (session, _, end) = drive(script);
    match end {
        Some(Step::Failed(AccuChekError::Communication(text))) => {
            assert_eq!(text, "Failed to send message release request: wrote 7 of 6 bytes")
        }
        other => panic!("not a communication failure: {:?}", other),
    }
    assert!(session.readings.is_empty());
}

#[test]
fn a_failed_transfer_fails_the_session() {
    let (session, actions, end) =
        drive(vec![Event::Opened, Event::Received(vec![0, 0]), Event::Failed(UsbError::Timeout)]);
    assert!(matches!(end, Some(Step::Failed(AccuChekError::Usb(UsbError::Timeout)))));
    assert_eq!(session.phase, Phase::Closed);
    assert_eq!(actions.len(), 3);
    let (_, _, end) = drive(vec![Event::Failed(UsbError::Access)]);
    assert!(matches!(end, Some(Step::Failed(AccuChekError::Usb(UsbError::Access)))));
}

#[test]
fn a_failure_discards_the_readings_gathered_so_far() {
    let mut script = script_to_segment_header(segment_header(0x0106, 0));
    script.extend(vec![
        Event::Received(first_segment()),
        Event::Sent(34),
        Event::Failed(UsbError::Timeout),
    ]);
    let (session, _, end) = drive(script);
    assert!(matches!(end, Some(Step::Failed(AccuChekError::Usb(UsbError::Timeout)))));
    assert!(session.readings.is_empty());
    assert_eq!(session.phase, Phase::Closed);
}

#[test]
fn an_association_abort_fails_the_session() {
    let script = vec![
        Event::Opened,
        Event::Received(vec![0, 0]),
        Event::Received(vec![0xE2, 0x00]),
        Event::Sent(48),
        Event::Received(config_report(0x0100, 0x0005, 1)),
        Event::Sent(26),
        Event::Sent(18),
        Event::Received(vec![0xE6, 0x00, 0x00, 0x02, 0x00, 0x00]),
    ];
    let (session, _, end) = drive(script);
    assert!(matches!(end, Some(Step::Failed(AccuChekError::AssociationAborted))));
    assert_eq!(session.phase, Phase::Closed);
}

#[test]
fn an_event_out_of_turn_fails_the_session() {
    let (_, _, end) = drive(vec![Event::Sent(2)]);
    match end {
        Some(Step::Failed(AccuChekError::Communication(text))) => {
            assert_eq!(text, "Unexpected transport event")
        }
        other => panic!("not a communication failure: {:?}", other),
    }
    let (_, _, end) = drive(vec![Event::Opened, Event::Opened]);
    assert!(matches!(end, Some(Step::Failed(AccuChekError::Communication(_)))));
    let (_, _, end) = drive(vec![Event::Received(vec![])]);
    assert!(matches!(end, Some(Step::Failed(AccuChekError::Communication(_)))));
    let (_, _, end) =
        drive(vec![Event::Opened, Event::Received(vec![]), Event::Received(vec![]), Event::Opened]);
    assert!(matches!(end, Some(Step::Failed(AccuChekError::Communication(_)))));
}

#[test]
fn a_configuration_report_without_the_store_fails() {
    let mut report = config_report(0x0100, 0x0005, 1);
    report[43] = 62;
    let script = vec![
        Event::Opened,
        Event::Received(vec![0, 0]),
        Event::Received(vec![]),
        Event::Sent(48),
        Event::Received(report),
    ];
    let (_, _, end) = drive(script);
    match end {
        Some(Step::Failed(AccuChekError::Protocol(text))) => {
            assert_eq!(text, "Object not found in config")
        }
        other => panic!("not a protocol failure: {:?}", other),
    }
}

#[test]
fn a_data_segment_that_ends_too_soon_fails() {
    let mut segment = first_segment();
    segment.truncate(60);
    let mut script = script_to_segment_header(segment_header(0x0106, 0));
    script.push(Event::Received(segment));
    let (session, _, end) = drive(script);
    match end {
        Some(Step::Failed(AccuChekError::Protocol(text))) => {
            assert_eq!(text, "Response shorter than its layout requires")
        }
        other => panic!("not a protocol failure: {:?}", other),
    }
    assert!(session.readings.is_empty());
}

#[test]
fn read_config_reads_handle_and_segment_count() {
    assert_eq!(
        read_config(&config_report(0x0203, 0x0009, 4)).unwrap(),
        ConfigReport { invoke_id: 0x0203, pm_store_handle: 0x0009, segment_count: 4 }
    );
}

#[test]
fn read_config_fails_on_what_is_missing() {
    let report = config_report(0x0203, 0x0009, 4);
    let text = |result: Result<ConfigReport, AccuChekError>| match result {
        Err(AccuChekError::Protocol(text)) => text,
        other => panic!("not a protocol failure: {:?}", other),
    };
    assert_eq!(text(read_config(&report[..7])), "Response shorter than its layout requires");
    assert_eq!(text(read_config(&report[..20])), "Response shorter than its layout requires");
    let mut other_attribute = report.clone();
    other_attribute[57] = 0x52;
    assert_eq!(text(read_config(&other_attribute)), "Attribute not found");
    assert_eq!(
        text(read_config(&report[..report.len() - 1])),
        "Response shorter than its layout requires"
    );
    let mut no_store = report.clone();
    no_store[43] = 60;
    assert_eq!(text(read_config(&no_store)), "Object not found in config");
}

#[test]
fn read_invoke_id_reads_offset_six() {
    assert_eq!(read_invoke_id(&response(0xBEEF, 8)).unwrap(), 0xBEEF);
    assert!(matches!(read_invoke_id(&response(0xBEEF, 8)[..7]), Err(AccuChekError::Protocol(_))));
    assert!(matches!(read_invoke_id(&[]), Err(AccuChekError::Protocol(_))));
}

#[test]
fn read_mds_answer_tells_an_abort_from_an_answer() {
    assert_eq!(read_mds_answer(&response(0x0102, 12)).unwrap(), 0x0102);
    assert!(matches!(read_mds_answer(&[0xE6, 0x00]), Err(AccuChekError::AssociationAborted)));
    let mut long_abort = response(0x0102, 12);
    long_abort[0] = 0xE6;
    assert!(matches!(read_mds_answer(&long_abort), Err(AccuChekError::AssociationAborted)));
    assert!(matches!(read_mds_answer(&[0xE7, 0x00]), Err(AccuChekError::Protocol(_))));
    assert!(matches!(read_mds_answer(&[0xE6]), Err(AccuChekError::Protocol(_))));
}

#[test]
fn check_segment_header_judges_by_length() {
    assert!(check_segment_header(&segment_header(1, 0)).is_ok());
    assert!(check_segment_header(&[]).is_ok());
    assert!(check_segment_header(&[0u8; 15]).is_ok());
    assert!(matches!(check_segment_header(&[0u8; 16]), Err(AccuChekError::UnexpectedResponse)));
    assert!(matches!(
        check_segment_header(&segment_header(1, 3)),
        Err(AccuChekError::EmptyDataSegment)
    ));
    // The code counts in a longer header too.
    let mut long = segment_header(1, 3);
    long.extend_from_slice(&[0; 10]);
    assert!(matches!(check_segment_header(&long), Err(AccuChekError::EmptyDataSegment)));
    // Below 22 bytes no code is read.
    assert!(check_segment_header(&segment_header(1, 3)[..21]).is_ok());
    match check_segment_header(&segment_header(1, 0x0102)) {
        Err(AccuChekError::Protocol(text)) => assert_eq!(text, "Data error code: 258"),
        other => panic!("not a protocol failure: {:?}", other),
    }
}

#[test]
fn read_segment_header_reads_the_fields_of_the_acknowledgement() {
    assert_eq!(
        read_segment_header(&first_segment()).unwrap(),
        SegmentHeader {
            invoke_id: 0x0107,
            first: 0xA1B2C3D4,
            second: 0x01020304,
            third: 3,
            last: false
        }
    );
    assert!(read_segment_header(&last_segment()).unwrap().last);
    let mut flags = last_segment();
    flags[32] = 0xBF;
    assert!(!read_segment_header(&flags).unwrap().last);
    flags[32] = 0xFF;
    assert!(read_segment_header(&flags).unwrap().last);
    assert!(matches!(read_segment_header(&flags[..32]), Err(AccuChekError::Protocol(_))));
}

#[test]
fn the_invoke_id_wraps_after_the_largest() {
    let script = vec![
        Event::Opened,
        Event::Received(vec![0, 0]),
        Event::Received(vec![]),
        Event::Sent(48),
        Event::Received(config_report(0xFFFF, 0x0005, 1)),
        Event::Sent(26),
    ];
    let (_, actions, end) = drive(script);
    assert!(end.is_none());
    assert_eq!(&written(&actions[5])[6..8], &[0xFF, 0xFF]);
    assert_eq!(&written(&actions[6])[6..8], &[0x00, 0x00]);
}

#[test]
fn setup_detaches_an_active_kernel_driver_where_it_can() {
    let mut meter = device();
    meter.config_value = 3;
    meter.interface_number = 1;
    meter.alternate_setting = 2;
    let rest = vec![
        SetupStep::SetConfiguration { config_value: 3 },
        SetupStep::ClaimInterface { interface_number: 1 },
        SetupStep::SetAlternateSetting { interface_number: 1, alternate_setting: 2 },
    ];
    let mut with_detach = vec![SetupStep::DetachKernelDriver { interface_number: 1 }];
    with_detach.extend(rest.iter().copied());
    assert_eq!(setup_steps(&meter, true, true), with_detach);
    assert_eq!(setup_steps(&meter, true, false), rest);
    assert_eq!(setup_steps(&meter, false, true), rest);
    assert_eq!(setup_steps(&meter, false, false), rest);
}
