use accuchek::error::AccuChekError;
use accuchek::locator::{get_attr, get_obj};

fn push16(buffer: &mut Vec<u8>, value: u16) {
    buffer.push((value >> 8) as u8);
    buffer.push((value & 0xFF) as u8);
}

/// A configuration report with the given objects, each as (class, handle,
/// attribute count, body).
fn report(declared: u16, objects: &[(u16, u16, u16, Vec<u8>)]) -> Vec<u8> {
    let mut buffer = vec![0xEEu8; 24];
    push16(&mut buffer, declared);
    push16(&mut buffer, 0);
    for (class, handle, attrs, body) in objects {
        push16(&mut buffer, *class);
        push16(&mut buffer, *handle);
        push16(&mut buffer, *attrs);
        push16(&mut buffer, body.len() as u16);
        buffer.extend_from_slice(body);
    }
    buffer
}

/// A run of attributes, each as (class, body).
fn attributes(list: &[(u16, Vec<u8>)]) -> Vec<u8> {
    let mut buffer = Vec::new();
    for (class, body) in list {
        push16(&mut buffer, *class);
        push16(&mut buffer, body.len() as u16);
        buffer.extend_from_slice(body);
    }
    buffer
}

fn protocol_text(result: Result<(), AccuChekError>) -> String {
    match result {
        Err(AccuChekError::Protocol(text)) => text,
        other => panic!("not a protocol failure: {:?}", other),
    }
}

fn three_objects() -> Vec<(u16, u16, u16, Vec<u8>)> {
    vec![
        (6, 1, 2, vec![1, 2, 3]),
        (61, 7, 4, vec![9, 8, 7, 6, 5]),
        (37, 3, 1, vec![0xAA, 0xBB]),
    ]
}

#[test]
fn get_obj_finds_the_first_object() {
    let buffer = report(3, &three_objects());
    let (rest, attrs, handle) = get_obj(&buffer, 6).unwrap();
    assert_eq!(attrs, 2);
    assert_eq!(handle, 1);
    assert_eq!(rest, &buffer[36..]);
    assert_eq!(&rest[..3], &[1, 2, 3]);
}

#[test]
fn get_obj_finds_an_object_in_the_middle() {
    let buffer = report(3, &three_objects());
    let (rest, attrs, handle) = get_obj(&buffer, 61).unwrap();
    assert_eq!(attrs, 4);
    assert_eq!(handle, 7);
    assert_eq!(rest, &buffer[47..]);
    assert_eq!(&rest[..5], &[9, 8, 7, 6, 5]);
}

#[test]
fn get_obj_finds_the_last_object() {
    let buffer = report(3, &three_objects());
    let (rest, attrs, handle) = get_obj(&buffer, 37).unwrap();
    assert_eq!(attrs, 1);
    assert_eq!(handle, 3);
    assert_eq!(rest, &[0xAA, 0xBB]);
}

#[test]
fn get_obj_takes_the_first_of_two_of_a_class() {
    let objects = vec![(61, 1, 0, vec![]), (61, 2, 0, vec![])];
    let buffer = report(2, &objects);
    let (_, _, handle) = get_obj(&buffer, 61).unwrap();
    assert_eq!(handle, 1);
}

#[test]
fn get_obj_fails_where_the_class_is_absent() {
    let buffer = report(3, &three_objects());
    let text = protocol_text(get_obj(&buffer, 62).map(|_| ()));
    assert_eq!(text, "Object not found in config");
}

#[test]
fn get_obj_does_not_look_past_the_declared_count() {
    let buffer = report(2, &three_objects());
    let text = protocol_text(get_obj(&buffer, 37).map(|_| ()));
    assert_eq!(text, "Object not found in config");
    let buffer = report(0, &three_objects());
    let text = protocol_text(get_obj(&buffer, 6).map(|_| ()));
    assert_eq!(text, "Object not found in config");
}

#[test]
fn get_obj_refuses_a_report_without_its_header() {
    for len in [0usize, 10, 26, 27] {
        let buffer = vec![0u8; len];
        let text = protocol_text(get_obj(&buffer, 61).map(|_| ()));
        assert_eq!(text, "Response shorter than its layout requires");
    }
}

#[test]
fn get_obj_refuses_a_report_that_ends_in_a_header() {
    let mut buffer = report(3, &three_objects());
    buffer.truncate(28 + 11 + 13 + 5);
    let text = protocol_text(get_obj(&buffer, 37).map(|_| ()));
    assert_eq!(text, "Response shorter than its layout requires");
    // The objects before the cut are still found.
    assert!(get_obj(&buffer, 61).is_ok());
}

#[test]
fn get_obj_refuses_a_size_that_leads_past_the_end() {
    let mut buffer = report(2, &[(6, 1, 0, vec![0; 4])]);
    buffer[34] = 0xFF;
    buffer[35] = 0xFF;
    let text = protocol_text(get_obj(&buffer, 61).map(|_| ()));
    assert_eq!(text, "Response shorter than its layout requires");
    // With one object declared the size of its body is never followed.
    buffer[25] = 1;
    let text = protocol_text(get_obj(&buffer, 61).map(|_| ()));
    assert_eq!(text, "Object not found in config");
}

#[test]
fn get_attr_finds_an_attribute_at_each_position() {
    let list = vec![(2337, vec![0, 1]), (2385, vec![0, 4]), (2454, vec![7, 7, 7])];
    let buffer = attributes(&list);
    let (rest, size) = get_attr(&buffer, 3, 2337).unwrap();
    assert_eq!(size, 2);
    assert_eq!(rest, &buffer[4..]);
    let (rest, size) = get_attr(&buffer, 3, 2385).unwrap();
    assert_eq!(size, 2);
    assert_eq!(rest, &buffer[10..]);
    assert_eq!(&rest[..2], &[0, 4]);
    let (rest, size) = get_attr(&buffer, 3, 2454).unwrap();
    assert_eq!(size, 3);
    assert_eq!(rest, &[7, 7, 7]);
}

#[test]
fn get_attr_fails_where_the_class_is_absent() {
    let list = vec![(2337, vec![0, 1]), (2385, vec![0, 4])];
    let buffer = attributes(&list);
    let text = protocol_text(get_attr(&buffer, 2, 2454).map(|_| ()));
    assert_eq!(text, "Attribute not found");
    let text = protocol_text(get_attr(&buffer, 1, 2385).map(|_| ()));
    assert_eq!(text, "Attribute not found");
    let text = protocol_text(get_attr(&buffer, 0, 2337).map(|_| ()));
    assert_eq!(text, "Attribute not found");
    let text = protocol_text(get_attr(&[], 0, 2337).map(|_| ()));
    assert_eq!(text, "Attribute not found");
}

#[test]
fn get_attr_refuses_a_buffer_that_ends_too_soon() {
    let list = vec![(2337, vec![0, 1]), (2385, vec![0, 4])];
    let buffer = attributes(&list);
    let text = protocol_text(get_attr(&buffer, 3, 2454).map(|_| ()));
    assert_eq!(text, "Response shorter than its layout requires");
    let text = protocol_text(get_attr(&buffer[..9], 2, 2385).map(|_| ()));
    assert_eq!(text, "Response shorter than its layout requires");
    let text = protocol_text(get_attr(&[], 1, 2337).map(|_| ()));
    assert_eq!(text, "Response shorter than its layout requires");
}
