use accuchek::protocol::{
    find_mdc_name, hex_dump, hex_dump_with_header, read_be16, read_be32, write_be16, write_be32,
    ACTION_TYPE_MDC_ACT_SEG_TRIG_XFER, APDU_TYPE_ASSOCIATION_ABORT, MDC_ATTR_NUM_SEG,
    MDC_MOC_VMO_PMSTORE,
};

#[test]
fn write_be16_appends_high_byte_first() {
    let mut buffer = vec![0xAAu8];
    write_be16(&mut buffer, 0xE300);
    write_be16(&mut buffer, 44);
    assert_eq!(buffer, vec![0xAA, 0xE3, 0x00, 0x00, 0x2C]);
}

#[test]
fn write_be32_appends_four_bytes() {
    let mut buffer = Vec::new();
    write_be32(&mut buffer, 0x80000002);
    write_be32(&mut buffer, 0x12345678);
    assert_eq!(buffer, vec![0x80, 0x00, 0x00, 0x02, 0x12, 0x34, 0x56, 0x78]);
}

#[test]
fn read_be16_reads_at_offset() {
    let buffer = [0x00u8, 0x12, 0x34, 0xFF];
    assert_eq!(read_be16(&buffer, 1), 0x1234);
    assert_eq!(read_be16(&buffer, 2), 0x34FF);
}

#[test]
fn read_be32_reads_at_offset() {
    let buffer = [0x00u8, 0x12, 0x34, 0x56, 0x78];
    assert_eq!(read_be32(&buffer, 1), 0x12345678);
    assert_eq!(read_be32(&[0xFF, 0xFF, 0xFF, 0xFF], 0), 0xFFFFFFFF);
}

#[test]
fn read_after_write_gives_the_value_back() {
    for value in [0u16, 1, 0x00FF, 0x0100, 0x1234, 0xFFFF] {
        let mut buffer = Vec::new();
        write_be16(&mut buffer, value);
        assert_eq!(read_be16(&buffer, 0), value);
    }
    for value in [0u32, 1, 0x0000FFFF, 0x00010000, 0x12345678, 0xFFFFFFFF] {
        let mut buffer = Vec::new();
        write_be32(&mut buffer, value);
        assert_eq!(read_be32(&buffer, 0), value);
    }
}

#[test]
fn constants_have_their_wire_values() {
    assert_eq!(APDU_TYPE_ASSOCIATION_ABORT, 0xE600);
    assert_eq!(ACTION_TYPE_MDC_ACT_SEG_TRIG_XFER, 0x0C1C);
    assert_eq!(MDC_MOC_VMO_PMSTORE, 61);
    assert_eq!(MDC_ATTR_NUM_SEG, 2385);
}

#[test]
fn find_mdc_name_knows_the_listed_classes() {
    assert_eq!(find_mdc_name(4), Some("MDC_MOC_VMO_METRIC"));
    assert_eq!(find_mdc_name(5), Some("MDC_MOC_VMO_METRIC_ENUM"));
    assert_eq!(find_mdc_name(6), Some("MDC_MOC_VMO_METRIC_NU"));
    assert_eq!(find_mdc_name(9), Some("MDC_MOC_VMO_METRIC_SA_RT"));
    assert_eq!(find_mdc_name(16), Some("MDC_MOC_SCAN"));
    assert_eq!(find_mdc_name(17), Some("MDC_MOC_SCAN_CFG"));
    assert_eq!(find_mdc_name(18), Some("MDC_MOC_SCAN_CFG_EPI"));
    assert_eq!(find_mdc_name(19), Some("MDC_MOC_SCAN_CFG_PERI"));
    assert_eq!(find_mdc_name(37), Some("MDC_MOC_VMS_MDS_SIMP"));
    assert_eq!(find_mdc_name(61), Some("MDC_MOC_VMO_PMSTORE"));
    assert_eq!(find_mdc_name(62), Some("MDC_MOC_PM_SEGMENT"));
    assert_eq!(find_mdc_name(2385), Some("MDC_ATTR_NUM_SEG"));
}

#[test]
fn find_mdc_name_knows_no_other_class() {
    assert_eq!(find_mdc_name(0), None);
    assert_eq!(find_mdc_name(7), None);
    assert_eq!(find_mdc_name(2384), None);
    assert_eq!(find_mdc_name(0xFFFF), None);
}

#[test]
fn hex_dump_of_nothing_has_no_lines() {
    assert!(hex_dump(&[]).is_empty());
}

#[test]
fn hex_dump_pads_a_short_line() {
    let lines = hex_dump(&[0x41, 0x00, 0x7F, 0x20, 0xE3]);
    assert_eq!(lines.len(), 1);
    let expected = format!("41 00 7F 20 E3 {}   A.. .", "   ".repeat(11));
    assert_eq!(lines[0], expected);
}

#[test]
fn hex_dump_breaks_after_sixteen_bytes() {
    let bytes: Vec<u8> = (0x30u8..0x42).collect();
    let lines = hex_dump(&bytes);
    assert_eq!(lines.len(), 2);
    assert_eq!(
        lines[0],
        "30 31 32 33 34 35 36 37 38 39 3A 3B 3C 3D 3E 3F    0123456789:;<=>?"
    );
    assert_eq!(lines[1], format!("40 41 {}   @A", "   ".repeat(14)));
}

#[test]
fn hex_dump_of_a_full_line_has_one_line() {
    let bytes = [0xFFu8; 16];
    let lines = hex_dump(&bytes);
    assert_eq!(lines.len(), 1);
    assert_eq!(lines[0], format!("{}   {}", "FF ".repeat(16), ".".repeat(16)));
}

#[test]
fn hex_dump_with_header_frames_the_dump() {
    let bytes: Vec<u8> = (0u8..26).collect();
    let lines = hex_dump_with_header("config info", &bytes);
    assert_eq!(lines.len(), 4);
    assert_eq!(
        lines[0],
        format!(
            "hexdump of buffer:\n\nBUFFER START \"config info\" size=26 (0x1a) {}",
            "=".repeat(47)
        )
    );
    assert_eq!(lines[1..3], hex_dump(&bytes)[..]);
    assert_eq!(lines[3], format!("BUFFER END {}\n", "=".repeat(92)));
}
