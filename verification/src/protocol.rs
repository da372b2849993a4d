//! Wire constants of the IEEE 11073 exchange and big-endian primitives.

use crate::text::{decimal, hex_padded, numeral, push_decimal, push_hex_padded, push_numeral, push_text};
use vstd::prelude::*;

verus! {

// Outer APDU types.
pub const APDU_TYPE_ASSOCIATION_REQUEST: u16 = 0xE200;
pub const APDU_TYPE_ASSOCIATION_RESPONSE: u16 = 0xE300;
pub const APDU_TYPE_ASSOCIATION_RELEASE_REQUEST: u16 = 0xE400;
pub const APDU_TYPE_ASSOCIATION_RELEASE_RESPONSE: u16 = 0xE500;
pub const APDU_TYPE_ASSOCIATION_ABORT: u16 = 0xE600;
pub const APDU_TYPE_PRESENTATION_APDU: u16 = 0xE700;

// Inner data-APDU types.
pub const DATA_APDU_INVOKE_GET: u16 = 0x0103;
pub const DATA_APDU_INVOKE_CONFIRMED_ACTION: u16 = 0x0107;
pub const DATA_APDU_RESPONSE_CONFIRMED_EVENT_REPORT: u16 = 0x0201;
pub const DATA_APDU_RESPONSE_GET: u16 = 0x0203;
pub const DATA_APDU_RESPONSE_CONFIRMED_ACTION: u16 = 0x0207;

// Event types.
pub const EVENT_TYPE_MDC_NOTI_CONFIG: u16 = 0x0D1C;
pub const EVENT_TYPE_MDC_NOTI_SEGMENT_DATA: u16 = 0x0D21;

// Action types.
pub const ACTION_TYPE_MDC_ACT_SEG_GET_INFO: u16 = 0x0C0D;
pub const ACTION_TYPE_MDC_ACT_SEG_GET_ID_LIST: u16 = 0x0C1E;
pub const ACTION_TYPE_MDC_ACT_SEG_TRIG_XFER: u16 = 0x0C1C;
pub const ACTION_TYPE_MDC_ACT_SEG_SET_TIME: u16 = 0x0C17;

// Object classes.
pub const MDC_MOC_VMO_METRIC: u16 = 4;
pub const MDC_MOC_VMO_METRIC_ENUM: u16 = 5;
pub const MDC_MOC_VMO_METRIC_NU: u16 = 6;
pub const MDC_MOC_VMO_METRIC_SA_RT: u16 = 9;
pub const MDC_MOC_SCAN: u16 = 16;
pub const MDC_MOC_SCAN_CFG: u16 = 17;
pub const MDC_MOC_SCAN_CFG_EPI: u16 = 18;
pub const MDC_MOC_SCAN_CFG_PERI: u16 = 19;
pub const MDC_MOC_VMS_MDS_SIMP: u16 = 37;
pub const MDC_MOC_VMO_PMSTORE: u16 = 61;
pub const MDC_MOC_PM_SEGMENT: u16 = 62;

// Attribute classes.
pub const MDC_ATTR_CONFIRM_MODE: u16 = 2323;
pub const MDC_ATTR_CONFIRM_TIMEOUT: u16 = 2324;
pub const MDC_ATTR_TRANSPORT_TIMEOUT: u16 = 2694;
pub const MDC_ATTR_ID_HANDLE: u16 = 2337;
pub const MDC_ATTR_ID_INSTNO: u16 = 2338;
pub const MDC_ATTR_ID_LABEL_STRING: u16 = 2343;
pub const MDC_ATTR_ID_MODEL: u16 = 2344;
pub const MDC_ATTR_ID_PHYSIO: u16 = 2347;
pub const MDC_ATTR_ID_PROD_SPECN: u16 = 2349;
pub const MDC_ATTR_ID_TYPE: u16 = 2351;
pub const MDC_ATTR_METRIC_STORE_CAPAC_CNT: u16 = 2369;
pub const MDC_ATTR_METRIC_STORE_SAMPLE_ALG: u16 = 2371;
pub const MDC_ATTR_METRIC_STORE_USAGE_CNT: u16 = 2372;
pub const MDC_ATTR_MSMT_STAT: u16 = 2375;
pub const MDC_ATTR_NU_ACCUR_MSMT: u16 = 2378;
pub const MDC_ATTR_NU_CMPD_VAL_OBS: u16 = 2379;
pub const MDC_ATTR_NU_VAL_OBS: u16 = 2384;
pub const MDC_ATTR_NUM_SEG: u16 = 2385;
pub const MDC_ATTR_OP_STAT: u16 = 2387;
pub const MDC_ATTR_POWER_STAT: u16 = 2389;
pub const MDC_ATTR_SA_SPECN: u16 = 2413;
pub const MDC_ATTR_SCALE_SPECN_I16: u16 = 2415;
pub const MDC_ATTR_SCALE_SPECN_I32: u16 = 2416;
pub const MDC_ATTR_SCALE_SPECN_I8: u16 = 2417;
pub const MDC_ATTR_SCAN_REP_PD: u16 = 2421;
pub const MDC_ATTR_SEG_USAGE_CNT: u16 = 2427;
pub const MDC_ATTR_SYS_ID: u16 = 2436;
pub const MDC_ATTR_SYS_TYPE: u16 = 2438;
pub const MDC_ATTR_TIME_ABS: u16 = 2439;
pub const MDC_ATTR_TIME_BATT_REMAIN: u16 = 2440;
pub const MDC_ATTR_TIME_END_SEG: u16 = 2442;
pub const MDC_ATTR_TIME_PD_SAMP: u16 = 2445;
pub const MDC_ATTR_TIME_REL: u16 = 2447;
pub const MDC_ATTR_TIME_STAMP_ABS: u16 = 2448;
pub const MDC_ATTR_TIME_STAMP_REL: u16 = 2449;
pub const MDC_ATTR_TIME_START_SEG: u16 = 2450;
pub const MDC_ATTR_TX_WIND: u16 = 2453;
pub const MDC_ATTR_UNIT_CODE: u16 = 2454;
pub const MDC_ATTR_UNIT_LABEL_STRING: u16 = 2457;
pub const MDC_ATTR_VAL_BATT_CHARGE: u16 = 2460;
pub const MDC_ATTR_VAL_ENUM_OBS: u16 = 2462;
pub const MDC_ATTR_TIME_REL_HI_RES: u16 = 2536;
pub const MDC_ATTR_TIME_STAMP_REL_HI_RES: u16 = 2537;
pub const MDC_ATTR_DEV_CONFIG_ID: u16 = 2628;
pub const MDC_ATTR_MDS_TIME_INFO: u16 = 2629;
pub const MDC_ATTR_METRIC_SPEC_SMALL: u16 = 2630;
pub const MDC_ATTR_SOURCE_HANDLE_REF: u16 = 2631;
pub const MDC_ATTR_SIMP_SA_OBS_VAL: u16 = 2632;
pub const MDC_ATTR_ENUM_OBS_VAL_SIMP_OID: u16 = 2633;
pub const MDC_ATTR_ENUM_OBS_VAL_SIMP_STR: u16 = 2634;
pub const MDC_REG_CERT_DATA_LIST: u16 = 2635;
pub const MDC_ATTR_NU_VAL_OBS_BASIC: u16 = 2636;
pub const MDC_ATTR_PM_STORE_CAPAB: u16 = 2637;
pub const MDC_ATTR_PM_SEG_MAP: u16 = 2638;
pub const MDC_ATTR_PM_SEG_PERSON_ID: u16 = 2639;
pub const MDC_ATTR_SEG_STATS: u16 = 2640;
pub const MDC_ATTR_SEG_FIXED_DATA: u16 = 2641;
pub const MDC_ATTR_SCAN_HANDLE_ATTR_VAL_MAP: u16 = 2643;
pub const MDC_ATTR_SCAN_REP_PD_MIN: u16 = 2644;
pub const MDC_ATTR_ATTRIBUTE_VAL_MAP: u16 = 2645;
pub const MDC_ATTR_NU_VAL_OBS_SIMP: u16 = 2646;
pub const MDC_ATTR_PM_STORE_LABEL_STRING: u16 = 2647;
pub const MDC_ATTR_PM_SEG_LABEL_STRING: u16 = 2648;
pub const MDC_ATTR_TIME_PD_MSMT_ACTIVE: u16 = 2649;
pub const MDC_ATTR_SYS_TYPE_SPEC_LIST: u16 = 2650;
pub const MDC_ATTR_METRIC_ID_PART: u16 = 2655;
pub const MDC_ATTR_ENUM_OBS_VAL_PART: u16 = 2656;
pub const MDC_ATTR_SUPPLEMENTAL_TYPES: u16 = 2657;
pub const MDC_ATTR_TIME_ABS_ADJUST: u16 = 2658;
pub const MDC_ATTR_CLEAR_TIMEOUT: u16 = 2659;
pub const MDC_ATTR_TRANSFER_TIMEOUT: u16 = 2660;
pub const MDC_ATTR_ENUM_OBS_VAL_SIMP_BIT_STR: u16 = 2661;
pub const MDC_ATTR_ENUM_OBS_VAL_BASIC_BIT_STR: u16 = 2662;
pub const MDC_ATTR_METRIC_STRUCT_SMALL: u16 = 2675;
pub const MDC_ATTR_NU_CMPD_VAL_OBS_SIMP: u16 = 2676;
pub const MDC_ATTR_NU_CMPD_VAL_OBS_BASIC: u16 = 2677;
pub const MDC_ATTR_ID_PHYSIO_LIST: u16 = 2678;
pub const MDC_ATTR_SCAN_HANDLE_LIST: u16 = 2679;
pub const MDC_ATTR_TIME_BO: u16 = 2689;
pub const MDC_ATTR_TIME_STAMP_BO: u16 = 2690;
pub const MDC_ATTR_TIME_START_SEG_BO: u16 = 2691;
pub const MDC_ATTR_TIME_END_SEG_BO: u16 = 2692;

/// The 16-bit number whose big-endian bytes are `hi`, `lo`.
pub open spec fn be16(hi: u8, lo: u8) -> int {
    hi as int * 256 + lo as int
}

/// The 32-bit number whose big-endian bytes are `b0`, `b1`, `b2`, `b3`.
pub open spec fn be32(b0: u8, b1: u8, b2: u8, b3: u8) -> int {
    b0 as int * 16777216 + b1 as int * 65536 + b2 as int * 256 + b3 as int
}

/// The big-endian 16-bit number at `offset` in `bytes`.
pub open spec fn be16_at(bytes: Seq<u8>, offset: int) -> int
    recommends
        0 <= offset,
        offset + 2 <= bytes.len(),
{
    be16(bytes[offset], bytes[offset + 1])
}

/// The big-endian 32-bit number at `offset` in `bytes`.
pub open spec fn be32_at(bytes: Seq<u8>, offset: int) -> int
    recommends
        0 <= offset,
        offset + 4 <= bytes.len(),
{
    be32(bytes[offset], bytes[offset + 1], bytes[offset + 2], bytes[offset + 3])
}

/// The two bytes that encode `value` in big-endian order.
pub open spec fn be16_bytes(value: int) -> Seq<u8>
    recommends
        0 <= value < 65536,
{
    seq![(value / 256) as u8, (value % 256) as u8]
}

/// The four bytes that encode `value` in big-endian order.
pub open spec fn be32_bytes(value: int) -> Seq<u8>
    recommends
        0 <= value < 4294967296,
{
    seq![
        (value / 16777216) as u8,
        (value / 65536 % 256) as u8,
        (value / 256 % 256) as u8,
        (value % 256) as u8,
    ]
}

/// What is written is read back: the two bytes that encode a 16-bit number
/// decode to that number, wherever they stand in a buffer.
pub proof fn lemma_be16_round_trip(before: Seq<u8>, value: u16, after: Seq<u8>)
    ensures
        be16_at(before + be16_bytes(value as int) + after, before.len() as int) == value,
{
    let all = before + be16_bytes(value as int) + after;
    let at = before.len() as int;
    assert(all[at] == be16_bytes(value as int)[0]);
    assert(all[at + 1] == be16_bytes(value as int)[1]);
}

/// What is written is read back: the four bytes that encode a 32-bit number
/// decode to that number, wherever they stand in a buffer.
pub proof fn lemma_be32_round_trip(before: Seq<u8>, value: u32, after: Seq<u8>)
    ensures
        be32_at(before + be32_bytes(value as int) + after, before.len() as int) == value,
{
    let all = before + be32_bytes(value as int) + after;
    let at = before.len() as int;
    assert(all[at] == be32_bytes(value as int)[0]);
    assert(all[at + 1] == be32_bytes(value as int)[1]);
    assert(all[at + 2] == be32_bytes(value as int)[2]);
    assert(all[at + 3] == be32_bytes(value as int)[3]);
}

/// The big-endian reading of two bytes is the high byte shifted left by
/// eight bits, or-ed with the low byte; the bytes that encode a number are its
/// high and its low eight bits.
pub proof fn lemma_be16_bits(hi: u8, lo: u8, value: u16)
    ensures
        be16(hi, lo) == ((hi as u16) << 8) | (lo as u16),
        be16_bytes(value as int) == seq![(value >> 8) as u8, (value & 0xFF) as u8],
{
    assert((((hi as u16) << 8) | (lo as u16)) == (hi as u16) * 256 + (lo as u16)) by (bit_vector);
    assert((value >> 8) == value / 256 && (value & 0xFF) == value % 256) by (bit_vector);
}

/// Appends `value` to `buffer` as two big-endian bytes.
pub fn write_be16(buffer: &mut Vec<u8>, value: u16)
    ensures
        final(buffer)@ == old(buffer)@ + be16_bytes(value as int),
{
    let hi: u8 = (value / 256) as u8;
    let lo: u8 = (value % 256) as u8;
    buffer.push(hi);
    buffer.push(lo);
    assert(buffer@ =~= old(buffer)@ + be16_bytes(value as int));
}

/// Appends `value` to `buffer` as four big-endian bytes.
pub fn write_be32(buffer: &mut Vec<u8>, value: u32)
    ensures
        final(buffer)@ == old(buffer)@ + be32_bytes(value as int),
{
    let b0: u8 = (value / 16777216) as u8;
    let b1: u8 = (value / 65536 % 256) as u8;
    let b2: u8 = (value / 256 % 256) as u8;
    let b3: u8 = (value % 256) as u8;
    buffer.push(b0);
    buffer.push(b1);
    buffer.push(b2);
    buffer.push(b3);
    assert(buffer@ =~= old(buffer)@ + be32_bytes(value as int));
}

/// Reads the big-endian 16-bit number at `offset`.
pub fn read_be16(buffer: &[u8], offset: usize) -> (value: u16)
    requires
        offset + 2 <= buffer@.len(),
    ensures
        value as int == be16_at(buffer@, offset as int),
{
    let hi: u16 = buffer[offset] as u16;
    let lo: u16 = buffer[offset + 1] as u16;
    hi * 256 + lo
}

/// Reads the big-endian 32-bit number at `offset`.
pub fn read_be32(buffer: &[u8], offset: usize) -> (value: u32)
    requires
        offset + 4 <= buffer@.len(),
    ensures
        value as int == be32_at(buffer@, offset as int),
{
    let b0: u32 = buffer[offset] as u32;
    let b1: u32 = buffer[offset + 1] as u32;
    let b2: u32 = buffer[offset + 2] as u32;
    let b3: u32 = buffer[offset + 3] as u32;
    b0 * 16777216 + b1 * 65536 + b2 * 256 + b3
}

/// The name of an object or attribute class, for the classes that a
/// configuration report of the meter is known to hold.
pub open spec fn mdc_name(value: u16) -> Option<Seq<char>> {
    if value == 4 {
        Some("MDC_MOC_VMO_METRIC"@)
    } else if value == 5 {
        Some("MDC_MOC_VMO_METRIC_ENUM"@)
    } else if value == 6 {
        Some("MDC_MOC_VMO_METRIC_NU"@)
    } else if value == 9 {
        Some("MDC_MOC_VMO_METRIC_SA_RT"@)
    } else if value == 16 {
        Some("MDC_MOC_SCAN"@)
    } else if value == 17 {
        Some("MDC_MOC_SCAN_CFG"@)
    } else if value == 18 {
        Some("MDC_MOC_SCAN_CFG_EPI"@)
    } else if value == 19 {
        Some("MDC_MOC_SCAN_CFG_PERI"@)
    } else if value == 37 {
        Some("MDC_MOC_VMS_MDS_SIMP"@)
    } else if value == 61 {
        Some("MDC_MOC_VMO_PMSTORE"@)
    } else if value == 62 {
        Some("MDC_MOC_PM_SEGMENT"@)
    } else if value == 2385 {
        Some("MDC_ATTR_NUM_SEG"@)
    } else {
        None
    }
}

/// Looks up the name of an object or attribute class.
pub fn find_mdc_name(value: u16) -> (name: Option<&'static str>)
    ensures
        match name {
            Some(text) => mdc_name(value) == Some(text@),
            None => mdc_name(value) is None,
        },
{
    match value {
        4 => Some("MDC_MOC_VMO_METRIC"),
        5 => Some("MDC_MOC_VMO_METRIC_ENUM"),
        6 => Some("MDC_MOC_VMO_METRIC_NU"),
        9 => Some("MDC_MOC_VMO_METRIC_SA_RT"),
        16 => Some("MDC_MOC_SCAN"),
        17 => Some("MDC_MOC_SCAN_CFG"),
        18 => Some("MDC_MOC_SCAN_CFG_EPI"),
        19 => Some("MDC_MOC_SCAN_CFG_PERI"),
        37 => Some("MDC_MOC_VMS_MDS_SIMP"),
        61 => Some("MDC_MOC_VMO_PMSTORE"),
        62 => Some("MDC_MOC_PM_SEGMENT"),
        2385 => Some("MDC_ATTR_NUM_SEG"),
        _ => None,
    }
}

/// The character that a dump shows for a byte: the byte itself where it is a
/// space or a visible ASCII character, else a dot.
pub open spec fn printable(b: u8) -> char {
    if 0x20 <= b <= 0x7E {
        b as char
    } else {
        '.'
    }
}

/// The cell of a dump line for position `j` of the buffer: two capital
/// hexadecimal digits and a space, or three spaces past the end of the buffer.
pub open spec fn hex_cell(bytes: Seq<u8>, j: int) -> Seq<char> {
    if 0 <= j < bytes.len() {
        hex_padded(bytes[j] as nat, true, 2) + " "@
    } else {
        "   "@
    }
}

/// The cells for the `n` positions from `start` on, one after the other.
pub open spec fn hex_cells(bytes: Seq<u8>, start: int, n: nat) -> Seq<char>
    decreases n,
{
    if n == 0 {
        Seq::empty()
    } else {
        hex_cells(bytes, start, (n - 1) as nat) + hex_cell(bytes, start + n - 1)
    }
}

/// The number of bytes on line `row` of a dump: sixteen, but for a shorter
/// last line.
pub open spec fn dump_row_len(bytes: Seq<u8>, row: int) -> nat {
    if 16 * row + 16 <= bytes.len() {
        16
    } else if 16 * row < bytes.len() {
        (bytes.len() - 16 * row) as nat
    } else {
        0
    }
}

/// Line `row` of the dump of `bytes`: sixteen cells, three spaces, and the
/// bytes of the line as characters.
pub open spec fn hex_dump_line(bytes: Seq<u8>, row: int) -> Seq<char> {
    hex_cells(bytes, 16 * row, 16) + "   "@ + Seq::new(
        dump_row_len(bytes, row),
        |k: int| printable(bytes[16 * row + k]),
    )
}

/// The number of lines in the dump of `len` bytes.
pub open spec fn dump_rows(len: nat) -> nat {
    (len + 15) / 16
}

/// The dump of `bytes`, line by line, sixteen bytes to a line.
pub open spec fn hex_dump_lines(bytes: Seq<u8>) -> Seq<Seq<char>> {
    Seq::new(dump_rows(bytes.len()), |row: int| hex_dump_line(bytes, row))
}

fn printable_char(b: u8) -> (c: char)
    ensures
        c == printable(b),
{
    if 0x20 <= b && b <= 0x7E {
        b as char
    } else {
        '.'
    }
}

/// Renders the line of a dump that starts at position `start`.
fn dump_line(buffer: &[u8], start: usize) -> (line: String)
    requires
        start % 16 == 0,
        start < buffer@.len(),
    ensures
        line@ == hex_dump_line(buffer@, start as int / 16),
{
    let len = buffer.len();
    let end: usize = if len - start < 16 {
        len
    } else {
        start + 16
    };
    let mut line = String::new();
    let mut j: usize = 0;
    while j < 16
        invariant
            j <= 16,
            len == buffer@.len(),
            start < len,
            line@ == hex_cells(buffer@, start as int, j as nat),
        decreases 16 - j,
    {
        if j < len - start {
            push_hex_padded(&mut line, buffer[start + j] as u64, true, 2);
            push_text(&mut line, " ");
        } else {
            push_text(&mut line, "   ");
        }
        j = j + 1;
        assert(line@ =~= hex_cells(buffer@, start as int, j as nat));
    }
    push_text(&mut line, "   ");
    let ghost head = line@;
    let mut k: usize = start;
    while k < end
        invariant
            start <= k <= end <= len,
            len == buffer@.len(),
            head == hex_cells(buffer@, start as int, 16) + "   "@,
            line@ == head + Seq::new((k - start) as nat, |i: int| printable(buffer@[start + i])),
        decreases end - k,
    {
        line.push(printable_char(buffer[k]));
        k = k + 1;
        assert(line@ =~= head + Seq::new(
            (k - start) as nat,
            |i: int| printable(buffer@[start + i]),
        ));
    }
    assert(line@ =~= hex_dump_line(buffer@, start as int / 16));
    line
}

/// Renders `buffer` as a dump, sixteen bytes to a line: each byte as two
/// capital hexadecimal digits, then the bytes of the line as characters.
pub fn hex_dump(buffer: &[u8]) -> (lines: Vec<String>)
    ensures
        lines.deep_view() == hex_dump_lines(buffer@),
{
    let len = buffer.len();
    let rows: usize = if len % 16 == 0 {
        len / 16
    } else {
        len / 16 + 1
    };
    let mut lines: Vec<String> = Vec::new();
    let mut row: usize = 0;
    while row < rows
        invariant
            len == buffer@.len(),
            rows == dump_rows(len as nat),
            row <= rows,
            lines@.len() == row,
            forall|r: int|
                0 <= r < lines@.len() ==> (#[trigger] lines@[r])@ == hex_dump_line(buffer@, r),
        decreases rows - row,
    {
        let line = dump_line(buffer, row * 16);
        lines.push(line);
        row = row + 1;
    }
    assert(lines.deep_view() =~= hex_dump_lines(buffer@));
    lines
}

/// The line that opens the dump of a named buffer.
pub open spec fn dump_header(name: Seq<char>, len: nat) -> Seq<char> {
    "hexdump of buffer:\n\nBUFFER START \""@ + name + "\" size="@ + decimal(len) + " (0x"@ + numeral(len, 16, false)
        + ") ==============================================="@
}

/// The line that closes the dump of a named buffer.
pub open spec fn dump_footer() -> Seq<char> {
    "BUFFER END ============================================================================================\n"@
}

/// Renders `buffer` as a dump between a line that gives `name` and the size
/// of the buffer, in decimal and in hexadecimal, and a closing line.
pub fn hex_dump_with_header(name: &str, buffer: &[u8]) -> (lines: Vec<String>)
    ensures
        lines.deep_view() == seq![dump_header(name@, buffer@.len())] + hex_dump_lines(buffer@)
            + seq![dump_footer()],
{
    let mut header = String::new();
    push_text(&mut header, "hexdump of buffer:\n\nBUFFER START \"");
    push_text(&mut header, name);
    push_text(&mut header, "\" size=");
    push_decimal(&mut header, buffer.len() as u64);
    push_text(&mut header, " (0x");
    push_numeral(&mut header, buffer.len() as u64, 16, false);
    push_text(&mut header, ") ===============================================");
    let mut lines: Vec<String> = Vec::new();
    lines.push(header);
    let mut body = hex_dump(buffer);
    let ghost body_lines = body.deep_view();
    lines.append(&mut body);
    lines.push(String::from_str("BUFFER END ============================================================================================\n"));
    assert(lines.deep_view() =~= seq![dump_header(name@, buffer@.len())] + hex_dump_lines(buffer@)
        + seq![dump_footer()]);
    lines
}

} // verus!
