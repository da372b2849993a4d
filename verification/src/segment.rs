//! The measurements held in one segment buffer.
//!
//! A segment buffer carries a 16-bit entry count at offset 30 and, from offset
//! 36 on, one record of twelve bytes per entry: six bytes of packed decimal
//! date and time (century, year, month, day, hour, minute), two bytes that are
//! not read, the 16-bit concentration and the 16-bit status. Only entries of
//! status zero are measurements.

use crate::calendar::{utc_timestamp, utc_timestamp_of};
use crate::error::{fails_with, protocol_error, AccuChekError, ErrorView};
use crate::locator::truncated_text;
use crate::protocol::{be16_at, read_be16};
use crate::text::{decimal_padded, push_decimal_padded, push_text};
use vstd::prelude::*;

verus! {

/// Offset of the entry count in a segment buffer; the records are laid out
/// relative to it.
pub const SEGMENT_ENTRIES_OFFSET: usize = 30;

/// Bytes from one record to the next.
pub const SEGMENT_ENTRY_STRIDE: usize = 12;

/// The value in mg/dL that makes one mmol/L.
pub const MG_DL_PER_MMOL_L: u16 = 18;

/// One stored measurement.
#[derive(Debug)]
pub struct GlucoseReading {
    /// Position of the reading in the download, counted from the caller's
    /// first id.
    pub id: usize,
    /// Unix time of the reading, its date and time taken as UTC; zero where
    /// the device sent a date or time that does not exist.
    pub epoch: i64,
    /// Date and time as the device sent them, as `YYYY/MM/DD HH:MM`.
    pub timestamp: String,
    /// Concentration in mg/dL. The value in mmol/L is this number divided by
    /// `MG_DL_PER_MMOL_L`.
    pub mg_dl: u16,
}

/// A `GlucoseReading` with its text as a sequence of characters.
pub struct ReadingView {
    pub id: usize,
    pub epoch: i64,
    pub timestamp: Seq<char>,
    pub mg_dl: u16,
}

impl View for GlucoseReading {
    type V = ReadingView;

    open spec fn view(&self) -> ReadingView {
        ReadingView {
            id: self.id,
            epoch: self.epoch,
            timestamp: self.timestamp@,
            mg_dl: self.mg_dl,
        }
    }
}

/// The views of a sequence of readings.
pub open spec fn reading_views(readings: Seq<GlucoseReading>) -> Seq<ReadingView> {
    readings.map_values(|r: GlucoseReading| r@)
}

/// The fields of one record of a segment buffer, decoded.
#[derive(Debug, Clone, Copy, PartialEq, Eq, Structural)]
pub struct SegmentEntry {
    pub century: u32,
    pub year: u32,
    pub month: u32,
    pub day: u32,
    pub hour: u32,
    pub minute: u32,
    pub value: u16,
    pub status: u16,
}

/// The number that a byte of two packed decimal digits stands for: ten times
/// the high nibble plus the low nibble.
pub open spec fn bcd_value(b: u8) -> int {
    (b as int / 16) * 10 + b as int % 16
}

/// Decodes a byte of two packed decimal digits. Nibbles above nine are taken
/// at their value, so that every byte decodes.
pub fn decode_bcd(b: u8) -> (value: u32)
    ensures
        value as int == bcd_value(b),
        value as int == (b >> 4) * 10 + (b & 0xF),
        value <= 165,
{
    assert(b >> 4 == b / 16 && b & 0xF == b % 16) by (bit_vector);
    let hi: u8 = b / 16;
    let lo: u8 = b % 16;
    (hi * 10 + lo) as u32
}

/// The number of entries that a segment buffer declares; zero for a buffer
/// too short to hold the count.
pub open spec fn declared_entries(bytes: Seq<u8>) -> nat {
    if bytes.len() >= 32 {
        be16_at(bytes, 30) as nat
    } else {
        0
    }
}

/// The buffer holds its entry count and every record that it declares.
pub open spec fn segment_fits(bytes: Seq<u8>) -> bool {
    bytes.len() >= 32 && (declared_entries(bytes) == 0 || bytes.len() >= 36 + 12
        * declared_entries(bytes))
}

/// Entry `i` of a segment buffer.
pub open spec fn entry_at(bytes: Seq<u8>, i: nat) -> SegmentEntry {
    let base: int = 30 + 12 * (i as int);
    SegmentEntry {
        century: bcd_value(bytes[base + 6]) as u32,
        year: bcd_value(bytes[base + 7]) as u32,
        month: bcd_value(bytes[base + 8]) as u32,
        day: bcd_value(bytes[base + 9]) as u32,
        hour: bcd_value(bytes[base + 10]) as u32,
        minute: bcd_value(bytes[base + 11]) as u32,
        value: be16_at(bytes, base + 14) as u16,
        status: be16_at(bytes, base + 16) as u16,
    }
}

impl SegmentEntry {
    /// The four-digit year: a hundred times the century plus the year in it.
    pub open spec fn full_year(self) -> int {
        self.century * 100 + self.year
    }

    /// The date and time as `YYYY/MM/DD HH:MM`, each field zero-padded to its
    /// width and printed as it is, whether or not such a date exists.
    pub open spec fn timestamp_text(self) -> Seq<char> {
        decimal_padded(self.full_year() as nat, 4) + "/"@ + decimal_padded(self.month as nat, 2)
            + "/"@ + decimal_padded(self.day as nat, 2) + " "@ + decimal_padded(
            self.hour as nat,
            2,
        ) + ":"@ + decimal_padded(self.minute as nat, 2)
    }

    /// A field of the date or time lies outside the range that any calendar
    /// date or time of day can have.
    pub open spec fn outside_calendar(self) -> bool {
        self.month < 1 || self.month > 12 || self.day < 1 || self.day > 31 || self.hour > 23
            || self.minute > 59
    }

    /// The Unix time of the entry's date and time, taken as UTC; `None` where
    /// no such date or time exists.
    pub open spec fn utc_time(self) -> Option<i64> {
        if self.outside_calendar() {
            None
        } else {
            utc_timestamp(
                self.full_year(),
                self.month as int,
                self.day as int,
                self.hour as int,
                self.minute as int,
            )
        }
    }

    /// The reading that the entry yields under `id`, given the Unix time that
    /// was computed for it: a time that could not be computed reads as zero.
    pub open spec fn reading_with(self, id: usize, time: Option<i64>) -> ReadingView {
        ReadingView {
            id,
            epoch: match time {
                Some(t) => t,
                None => 0,
            },
            timestamp: self.timestamp_text(),
            mg_dl: self.value,
        }
    }

    /// The reading that the entry yields under `id`.
    pub open spec fn reading(self, id: usize) -> ReadingView {
        self.reading_with(id, self.utc_time())
    }

    /// Builds the reading that the entry yields under `id`, given the Unix
    /// time that was computed for its date and time.
    pub fn to_reading(&self, id: usize, time: Option<i64>) -> (reading: GlucoseReading)
        ensures
            reading@ == self.reading_with(id, time),
    {
        let year: u64 = self.century as u64 * 100 + self.year as u64;
        let mut timestamp = String::new();
        push_decimal_padded(&mut timestamp, year, 4);
        push_text(&mut timestamp, "/");
        push_decimal_padded(&mut timestamp, self.month as u64, 2);
        push_text(&mut timestamp, "/");
        push_decimal_padded(&mut timestamp, self.day as u64, 2);
        push_text(&mut timestamp, " ");
        push_decimal_padded(&mut timestamp, self.hour as u64, 2);
        push_text(&mut timestamp, ":");
        push_decimal_padded(&mut timestamp, self.minute as u64, 2);
        let epoch: i64 = match time {
            Some(t) => t,
            None => 0,
        };
        GlucoseReading { id, epoch, timestamp, mg_dl: self.value }
    }
}

/// The readings that the first `n` entries of a segment buffer yield, in the
/// order of the entries, numbered from `first_id` without gaps: an entry of
/// status zero yields one reading, any other entry none.
pub open spec fn readings_of_prefix(bytes: Seq<u8>, n: nat, first_id: usize) -> Seq<ReadingView>
    decreases n,
{
    if n == 0 {
        Seq::empty()
    } else {
        let before = readings_of_prefix(bytes, (n - 1) as nat, first_id);
        let entry = entry_at(bytes, (n - 1) as nat);
        if entry.status == 0 {
            before.push(entry.reading((first_id + before.len()) as usize))
        } else {
            before
        }
    }
}

/// The readings that a segment buffer yields, numbered from `first_id`.
pub open spec fn segment_readings(bytes: Seq<u8>, first_id: usize) -> Seq<ReadingView> {
    readings_of_prefix(bytes, declared_entries(bytes), first_id)
}

/// The entries that a segment buffer declares, in their order.
pub open spec fn entries(bytes: Seq<u8>) -> Seq<SegmentEntry> {
    Seq::new(declared_entries(bytes), |i: int| entry_at(bytes, i as nat))
}

/// The test that tells measurements from other entries: a status of zero.
pub open spec fn is_measurement() -> spec_fn(SegmentEntry) -> bool {
    |entry: SegmentEntry| entry.status == 0
}

/// The entries of a sequence turned into readings, numbered from `first_id`
/// without gaps.
pub open spec fn numbered(entries: Seq<SegmentEntry>, first_id: usize) -> Seq<ReadingView> {
    Seq::new(entries.len(), |k: int| entries[k].reading((first_id + k) as usize))
}

/// An entry whose status is not zero yields no reading: the readings of the
/// entries up to and with it are those of the entries before it.
pub proof fn lemma_invalid_entry_skipped(bytes: Seq<u8>, n: nat, first_id: usize)
    requires
        entry_at(bytes, n).status != 0,
    ensures
        readings_of_prefix(bytes, n + 1, first_id) == readings_of_prefix(bytes, n, first_id),
{
}

/// A valid entry yields one more reading, under the id that follows the ids
/// given out before it.
pub proof fn lemma_valid_entry_appended(bytes: Seq<u8>, n: nat, first_id: usize)
    requires
        entry_at(bytes, n).status == 0,
    ensures
        readings_of_prefix(bytes, n + 1, first_id) == readings_of_prefix(bytes, n, first_id).push(
            entry_at(bytes, n).reading(
                (first_id + readings_of_prefix(bytes, n, first_id).len()) as usize,
            ),
        ),
{
}

/// The readings of the first `n` entries are the entries of status zero
/// among them, in their order, numbered from `first_id` without gaps.
pub proof fn lemma_prefix_readings_are_valid_entries(bytes: Seq<u8>, n: nat, first_id: usize)
    requires
        n <= declared_entries(bytes),
    ensures
        readings_of_prefix(bytes, n, first_id) == numbered(
            entries(bytes).take(n as int).filter(is_measurement()),
            first_id,
        ),
    decreases n,
{
    reveal(Seq::filter);
    let all = entries(bytes);
    if n == 0 {
        assert(all.take(0).filter(is_measurement()) =~= Seq::<SegmentEntry>::empty());
        assert(readings_of_prefix(bytes, n, first_id) =~= numbered(
            all.take(0).filter(is_measurement()),
            first_id,
        ));
    } else {
        let m = (n - 1) as nat;
        lemma_prefix_readings_are_valid_entries(bytes, m, first_id);
        assert(all.take(n as int).drop_last() =~= all.take(m as int));
        assert(all.take(n as int).last() == entry_at(bytes, m));
        assert(readings_of_prefix(bytes, n, first_id) =~= numbered(
            all.take(n as int).filter(is_measurement()),
            first_id,
        ));
    }
}

/// A segment buffer yields exactly its entries of status zero, in their
/// order, numbered from `first_id` without gaps; entries of any other status
/// yield nothing and take no id.
pub proof fn lemma_segment_readings_are_valid_entries(bytes: Seq<u8>, first_id: usize)
    ensures
        segment_readings(bytes, first_id) == numbered(
            entries(bytes).filter(is_measurement()),
            first_id,
        ),
        segment_readings(bytes, first_id).len() <= declared_entries(bytes),
{
    let all = entries(bytes);
    lemma_prefix_readings_are_valid_entries(bytes, declared_entries(bytes), first_id);
    assert(all.take(all.len() as int) =~= all);
    all.lemma_filter_len(is_measurement());
}

/// The number of entries of status zero among the first `n` entries of a
/// segment buffer.
pub open spec fn measurements_in_prefix(bytes: Seq<u8>, n: nat) -> nat
    decreases n,
{
    if n == 0 {
        0
    } else {
        measurements_in_prefix(bytes, (n - 1) as nat) + if entry_at(bytes, (n - 1) as nat).status
            == 0 {
            1nat
        } else {
            0nat
        }
    }
}

/// The number of entries of status zero that a segment buffer declares.
pub open spec fn measurements(bytes: Seq<u8>) -> nat {
    measurements_in_prefix(bytes, declared_entries(bytes))
}

/// The index of the entry that yields reading `j` among the first `n`
/// entries: the entry of status zero before which stand exactly `j` entries of
/// status zero.
pub open spec fn measurement_index(bytes: Seq<u8>, n: nat, j: nat) -> nat
    decreases n,
{
    if n == 0 {
        0
    } else if entry_at(bytes, (n - 1) as nat).status == 0 && measurements_in_prefix(
        bytes,
        (n - 1) as nat,
    ) == j {
        (n - 1) as nat
    } else {
        measurement_index(bytes, (n - 1) as nat, j)
    }
}

/// A packed decimal byte stands for ten times its high nibble plus its low
/// nibble; with both nibbles from 0 to 9 that is a number below a hundred.
pub proof fn lemma_bcd_value_bits(b: u8)
    ensures
        bcd_value(b) == (b >> 4) * 10 + (b & 0xF),
        0 <= bcd_value(b) <= 165,
        (b >> 4) <= 9 && (b & 0xF) <= 9 ==> bcd_value(b) <= 99,
{
    assert(b >> 4 == b / 16 && b & 0xF == b % 16) by (bit_vector);
}

/// The entries of status zero grow in number with the prefix, and are never
/// more than the entries.
pub proof fn lemma_measurements_grow(bytes: Seq<u8>, m: nat, n: nat)
    requires
        m <= n,
    ensures
        measurements_in_prefix(bytes, m) <= measurements_in_prefix(bytes, n),
        measurements_in_prefix(bytes, n) <= n,
    decreases n,
{
    if n > 0 {
        if m < n {
            lemma_measurements_grow(bytes, m, (n - 1) as nat);
        } else {
            lemma_measurements_grow(bytes, (n - 1) as nat, (n - 1) as nat);
        }
    }
}

/// One reading for each entry of status zero, and none for any other: the
/// readings of the first `n` entries are as many as the entries of status zero
/// among them, whatever the first id.
pub proof fn lemma_readings_count(bytes: Seq<u8>, n: nat, first_id: usize)
    ensures
        readings_of_prefix(bytes, n, first_id).len() == measurements_in_prefix(bytes, n),
    decreases n,
{
    if n > 0 {
        lemma_readings_count(bytes, (n - 1) as nat, first_id);
    }
}

/// A segment buffer yields as many readings as it declares entries of
/// status zero, never more than it declares entries.
pub proof fn lemma_segment_readings_count(bytes: Seq<u8>, first_id: usize)
    ensures
        segment_readings(bytes, first_id).len() == measurements(bytes),
        measurements(bytes) <= declared_entries(bytes),
        measurements(bytes) == entries(bytes).filter(is_measurement()).len(),
{
    lemma_readings_count(bytes, declared_entries(bytes), first_id);
    lemma_measurements_grow(bytes, 0, declared_entries(bytes));
    lemma_segment_readings_are_valid_entries(bytes, first_id);
}

/// Reading `j` of the first `n` entries comes from the entry of status zero
/// before which stand exactly `j` entries of status zero, and is that entry's
/// reading.
pub proof fn lemma_reading_source(bytes: Seq<u8>, n: nat, first_id: usize, j: nat)
    requires
        j < measurements_in_prefix(bytes, n),
    ensures
        measurement_index(bytes, n, j) < n,
        entry_at(bytes, measurement_index(bytes, n, j)).status == 0,
        measurements_in_prefix(bytes, measurement_index(bytes, n, j)) == j,
        j < readings_of_prefix(bytes, n, first_id).len(),
        readings_of_prefix(bytes, n, first_id)[j as int] == entry_at(
            bytes,
            measurement_index(bytes, n, j),
        ).reading((first_id + j) as usize),
    decreases n,
{
    lemma_readings_count(bytes, n, first_id);
    if n > 0 {
        let m = (n - 1) as nat;
        lemma_readings_count(bytes, m, first_id);
        if !(entry_at(bytes, m).status == 0 && measurements_in_prefix(bytes, m) == j) {
            lemma_reading_source(bytes, m, first_id, j);
        }
    }
}

/// The readings of a segment buffer are its entries of status zero, in the
/// order of the buffer and with nothing between them. Reading `j` comes from the
/// entry of status zero before which stand exactly `j` such entries: it carries
/// that entry's value and the text of its date and time, and, where the counter
/// can take the readings, the id `first_id + j`.
pub proof fn lemma_readings_in_buffer_order(bytes: Seq<u8>, first_id: usize, j: nat)
    requires
        j < measurements(bytes),
    ensures
        ({
            let i = measurement_index(bytes, declared_entries(bytes), j);
            let reading = segment_readings(bytes, first_id)[j as int];
            &&& i < declared_entries(bytes)
            &&& entry_at(bytes, i).status == 0
            &&& measurements_in_prefix(bytes, i) == j
            &&& j < segment_readings(bytes, first_id).len()
            &&& reading == entry_at(bytes, i).reading((first_id + j) as usize)
            &&& reading.mg_dl == be16_at(bytes, 44 + 12 * (i as int))
            &&& reading.timestamp == entry_at(bytes, i).timestamp_text()
            &&& counter_fits(bytes, first_id) ==> reading.id == first_id + j
        }),
{
    lemma_reading_source(bytes, declared_entries(bytes), first_id, j);
    lemma_segment_readings_count(bytes, first_id);
}

/// A later reading comes from a later entry.
pub proof fn lemma_reading_sources_rise(bytes: Seq<u8>, j: nat, k: nat)
    requires
        j < k < measurements(bytes),
    ensures
        measurement_index(bytes, declared_entries(bytes), j) < measurement_index(
            bytes,
            declared_entries(bytes),
            k,
        ),
{
    let n = declared_entries(bytes);
    lemma_reading_source(bytes, n, 0, j);
    lemma_reading_source(bytes, n, 0, k);
    let a = measurement_index(bytes, n, j);
    let b = measurement_index(bytes, n, k);
    if a >= b {
        lemma_measurements_grow(bytes, b, a);
    }
}

/// The ids of the readings of a segment buffer rise by one from `first_id`:
/// none is used twice and none is left out.
pub proof fn lemma_segment_ids_consecutive(bytes: Seq<u8>, first_id: usize)
    requires
        counter_fits(bytes, first_id),
    ensures
        forall|k: int|
            0 <= k < segment_readings(bytes, first_id).len() ==> (#[trigger] segment_readings(
                bytes,
                first_id,
            )[k]).id == first_id + k,
{
    lemma_segment_readings_are_valid_entries(bytes, first_id);
    lemma_segment_readings_count(bytes, first_id);
}

/// A segment buffer whose entries all have status zero yields one reading
/// for each entry, in the order of the entries; where the counter can take
/// them, entry `k` has the id `first_id + k`.
pub proof fn lemma_all_valid_yields_all(bytes: Seq<u8>, first_id: usize)
    requires
        forall|i: nat| i < declared_entries(bytes) ==> (#[trigger] entry_at(bytes, i)).status == 0,
    ensures
        segment_readings(bytes, first_id).len() == declared_entries(bytes),
        measurements(bytes) == declared_entries(bytes),
        forall|k: int|
            0 <= k < declared_entries(bytes) ==> #[trigger] segment_readings(bytes, first_id)[k]
                == entry_at(bytes, k as nat).reading((first_id + k) as usize),
        counter_fits(bytes, first_id) ==> forall|k: int|
            0 <= k < declared_entries(bytes) ==> (#[trigger] segment_readings(
                bytes,
                first_id,
            )[k]).id == first_id + k,
{
    lemma_all_valid_prefix(bytes, declared_entries(bytes), first_id);
}

proof fn lemma_all_valid_prefix(bytes: Seq<u8>, n: nat, first_id: usize)
    requires
        forall|i: nat| i < n ==> (#[trigger] entry_at(bytes, i)).status == 0,
    ensures
        readings_of_prefix(bytes, n, first_id).len() == n,
        measurements_in_prefix(bytes, n) == n,
        forall|k: int|
            0 <= k < n ==> #[trigger] readings_of_prefix(bytes, n, first_id)[k] == entry_at(
                bytes,
                k as nat,
            ).reading((first_id + k) as usize),
    decreases n,
{
    if n > 0 {
        lemma_all_valid_prefix(bytes, (n - 1) as nat, first_id);
        assert(entry_at(bytes, (n - 1) as nat).status == 0);
    }
}

/// An entry whose date or time lies outside the calendar (a month of 13, an
/// hour of 24) still yields a reading when its status is zero: its text is
/// printed as it was sent and its Unix time is zero.
pub proof fn lemma_impossible_date_reads_as_zero(entry: SegmentEntry, id: usize)
    requires
        entry.month < 1 || entry.month > 12 || entry.day < 1 || entry.day > 31 || entry.hour > 23
            || entry.minute > 59,
    ensures
        entry.reading(id).epoch == 0,
        entry.reading(id).timestamp == entry.timestamp_text(),
{
}

/// Reads entry `i` of a segment buffer.
pub fn read_entry(buffer: &[u8], i: u16) -> (entry: SegmentEntry)
    requires
        buffer@.len() >= 48 + 12 * i,
    ensures
        entry == entry_at(buffer@, i as nat),
        entry.century <= 165,
        entry.year <= 165,
{
    let base: usize = SEGMENT_ENTRIES_OFFSET + SEGMENT_ENTRY_STRIDE * (i as usize);
    SegmentEntry {
        century: decode_bcd(buffer[base + 6]),
        year: decode_bcd(buffer[base + 7]),
        month: decode_bcd(buffer[base + 8]),
        day: decode_bcd(buffer[base + 9]),
        hour: decode_bcd(buffer[base + 10]),
        minute: decode_bcd(buffer[base + 11]),
        value: read_be16(buffer, base + 14),
        status: read_be16(buffer, base + 16),
    }
}

/// The text of the failure for a reading counter that cannot take the
/// entries of a segment buffer without passing the largest `usize`.
pub open spec fn counter_exhausted_text() -> Seq<char> {
    "Reading counter exhausted"@
}

/// The reading counter can take a reading for every entry of status zero
/// that the buffer declares.
pub open spec fn counter_fits(bytes: Seq<u8>, first_id: usize) -> bool {
    first_id + measurements(bytes) <= usize::MAX
}

/// Appends to `readings` the measurements held in a segment buffer and
/// advances `reading_id` by their number. A buffer that ends before the last
/// record it declares is refused, and so is one whose measurements would take
/// the counter past the largest `usize`; then nothing is changed.
pub fn parse_data(buffer: &[u8], readings: &mut Vec<GlucoseReading>, reading_id: &mut usize) -> (result:
    Result<(), AccuChekError>)
    ensures
        segment_fits(buffer@) && counter_fits(buffer@, *old(reading_id)) ==> {
            &&& result is Ok
            &&& reading_views(final(readings)@) == reading_views(old(readings)@) + segment_readings(
                buffer@,
                *old(reading_id),
            )
            &&& *final(reading_id) == *old(reading_id) + measurements(buffer@)
            &&& segment_readings(buffer@, *old(reading_id)).len() == measurements(buffer@)
        },
        !segment_fits(buffer@) ==> fails_with(result, ErrorView::Protocol(truncated_text())),
        segment_fits(buffer@) && !counter_fits(buffer@, *old(reading_id)) ==> fails_with(
            result,
            ErrorView::Protocol(counter_exhausted_text()),
        ),
        result is Err ==> final(readings)@ == old(readings)@ && *final(reading_id) == *old(
            reading_id,
        ),
{
    if buffer.len() < SEGMENT_ENTRIES_OFFSET + 2 {
        return Err(protocol_error("Response shorter than its layout requires"));
    }
    let nb_entries = read_be16(buffer, SEGMENT_ENTRIES_OFFSET);
    if nb_entries > 0 && (buffer.len() < 36 || buffer.len() - 36 < SEGMENT_ENTRY_STRIDE * (
        nb_entries as usize)) {
        return Err(protocol_error("Response shorter than its layout requires"));
    }
    let ghost first_id = *old(reading_id);
    let ghost bytes = buffer@;
    let mut valid: usize = 0;
    let mut k: u16 = 0;
    while k < nb_entries
        invariant
            bytes == buffer@,
            k <= nb_entries,
            nb_entries == 0 || bytes.len() >= 36 + 12 * nb_entries,
            valid <= k,
            valid == measurements_in_prefix(bytes, k as nat),
        decreases nb_entries - k,
    {
        if read_entry(buffer, k).status == 0 {
            valid = valid + 1;
        }
        k = k + 1;
    }
    if usize::MAX - *reading_id < valid {
        return Err(protocol_error("Reading counter exhausted"));
    }
    let mut i: u16 = 0;
    while i < nb_entries
        invariant
            bytes == buffer@,
            first_id == *old(reading_id),
            i <= nb_entries,
            nb_entries as nat == declared_entries(bytes),
            nb_entries == 0 || bytes.len() >= 36 + 12 * nb_entries,
            first_id + measurements(bytes) <= usize::MAX,
            readings_of_prefix(bytes, i as nat, first_id).len() == measurements_in_prefix(
                bytes,
                i as nat,
            ),
            *reading_id == first_id + measurements_in_prefix(bytes, i as nat),
            reading_views(readings@) == reading_views(old(readings)@) + readings_of_prefix(
                bytes,
                i as nat,
                first_id,
            ),
        decreases nb_entries - i,
    {
        let entry = read_entry(buffer, i);
        if entry.status == 0 {
            proof {
                lemma_measurements_grow(bytes, (i + 1) as nat, nb_entries as nat);
            }
            let year: u32 = entry.century * 100 + entry.year;
            let time = utc_timestamp_of(year as i32, entry.month, entry.day, entry.hour, entry.minute);
            let reading = entry.to_reading(*reading_id, time);
            let ghost before = readings@;
            readings.push(reading);
            *reading_id = *reading_id + 1;
            assert(reading_views(readings@) =~= reading_views(before).push(reading@));
        }
        i = i + 1;
    }
    Ok(())
}

} // verus!
