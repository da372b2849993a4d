//! Locating one object, or one attribute of an object, in a configuration
//! report.
//!
//! Objects and attributes are laid out alike: a run of records, each a header
//! whose first two bytes are the class and whose last two bytes are the size of
//! the body that follows. The scan walks from header to header by the sizes it
//! reads and never looks at more records than were declared.

use crate::error::{fails_with, protocol_error, AccuChekError, ErrorView};
use crate::protocol::{be16_at, read_be16};
use vstd::prelude::*;
use vstd::slice::slice_subrange;

verus! {

/// Offset of the object count in a configuration report.
pub const OBJECT_COUNT_OFFSET: usize = 24;

/// Offset of the first object header in a configuration report.
pub const OBJECT_LIST_OFFSET: usize = 28;

/// Bytes in an object header: class, handle, attribute count, size.
pub const OBJECT_HEADER_LEN: usize = 8;

/// Bytes in an attribute header: class, size.
pub const ATTRIBUTE_HEADER_LEN: usize = 4;

/// The text of the failure for a class that no declared object has.
pub open spec fn object_not_found_text() -> Seq<char> {
    "Object not found in config"@
}

/// The text of the failure for a class that no declared attribute has.
pub open spec fn attribute_not_found_text() -> Seq<char> {
    "Attribute not found"@
}

/// The text of the failure for a buffer that ends before a field the scan
/// has to read.
pub open spec fn truncated_text() -> Seq<char> {
    "Response shorter than its layout requires"@
}

/// Offset of the header of record `k`, for records that start at `start` and
/// have headers of `header_len` bytes. It is meaningful as long as the headers
/// of all earlier records lie inside `bytes`.
pub open spec fn record_offset(bytes: Seq<u8>, start: int, header_len: int, k: nat) -> int
    decreases k,
{
    if k == 0 {
        start
    } else {
        let prev = record_offset(bytes, start, header_len, (k - 1) as nat);
        prev + header_len + be16_at(bytes, prev + header_len - 2)
    }
}

/// The header of record `k` lies inside `bytes`.
pub open spec fn record_fits(bytes: Seq<u8>, start: int, header_len: int, k: nat) -> bool {
    record_offset(bytes, start, header_len, k) + header_len <= bytes.len()
}

/// The class of record `k`.
pub open spec fn record_class(bytes: Seq<u8>, start: int, header_len: int, k: nat) -> int {
    be16_at(bytes, record_offset(bytes, start, header_len, k))
}

/// What a scan for a class comes to.
pub enum Lookup {
    /// The record with this index is the first of the wanted class.
    Found(nat),
    /// None of the declared records is of the wanted class.
    Missing,
    /// The buffer ends inside or before the header of a record that the scan
    /// had to read.
    Truncated,
}

/// The outcome of looking at records `k`, `k + 1`, ... below `count` in turn
/// for the first of class `target`.
pub open spec fn scan_records(
    bytes: Seq<u8>,
    start: int,
    header_len: int,
    target: int,
    k: nat,
    count: nat,
) -> Lookup
    decreases count - k,
{
    if k >= count {
        Lookup::Missing
    } else if !record_fits(bytes, start, header_len, k) {
        Lookup::Truncated
    } else if record_class(bytes, start, header_len, k) == target {
        Lookup::Found(k)
    } else {
        scan_records(bytes, start, header_len, target, k + 1, count)
    }
}

/// The number of objects that a configuration report declares.
pub open spec fn declared_objects(bytes: Seq<u8>) -> nat
    recommends
        bytes.len() >= 28,
{
    be16_at(bytes, 24) as nat
}

/// Offset of the header of object `k` in a configuration report.
pub open spec fn object_offset(bytes: Seq<u8>, k: nat) -> int {
    record_offset(bytes, 28, 8, k)
}

/// The outcome of looking for the first object of class `target` in a
/// configuration report.
pub open spec fn find_object(bytes: Seq<u8>, target: u16) -> Lookup {
    if bytes.len() < 28 {
        Lookup::Truncated
    } else {
        scan_records(bytes, 28, 8, target as int, 0, declared_objects(bytes))
    }
}

/// Offset of the header of attribute `k` in the bytes that follow an object
/// header.
pub open spec fn attribute_offset(bytes: Seq<u8>, k: nat) -> int {
    record_offset(bytes, 0, 4, k)
}

/// The outcome of looking for the first attribute of class `target` among
/// `count` attributes.
pub open spec fn find_attribute(bytes: Seq<u8>, count: u16, target: u16) -> Lookup {
    scan_records(bytes, 0, 4, target as int, 0, count as nat)
}

/// Where a scan ended.
enum Located {
    Found { index: Ghost<nat>, offset: usize },
    Missing,
    Truncated,
}

/// Walks up to `count` records from `start` and stops at the first of class
/// `target`.
fn locate(buffer: &[u8], start: usize, header_len: usize, count: u16, target: u16) -> (r: Located)
    requires
        2 <= header_len <= 8,
        start <= buffer@.len(),
    ensures
        r matches Located::Found { index, offset } ==> {
            &&& scan_records(
                buffer@,
                start as int,
                header_len as int,
                target as int,
                0,
                count as nat,
            ) == Lookup::Found(index@)
            &&& offset as int == record_offset(
                buffer@,
                start as int,
                header_len as int,
                index@,
            )
            &&& start <= offset
            &&& offset + header_len <= buffer@.len()
        },
        r is Missing ==> scan_records(
            buffer@,
            start as int,
            header_len as int,
            target as int,
            0,
            count as nat,
        ) == Lookup::Missing,
        r is Truncated ==> scan_records(
            buffer@,
            start as int,
            header_len as int,
            target as int,
            0,
            count as nat,
        ) == Lookup::Truncated,
{
    let ghost bytes = buffer@;
    let ghost s = start as int;
    let ghost h = header_len as int;
    let ghost t = target as int;
    let ghost n = count as nat;
    let mut offset: usize = start;
    let mut i: u16 = 0;
    while i < count
        invariant
            bytes == buffer@,
            s == start as int,
            h == header_len as int,
            t == target as int,
            n == count as nat,
            2 <= header_len <= 8,
            i <= count,
            start <= offset <= buffer@.len(),
            offset as int == record_offset(bytes, s, h, i as nat),
            scan_records(bytes, s, h, t, 0, n) == scan_records(bytes, s, h, t, i as nat, n),
        decreases count - i,
    {
        if buffer.len() - offset < header_len {
            return Located::Truncated;
        }
        let class = read_be16(buffer, offset);
        if class == target {
            return Located::Found { index: Ghost(i as nat), offset };
        }
        let size = read_be16(buffer, offset + header_len - 2) as usize;
        let rest = buffer.len() - offset - header_len;
        if size > rest {
            assert(record_offset(bytes, s, h, (i + 1) as nat) > bytes.len());
            assert(scan_records(bytes, s, h, t, i as nat, n) == scan_records(
                bytes,
                s,
                h,
                t,
                (i + 1) as nat,
                n,
            ));
            if i + 1 < count {
                return Located::Truncated;
            } else {
                return Located::Missing;
            }
        }
        offset = offset + header_len + size;
        i = i + 1;
    }
    Located::Missing
}

/// Finds the first object of class `obj_requested_class` in a configuration
/// report. On success the result holds the bytes that follow the object's
/// header, up to the end of the buffer, then the object's attribute count and
/// its handle.
pub fn get_obj(buffer: &[u8], obj_requested_class: u16) -> (result: Result<
    (&[u8], u16, u16),
    AccuChekError,
>)
    ensures
        match find_object(buffer@, obj_requested_class) {
            Lookup::Found(k) => result matches Ok((rest, attr_count, handle)) && {
                let at = object_offset(buffer@, k);
                &&& 28 <= at && at + 8 <= buffer@.len()
                &&& rest@ == buffer@.skip(at + 8)
                &&& handle as int == be16_at(buffer@, at + 2)
                &&& attr_count as int == be16_at(buffer@, at + 4)
            },
            Lookup::Missing => fails_with(result, ErrorView::Protocol(object_not_found_text())),
            Lookup::Truncated => fails_with(result, ErrorView::Protocol(truncated_text())),
        },
{
    if buffer.len() < OBJECT_LIST_OFFSET {
        return Err(protocol_error("Response shorter than its layout requires"));
    }
    let count = read_be16(buffer, OBJECT_COUNT_OFFSET);
    match locate(buffer, OBJECT_LIST_OFFSET, OBJECT_HEADER_LEN, count, obj_requested_class) {
        Located::Found { index: _, offset } => {
            let handle = read_be16(buffer, offset + 2);
            let attr_count = read_be16(buffer, offset + 4);
            let rest = slice_subrange(buffer, offset + OBJECT_HEADER_LEN, buffer.len());
            assert(rest@ =~= buffer@.skip(offset + 8));
            Ok((rest, attr_count, handle))
        },
        Located::Missing => Err(protocol_error("Object not found in config")),
        Located::Truncated => Err(protocol_error("Response shorter than its layout requires")),
    }
}

/// Finds the first attribute of class `attr_requested_class` among the
/// `attribute_count` attributes that start at the head of `buffer`. On success
/// the result holds the bytes that follow the attribute's header, up to the end
/// of the buffer, and the attribute's size.
pub fn get_attr(buffer: &[u8], attribute_count: u16, attr_requested_class: u16) -> (result:
    Result<(&[u8], u16), AccuChekError>)
    ensures
        match find_attribute(buffer@, attribute_count, attr_requested_class) {
            Lookup::Found(k) => result matches Ok((rest, size)) && {
                let at = attribute_offset(buffer@, k);
                &&& 0 <= at && at + 4 <= buffer@.len()
                &&& rest@ == buffer@.skip(at + 4)
                &&& size as int == be16_at(buffer@, at + 2)
            },
            Lookup::Missing => fails_with(
                result,
                ErrorView::Protocol(attribute_not_found_text()),
            ),
            Lookup::Truncated => fails_with(result, ErrorView::Protocol(truncated_text())),
        },
{
    match locate(buffer, 0, ATTRIBUTE_HEADER_LEN, attribute_count, attr_requested_class) {
        Located::Found { index: _, offset } => {
            let end = buffer.len();
            let size = read_be16(buffer, offset + 2);
            let rest = slice_subrange(buffer, offset + ATTRIBUTE_HEADER_LEN, end);
            assert(rest@ =~= buffer@.skip(offset + 4));
            Ok((rest, size))
        },
        Located::Missing => Err(protocol_error("Attribute not found")),
        Located::Truncated => Err(protocol_error("Response shorter than its layout requires")),
    }
}

/// Records follow one another: record `k` starts at least `k` headers past
/// the start.
pub proof fn lemma_record_offset_grows(bytes: Seq<u8>, start: int, header_len: int, k: nat)
    requires
        header_len >= 0,
    ensures
        record_offset(bytes, start, header_len, k) >= start + k * header_len,
    decreases k,
{
    if k > 0 {
        lemma_record_offset_grows(bytes, start, header_len, (k - 1) as nat);
        assert(k * header_len == (k - 1) * header_len + header_len) by (nonlinear_arith);
    } else {
        assert(k * header_len == 0) by (nonlinear_arith)
            requires
                k == 0,
        ;
    }
}

/// A scan that starts at or before record `k` stops at `k` when `k` is the
/// first record of the wanted class from there on and the headers up to it
/// lie inside the buffer.
proof fn lemma_scan_reaches(
    bytes: Seq<u8>,
    start: int,
    header_len: int,
    target: int,
    i: nat,
    k: nat,
    count: nat,
)
    requires
        i <= k < count,
        forall|j: nat| i <= j <= k ==> record_fits(bytes, start, header_len, j),
        forall|j: nat| i <= j < k ==> record_class(bytes, start, header_len, j) != target,
        record_class(bytes, start, header_len, k) == target,
    ensures
        scan_records(bytes, start, header_len, target, i, count) == Lookup::Found(k),
    decreases k - i,
{
    if i < k {
        lemma_scan_reaches(bytes, start, header_len, target, i + 1, k, count);
    }
}

/// A scan over records that all lie inside the buffer and are all of other
/// classes finds nothing.
proof fn lemma_scan_exhausts(
    bytes: Seq<u8>,
    start: int,
    header_len: int,
    target: int,
    i: nat,
    count: nat,
)
    requires
        forall|j: nat|
            i <= j < count ==> #[trigger] record_fits(bytes, start, header_len, j)
                && record_class(bytes, start, header_len, j) != target,
    ensures
        scan_records(bytes, start, header_len, target, i, count) == Lookup::Missing,
    decreases count - i,
{
    if i < count {
        lemma_scan_exhausts(bytes, start, header_len, target, i + 1, count);
    }
}

/// What a scan that found record `k` has seen on its way.
proof fn lemma_scan_found(
    bytes: Seq<u8>,
    start: int,
    header_len: int,
    target: int,
    i: nat,
    k: nat,
    count: nat,
)
    requires
        scan_records(bytes, start, header_len, target, i, count) == Lookup::Found(k),
    ensures
        i <= k < count,
        forall|j: nat| i <= j <= k ==> record_fits(bytes, start, header_len, j),
        forall|j: nat| i <= j < k ==> record_class(bytes, start, header_len, j) != target,
        record_class(bytes, start, header_len, k) == target,
    decreases count - i,
{
    if i < count && record_fits(bytes, start, header_len, i) && record_class(
        bytes,
        start,
        header_len,
        i,
    ) != target {
        lemma_scan_found(bytes, start, header_len, target, i + 1, k, count);
    }
}

/// What a scan that found nothing has seen: every declared record, each
/// inside the buffer but for the size of the last one's body, and none of the
/// wanted class.
proof fn lemma_scan_missing(
    bytes: Seq<u8>,
    start: int,
    header_len: int,
    target: int,
    i: nat,
    count: nat,
)
    requires
        scan_records(bytes, start, header_len, target, i, count) == Lookup::Missing,
    ensures
        forall|j: nat|
            i <= j < count ==> #[trigger] record_fits(bytes, start, header_len, j)
                && record_class(bytes, start, header_len, j) != target,
    decreases count - i,
{
    if i < count {
        lemma_scan_missing(bytes, start, header_len, target, i + 1, count);
    }
}

/// An object of the wanted class is found wherever it stands among the
/// declared objects, first, in the middle or last: if object `k` is the first
/// of class `target` and the headers of the objects up to it lie inside the
/// report, the search comes to `k`.
pub proof fn lemma_object_found_at(bytes: Seq<u8>, target: u16, k: nat)
    requires
        bytes.len() >= 28,
        k < declared_objects(bytes),
        forall|j: nat| j <= k ==> record_fits(bytes, 28, 8, j),
        forall|j: nat| j < k ==> record_class(bytes, 28, 8, j) != target,
        record_class(bytes, 28, 8, k) == target,
    ensures
        find_object(bytes, target) == Lookup::Found(k),
{
    lemma_scan_reaches(bytes, 28, 8, target as int, 0, k, declared_objects(bytes));
}

/// An object that the search found is a declared one, is of the wanted
/// class, and is the first such.
pub proof fn lemma_object_found_is_first(bytes: Seq<u8>, target: u16, k: nat)
    requires
        find_object(bytes, target) == Lookup::Found(k),
    ensures
        bytes.len() >= 28,
        k < declared_objects(bytes),
        forall|j: nat| j <= k ==> record_fits(bytes, 28, 8, j),
        forall|j: nat| j < k ==> record_class(bytes, 28, 8, j) != target,
        record_class(bytes, 28, 8, k) == target,
{
    lemma_scan_found(bytes, 28, 8, target as int, 0, k, declared_objects(bytes));
}

/// The search finds nothing exactly when every declared object lies inside
/// the report and none is of the wanted class. What follows the declared
/// objects plays no part: nothing past the declared count is looked at.
pub proof fn lemma_object_missing_iff(bytes: Seq<u8>, target: u16)
    requires
        bytes.len() >= 28,
    ensures
        find_object(bytes, target) == Lookup::Missing <==> forall|j: nat|
            j < declared_objects(bytes) ==> #[trigger] record_fits(bytes, 28, 8, j)
                && record_class(bytes, 28, 8, j) != target,
{
    let n = declared_objects(bytes);
    if find_object(bytes, target) == Lookup::Missing {
        lemma_scan_missing(bytes, 28, 8, target as int, 0, n);
    }
    if forall|j: nat|
        j < n ==> #[trigger] record_fits(bytes, 28, 8, j) && record_class(bytes, 28, 8, j)
            != target {
        lemma_scan_exhausts(bytes, 28, 8, target as int, 0, n);
    }
}

/// An attribute of the wanted class is found wherever it stands among the
/// declared attributes: if attribute `k` is the first of class `target` and
/// the headers of the attributes up to it lie inside the buffer, the search
/// comes to `k`.
pub proof fn lemma_attribute_found_at(bytes: Seq<u8>, count: u16, target: u16, k: nat)
    requires
        k < count,
        forall|j: nat| j <= k ==> record_fits(bytes, 0, 4, j),
        forall|j: nat| j < k ==> record_class(bytes, 0, 4, j) != target,
        record_class(bytes, 0, 4, k) == target,
    ensures
        find_attribute(bytes, count, target) == Lookup::Found(k),
{
    lemma_scan_reaches(bytes, 0, 4, target as int, 0, k, count as nat);
}

/// An attribute that the search found is a declared one, is of the wanted
/// class, and is the first such.
pub proof fn lemma_attribute_found_is_first(bytes: Seq<u8>, count: u16, target: u16, k: nat)
    requires
        find_attribute(bytes, count, target) == Lookup::Found(k),
    ensures
        k < count,
        forall|j: nat| j <= k ==> record_fits(bytes, 0, 4, j),
        forall|j: nat| j < k ==> record_class(bytes, 0, 4, j) != target,
        record_class(bytes, 0, 4, k) == target,
{
    lemma_scan_found(bytes, 0, 4, target as int, 0, k, count as nat);
}

/// The search finds nothing exactly when every declared attribute lies
/// inside the buffer and none is of the wanted class. What follows the
/// declared attributes plays no part.
pub proof fn lemma_attribute_missing_iff(bytes: Seq<u8>, count: u16, target: u16)
    ensures
        find_attribute(bytes, count, target) == Lookup::Missing <==> forall|j: nat|
            j < count ==> #[trigger] record_fits(bytes, 0, 4, j) && record_class(bytes, 0, 4, j)
                != target,
{
    if find_attribute(bytes, count, target) == Lookup::Missing {
        lemma_scan_missing(bytes, 0, 4, target as int, 0, count as nat);
    }
    if forall|j: nat|
        j < count ==> #[trigger] record_fits(bytes, 0, 4, j) && record_class(bytes, 0, 4, j)
            != target {
        lemma_scan_exhausts(bytes, 0, 4, target as int, 0, count as nat);
    }
}

} // verus!
