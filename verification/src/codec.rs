use crate::record::{Record, RecordView};
use vstd::prelude::*;
use vstd::slice::{slice_subrange, slice_to_vec};
use vstd::utf8::{decode_utf8, valid_utf8};

verus! {

/// The byte of `data` at index `i`, or 0 past the end.  The reader
/// fills a zero-initialized buffer, so a position field that reaches
/// past the bytes actually read is completed with zeros.
pub open spec fn byte_at(data: Seq<u8>, i: int) -> u8 {
    if 0 <= i < data.len() {
        data[i]
    } else {
        0
    }
}

/// The 64-bit value encoded little-endian in the eight bytes of
/// `data` starting at `off`, bytes past the end reading as zero.
pub open spec fn le64_at(data: Seq<u8>, off: int) -> u64 {
    (byte_at(data, off) as u64) | (byte_at(data, off + 1) as u64) << 8 | (byte_at(
        data,
        off + 2,
    ) as u64) << 16 | (byte_at(data, off + 3) as u64) << 24 | (byte_at(data, off + 4) as u64) << 32
        | (byte_at(data, off + 5) as u64) << 40 | (byte_at(data, off + 6) as u64) << 48 | (byte_at(
        data,
        off + 7,
    ) as u64) << 56
}

/// The label bytes of a chunk: everything from index 16 on.
pub open spec fn label_bytes(data: Seq<u8>) -> Seq<u8> {
    data.subrange(16, data.len() as int)
}

/// What one read of `data` does to the state, per the wire protocol:
/// fewer than 8 bytes are ignored; otherwise bytes [0, 8) and [8, 16)
/// become the new position pair (little-endian, zero-completed), and
/// with more than 16 bytes the tail [16, len) becomes the new label
/// if and only if it is valid UTF-8 — an undecodable tail leaves the
/// label as it was.
pub open spec fn chunk_applied(r: RecordView, data: Seq<u8>) -> RecordView {
    if data.len() < 8 {
        r
    } else {
        RecordView {
            lat_bits: le64_at(data, 0),
            lon_bits: le64_at(data, 8),
            girouette: if data.len() > 16 && valid_utf8(label_bytes(data)) {
                decode_utf8(label_bytes(data))
            } else {
                r.girouette
            },
        }
    }
}

/// The byte at `i`, or 0 when `i` is past the end of the slice.
fn byte_or_zero(data: &[u8], i: usize) -> (r: u8)
    ensures
        r == byte_at(data@, i as int),
{
    match data.get(i) {
        Some(b) => *b,
        None => 0,
    }
}

/// Reads the little-endian 64-bit value at offset `off`, missing
/// bytes counting as zero.
pub fn le64_from(data: &[u8], off: usize) -> (r: u64)
    requires
        off + 7 <= usize::MAX,
    ensures
        r == le64_at(data@, off as int),
{
    (byte_or_zero(data, off) as u64) | ((byte_or_zero(data, off + 1) as u64) << 8) | ((byte_or_zero(
        data,
        off + 2,
    ) as u64) << 16) | ((byte_or_zero(data, off + 3) as u64) << 24) | ((byte_or_zero(
        data,
        off + 4,
    ) as u64) << 32) | ((byte_or_zero(data, off + 5) as u64) << 40) | ((byte_or_zero(
        data,
        off + 6,
    ) as u64) << 48) | ((byte_or_zero(data, off + 7) as u64) << 56)
}

/// Relies on `String::from_utf8`: it returns `Ok` exactly when the
/// bytes are valid UTF-8, and the string then holds the characters
/// they encode.
#[verifier::external_body]
fn utf8_to_string(bytes: Vec<u8>) -> (r: Option<String>)
    ensures
        r is Some <==> valid_utf8(bytes@),
        r matches Some(s) ==> s@ == decode_utf8(bytes@),
{
    String::from_utf8(bytes).ok()
}

/// Applies one read chunk to the state, exactly as [`chunk_applied`]
/// says: a short chunk changes nothing, any other chunk replaces the
/// position pair as one unit, and only a decodable tail past byte 16
/// replaces the label.
pub fn apply_chunk(rec: &mut Record, data: &[u8])
    ensures
        final(rec)@ == chunk_applied(old(rec)@, data@),
{
    if data.len() < 8 {
        return ;
    }
    let lat_bits = le64_from(data, 0);
    let lon_bits = le64_from(data, 8);
    rec.set_position(lat_bits, lon_bits);
    if data.len() > 16 {
        let tail = slice_to_vec(slice_subrange(data, 16, data.len()));
        match utf8_to_string(tail) {
            Some(s) => rec.set_girouette(s),
            None => (),
        }
    }
}

/// A chunk of fewer than 8 bytes carries not even a position: it is
/// ignored, and the state is exactly what it was.
pub proof fn law_short_chunk_ignored(r: RecordView, data: Seq<u8>)
    requires
        data.len() < 8,
    ensures
        chunk_applied(r, data) == r,
{
}

/// A chunk of 8 to 16 bytes — 16 exactly included — updates the
/// position from its first sixteen byte positions and leaves the
/// label exactly as it was.
pub proof fn law_position_only_chunk(r: RecordView, data: Seq<u8>)
    requires
        8 <= data.len() <= 16,
    ensures
        chunk_applied(r, data).lat_bits == le64_at(data, 0),
        chunk_applied(r, data).lon_bits == le64_at(data, 8),
        chunk_applied(r, data).girouette == r.girouette,
{
}

/// A chunk of more than 16 bytes whose tail [16, len) is valid UTF-8
/// updates the position and makes the label exactly the characters
/// that tail encodes.
pub proof fn law_valid_label_chunk(r: RecordView, data: Seq<u8>)
    requires
        data.len() > 16,
        valid_utf8(label_bytes(data)),
    ensures
        chunk_applied(r, data).lat_bits == le64_at(data, 0),
        chunk_applied(r, data).lon_bits == le64_at(data, 8),
        chunk_applied(r, data).girouette == decode_utf8(label_bytes(data)),
{
}

/// A chunk of more than 16 bytes whose tail is not valid UTF-8 still
/// updates the position, but the label stays exactly what it was.
pub proof fn law_invalid_label_chunk(r: RecordView, data: Seq<u8>)
    requires
        data.len() > 16,
        !valid_utf8(label_bytes(data)),
    ensures
        chunk_applied(r, data).lat_bits == le64_at(data, 0),
        chunk_applied(r, data).lon_bits == le64_at(data, 8),
        chunk_applied(r, data).girouette == r.girouette,
{
}

} // verus!
