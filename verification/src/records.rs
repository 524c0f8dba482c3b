use vstd::prelude::*;

verus! {

/// Number of bytes of a capture-record header that the scanner reads:
/// a 16-byte timestamp it ignores, the captured payload length
/// (little-endian `u32` at offset 16), the original frame length
/// (little-endian `u32` at offset 20), and the record's own header length
/// (little-endian `u16` at offset 24).
pub const RECORD_HEADER_SIZE: usize = 26;

/// Byte offset of the captured-payload-length field within a record header.
pub const CAPLEN_OFFSET: usize = 16;

/// Byte offset of the original-frame-length field within a record header.
pub const DATALEN_OFFSET: usize = 20;

/// Byte offset of the header-length field within a record header.
pub const HDRLEN_OFFSET: usize = 24;

/// Word alignment of capture records: each record begins at a multiple of
/// this many bytes, so record advancement rounds up to this boundary.
pub const RECORD_ALIGNMENT: usize = 4;

/// Minimum size in bytes of a link-layer frame header. Loopback captures
/// omit a real header of this size; it is synthesized on delivery.
pub const ETHERNET_HEADER_SIZE: usize = 14;

/// Size in bytes of the address-family tag the OS places in front of each
/// loopback capture in place of a link-layer header.
pub const LOOPBACK_TAG_SIZE: usize = 4;

/// Link-layer type reported for the loopback pseudo-device.
pub const DLT_NULL: u32 = 0;

/// The fixed-layout fields of one capture-record header, decoded from raw
/// bytes into plain values.
#[derive(Clone, Copy, Debug, PartialEq, Eq, Structural)]
pub struct RecordHeader {
    /// Number of payload bytes captured for this record.
    pub caplen: u32,
    /// Length of the original frame on the wire (unused by scanning).
    pub datalen: u32,
    /// Length in bytes of this record's own header; the payload starts
    /// this many bytes after the record does.
    pub hdrlen: u16,
}

/// The little-endian 16-bit value stored at offset `i` of `b`.
pub open spec fn spec_u16_le(b: Seq<u8>, i: int) -> int {
    b[i] + 0x100 * b[i + 1]
}

/// The little-endian 32-bit value stored at offset `i` of `b`.
pub open spec fn spec_u32_le(b: Seq<u8>, i: int) -> int {
    b[i] + 0x100 * b[i + 1] + 0x1_0000 * b[i + 2] + 0x100_0000 * b[i + 3]
}

/// `x` rounded up to the next multiple of the record alignment.
pub open spec fn spec_align(x: int) -> int {
    ((x + 3) / 4) * 4
}

/// Rounding up to the alignment never moves a nonnegative offset down,
/// moves it by less than one alignment unit, and preserves order.
pub proof fn lemma_align_bounds(x: int)
    requires
        0 <= x,
    ensures
        x <= spec_align(x) < x + 4,
        x > 0 ==> spec_align(x) >= 4,
{
}

/// Decode the fixed-layout record header that starts at byte `pos` of
/// `buf`, or report that fewer than a full header's worth of bytes remain.
pub fn parse_record_header(buf: &Vec<u8>, pos: usize) -> (r: Option<RecordHeader>)
    ensures
        r is Some <==> pos + RECORD_HEADER_SIZE <= buf@.len(),
        r matches Some(h) ==> {
            &&& h.caplen == spec_u32_le(buf@, pos + CAPLEN_OFFSET)
            &&& h.datalen == spec_u32_le(buf@, pos + DATALEN_OFFSET)
            &&& h.hdrlen == spec_u16_le(buf@, pos + HDRLEN_OFFSET)
        },
{
    if buf.len() < RECORD_HEADER_SIZE || pos > buf.len() - RECORD_HEADER_SIZE {
        return None;
    }
    let caplen = read_u32_le(buf, pos + CAPLEN_OFFSET);
    let datalen = read_u32_le(buf, pos + DATALEN_OFFSET);
    let hdrlen = read_u16_le(buf, pos + HDRLEN_OFFSET);
    Some(RecordHeader { caplen, datalen, hdrlen })
}

/// Read a little-endian 16-bit field at offset `pos`.
pub fn read_u16_le(buf: &Vec<u8>, pos: usize) -> (r: u16)
    requires
        pos + 2 <= buf@.len(),
    ensures
        r == spec_u16_le(buf@, pos as int),
{
    let buf_len: usize = buf.len();
    let b0 = buf[pos];
    let b1 = buf[pos + 1];
    b0 as u16 + 0x100 * (b1 as u16)
}

/// Read a little-endian 32-bit field at offset `pos`.
pub fn read_u32_le(buf: &Vec<u8>, pos: usize) -> (r: u32)
    requires
        pos + 4 <= buf@.len(),
    ensures
        r == spec_u32_le(buf@, pos as int),
{
    let buf_len: usize = buf.len();
    let b0 = buf[pos];
    let b1 = buf[pos + 1];
    let b2 = buf[pos + 2];
    let b3 = buf[pos + 3];
    b0 as u32 + 0x100 * (b1 as u32) + 0x1_0000 * (b2 as u32) + 0x100_0000 * (b3 as u32)
}

/// The record queue that scanning `b[..n]` from cursor position `cur`
/// produces, or `None` if a record is malformed: its header is cut short
/// by `n`, its header length is shorter than the fixed header layout, its
/// declared extent runs past `n`, or it captured fewer bytes than the
/// loopback tag it must carry.
///
/// `tag` is the loopback address-family tag size (zero on other devices);
/// each emitted pair is the payload's (start, length) with that tag
/// skipped. The cursor advances by the aligned record extent but is
/// clamped at `n`: scanning never follows alignment padding past the
/// bytes the read reported.
pub open spec fn spec_scan(b: Seq<u8>, n: int, tag: int, cur: int) -> Option<Seq<(int, int)>>
    decreases n - cur,
{
    if cur >= n {
        Some(Seq::empty())
    } else if n - cur < RECORD_HEADER_SIZE {
        None
    } else {
        let hdrlen = spec_u16_le(b, cur + HDRLEN_OFFSET);
        let caplen = spec_u32_le(b, cur + CAPLEN_OFFSET);
        if hdrlen < RECORD_HEADER_SIZE || caplen < tag || cur + hdrlen + caplen > n {
            None
        } else {
            let next = if cur + spec_align(hdrlen + caplen) >= n {
                n
            } else {
                cur + spec_align(hdrlen + caplen)
            };
            match spec_scan(b, n, tag, next) {
                None => None,
                Some(rest) => Some(seq![(cur + hdrlen + tag, caplen - tag)] + rest),
            }
        }
    }
}

/// Record scanning never trusts bytes past the read's reported count:
/// every queued payload begins at or after the cursor it was found at and
/// ends at or before byte `n`.
pub proof fn lemma_scan_within_read_bytes(b: Seq<u8>, n: int, tag: int, cur: int)
    requires
        0 <= tag,
        0 <= cur,
        spec_scan(b, n, tag, cur) is Some,
    ensures
        spec_scan(b, n, tag, cur) matches Some(q) ==> forall|i: int|
            0 <= i < q.len() ==> {
                &&& cur <= (#[trigger] q[i]).0
                &&& 0 <= q[i].1
                &&& q[i].0 + q[i].1 <= n
            },
    decreases n - cur,
{
    if cur >= n {
    } else if n - cur < RECORD_HEADER_SIZE {
    } else {
        let hdrlen = spec_u16_le(b, cur + HDRLEN_OFFSET);
        let caplen = spec_u32_le(b, cur + CAPLEN_OFFSET);
        if hdrlen < RECORD_HEADER_SIZE || caplen < tag || cur + hdrlen + caplen > n {
        } else {
            let next = if cur + spec_align(hdrlen + caplen) >= n {
                n
            } else {
                cur + spec_align(hdrlen + caplen)
            };
            lemma_align_bounds(hdrlen + caplen);
            lemma_scan_within_read_bytes(b, n, tag, next);
        }
    }
}

/// Scanning yields records in their physical buffer order: payload starts
/// are strictly increasing, and each payload ends before the next begins.
pub proof fn lemma_scan_physical_order(b: Seq<u8>, n: int, tag: int, cur: int)
    requires
        0 <= tag,
        0 <= cur,
        spec_scan(b, n, tag, cur) is Some,
    ensures
        spec_scan(b, n, tag, cur) matches Some(q) ==> forall|i: int, j: int|
            0 <= i < j < q.len() ==> (#[trigger] q[i]).0 + q[i].1 <= (#[trigger] q[j]).0,
    decreases n - cur,
{
    if cur >= n {
    } else if n - cur < RECORD_HEADER_SIZE {
    } else {
        let hdrlen = spec_u16_le(b, cur + HDRLEN_OFFSET);
        let caplen = spec_u32_le(b, cur + CAPLEN_OFFSET);
        if hdrlen < RECORD_HEADER_SIZE || caplen < tag || cur + hdrlen + caplen > n {
        } else {
            let next = if cur + spec_align(hdrlen + caplen) >= n {
                n
            } else {
                cur + spec_align(hdrlen + caplen)
            };
            lemma_align_bounds(hdrlen + caplen);
            lemma_scan_physical_order(b, n, tag, next);
            lemma_scan_within_read_bytes(b, n, tag, next);
        }
    }
}

} // verus!
