//! Decoder and encoder for the fixed 28-byte header that prefixes every
//! datagram of the sensor's UDP stream.
//!
//! The layout is fixed-width with no padding: fields in declared order,
//! multi-byte integers little-endian. Decoding a header never fails; the
//! caller guarantees that at least 28 bytes are available by discarding
//! undersized datagrams first.

use vstd::bytes::*;
use vstd::prelude::*;
use vstd::slice::*;

verus! {

/// Size in bytes of the wire header.
pub const HEADER_BYTES: usize = 28;

/// One decoded datagram header. Field order mirrors the wire layout.
#[derive(Clone, Copy, Debug, PartialEq, Eq, Structural)]
pub struct FrameHeader {
    /// Version of the header layout itself.
    pub version_info: u16,
    /// Incremented on every transmission from this source.
    pub source_tx_cnt: u16,
    /// Timestamp (ms) when the packet was queued for transmit.
    pub source_tx_time: u32,
    /// Four opaque source-info bytes.
    pub source_info: u8,
    pub source_info1: u8,
    pub source_info2: u8,
    pub source_info3: u8,
    /// Stream-specific index; identical for every chunk of one frame.
    pub stream_ref_index: u32,
    /// Payload bytes in this datagram, the header not included.
    pub stream_data_len: u16,
    /// Increments on each transmission of the associated stream.
    pub stream_tx_cnt: u8,
    /// Stream identifier; one source may carry several streams.
    pub stream_number: u8,
    /// Format version of the stream's payload.
    pub stream_version: u8,
    /// Chunks per cycle, for static streams.
    pub stream_chunks_per_cycle: u8,
    /// Total chunk count of the frame; 0 when the frame is unfragmented.
    pub stream_chunks: u16,
    /// This chunk's zero-based position within the frame.
    pub stream_chunk_idx: u16,
    /// Reserved, transmitted as zero.
    pub reserved: u8,
    /// Sensor position identifier.
    pub sensor_id: u8,
}

/// The header denoted by the first 28 bytes of `s`.
pub open spec fn spec_decode_header(s: Seq<u8>) -> FrameHeader
    recommends
        s.len() >= HEADER_BYTES,
{
    FrameHeader {
        version_info: spec_u16_from_le_bytes(s.subrange(0, 2)),
        source_tx_cnt: spec_u16_from_le_bytes(s.subrange(2, 4)),
        source_tx_time: spec_u32_from_le_bytes(s.subrange(4, 8)),
        source_info: s[8],
        source_info1: s[9],
        source_info2: s[10],
        source_info3: s[11],
        stream_ref_index: spec_u32_from_le_bytes(s.subrange(12, 16)),
        stream_data_len: spec_u16_from_le_bytes(s.subrange(16, 18)),
        stream_tx_cnt: s[18],
        stream_number: s[19],
        stream_version: s[20],
        stream_chunks_per_cycle: s[21],
        stream_chunks: spec_u16_from_le_bytes(s.subrange(22, 24)),
        stream_chunk_idx: spec_u16_from_le_bytes(s.subrange(24, 26)),
        reserved: s[26],
        sensor_id: s[27],
    }
}

/// The 28-byte wire image of a header.
pub open spec fn spec_encode_header(h: FrameHeader) -> Seq<u8> {
    spec_u16_to_le_bytes(h.version_info) + spec_u16_to_le_bytes(h.source_tx_cnt)
        + spec_u32_to_le_bytes(h.source_tx_time)
        + seq![h.source_info, h.source_info1, h.source_info2, h.source_info3]
        + spec_u32_to_le_bytes(h.stream_ref_index) + spec_u16_to_le_bytes(h.stream_data_len)
        + seq![h.stream_tx_cnt, h.stream_number, h.stream_version, h.stream_chunks_per_cycle]
        + spec_u16_to_le_bytes(h.stream_chunks) + spec_u16_to_le_bytes(h.stream_chunk_idx)
        + seq![h.reserved, h.sensor_id]
}

/// Reads the header from the first 28 bytes of `b`. Pure: the result is a
/// function of those bytes alone.
pub fn decode_header(b: &[u8]) -> (h: FrameHeader)
    requires
        b@.len() >= HEADER_BYTES,
    ensures
        h == spec_decode_header(b@),
{
    FrameHeader {
        version_info: u16_from_le_bytes(slice_subrange(b, 0, 2)),
        source_tx_cnt: u16_from_le_bytes(slice_subrange(b, 2, 4)),
        source_tx_time: u32_from_le_bytes(slice_subrange(b, 4, 8)),
        source_info: *slice_index_get(b, 8),
        source_info1: *slice_index_get(b, 9),
        source_info2: *slice_index_get(b, 10),
        source_info3: *slice_index_get(b, 11),
        stream_ref_index: u32_from_le_bytes(slice_subrange(b, 12, 16)),
        stream_data_len: u16_from_le_bytes(slice_subrange(b, 16, 18)),
        stream_tx_cnt: *slice_index_get(b, 18),
        stream_number: *slice_index_get(b, 19),
        stream_version: *slice_index_get(b, 20),
        stream_chunks_per_cycle: *slice_index_get(b, 21),
        stream_chunks: u16_from_le_bytes(slice_subrange(b, 22, 24)),
        stream_chunk_idx: u16_from_le_bytes(slice_subrange(b, 24, 26)),
        reserved: *slice_index_get(b, 26),
        sensor_id: *slice_index_get(b, 27),
    }
}

/// Writes the 28-byte wire image of `h`.
pub fn encode_header(h: &FrameHeader) -> (b: Vec<u8>)
    ensures
        b@ == spec_encode_header(*h),
        b@.len() == HEADER_BYTES,
{
    let mut b: Vec<u8> = Vec::new();
    let mut piece = u16_to_le_bytes(h.version_info);
    b.append(&mut piece);
    let mut piece = u16_to_le_bytes(h.source_tx_cnt);
    b.append(&mut piece);
    let mut piece = u32_to_le_bytes(h.source_tx_time);
    b.append(&mut piece);
    b.push(h.source_info);
    b.push(h.source_info1);
    b.push(h.source_info2);
    b.push(h.source_info3);
    let mut piece = u32_to_le_bytes(h.stream_ref_index);
    b.append(&mut piece);
    let mut piece = u16_to_le_bytes(h.stream_data_len);
    b.append(&mut piece);
    b.push(h.stream_tx_cnt);
    b.push(h.stream_number);
    b.push(h.stream_version);
    b.push(h.stream_chunks_per_cycle);
    let mut piece = u16_to_le_bytes(h.stream_chunks);
    b.append(&mut piece);
    let mut piece = u16_to_le_bytes(h.stream_chunk_idx);
    b.append(&mut piece);
    b.push(h.reserved);
    b.push(h.sensor_id);
    proof {
        lemma_auto_spec_u16_to_from_le_bytes();
        lemma_auto_spec_u32_to_from_le_bytes();
        assert(b@ =~= spec_encode_header(*h));
    }
    b
}

/// Law: decoding the wire image of any header gives that header back.
/// With `lemma_decode_encode_header` below, the header codec is a lossless
/// bijection between headers and 28-byte strings.
pub proof fn lemma_encode_decode_header(h: FrameHeader)
    ensures
        spec_decode_header(spec_encode_header(h)) == h,
{
    lemma_auto_spec_u16_to_from_le_bytes();
    lemma_auto_spec_u32_to_from_le_bytes();
    let s = spec_encode_header(h);
    assert(s.subrange(0, 2) =~= spec_u16_to_le_bytes(h.version_info));
    assert(s.subrange(2, 4) =~= spec_u16_to_le_bytes(h.source_tx_cnt));
    assert(s.subrange(4, 8) =~= spec_u32_to_le_bytes(h.source_tx_time));
    assert(s.subrange(12, 16) =~= spec_u32_to_le_bytes(h.stream_ref_index));
    assert(s.subrange(16, 18) =~= spec_u16_to_le_bytes(h.stream_data_len));
    assert(s.subrange(22, 24) =~= spec_u16_to_le_bytes(h.stream_chunks));
    assert(s.subrange(24, 26) =~= spec_u16_to_le_bytes(h.stream_chunk_idx));
}

/// Law: encoding the header decoded from any 28 bytes gives those bytes
/// back; no information in a 28-byte header window is lost by decoding.
pub proof fn lemma_decode_encode_header(s: Seq<u8>)
    requires
        s.len() == HEADER_BYTES,
    ensures
        spec_encode_header(spec_decode_header(s)) == s,
{
    lemma_auto_spec_u16_to_from_le_bytes();
    lemma_auto_spec_u32_to_from_le_bytes();
    let h = spec_decode_header(s);
    assert(spec_u16_to_le_bytes(h.version_info) == s.subrange(0, 2));
    assert(spec_u16_to_le_bytes(h.source_tx_cnt) == s.subrange(2, 4));
    assert(spec_u32_to_le_bytes(h.source_tx_time) == s.subrange(4, 8));
    assert(spec_u32_to_le_bytes(h.stream_ref_index) == s.subrange(12, 16));
    assert(spec_u16_to_le_bytes(h.stream_data_len) == s.subrange(16, 18));
    assert(spec_u16_to_le_bytes(h.stream_chunks) == s.subrange(22, 24));
    assert(spec_u16_to_le_bytes(h.stream_chunk_idx) == s.subrange(24, 26));
    assert(spec_encode_header(h) =~= s);
}

} // verus!
