//! Binary frame decoder: turns the reassembled byte buffer of one completed
//! frame into a typed record.
//!
//! The layout is fixed: a 32-byte scalar prefix, then 26 parallel arrays of
//! 1024 four-byte elements (one array per measured quantity, one slot per
//! possible detection), then a 24-byte scalar trailer. All multi-byte values
//! are little-endian, packed, no padding between fields. Quantities the
//! sensor transmits as IEEE 754 single-precision values are carried as their
//! raw 32-bit patterns (`u32`); interpreting them as floating point is the
//! caller's business.

use vstd::bytes::*;
use vstd::prelude::*;
use vstd::slice::*;

verus! {

/// Capacity of every detection array: one slot per possible detection.
pub const ARRAY_CAPACITY: usize = 1024;

/// Byte offset of the scalar trailer after the 26 detection arrays.
pub const TRAILER_OFFSET: usize = 32 + 26 * 4096;

/// Total byte size of one frame's wire image.
pub const FRAME_BYTES: usize = 32 + 26 * 4096 + 24;

/// Zero bytes the decoder may supply itself: the fixed gap between the
/// wire image the chunks deliver and the in-memory layout the record
/// declares, left by the layout's internal alignment.
pub const PAD_FILL_BYTES: usize = 66;

/// Why a reassembled buffer could not be decoded.
#[derive(Clone, Copy, Debug, PartialEq, Eq, Structural)]
pub enum FrameError {
    /// Even zero-padded, the buffer is shorter than the fixed layout.
    MalformedFrame,
}

/// Little-endian u32 at byte offset `off`.
pub open spec fn spec_le32(s: Seq<u8>, off: int) -> u32
    recommends
        0 <= off,
        off + 4 <= s.len(),
{
    spec_u32_from_le_bytes(s.subrange(off, off + 4))
}

/// Little-endian u16 at byte offset `off`.
pub open spec fn spec_le16(s: Seq<u8>, off: int) -> u16
    recommends
        0 <= off,
        off + 2 <= s.len(),
{
    spec_u16_from_le_bytes(s.subrange(off, off + 2))
}

/// Little-endian i32 at byte offset `off`: the u32 pattern reinterpreted.
pub open spec fn spec_le_i32(s: Seq<u8>, off: int) -> i32 {
    spec_le32(s, off) as i32
}

/// Little-endian i16 at byte offset `off`: the u16 pattern reinterpreted.
pub open spec fn spec_le_i16(s: Seq<u8>, off: int) -> i16 {
    spec_le16(s, off) as i16
}

/// Byte offset of the `k`-th detection array (declaration order).
pub open spec fn spec_array_off(k: int) -> int {
    32 + 4096 * k
}

/// The 1024 four-byte patterns of the array based at `off`, as u32.
pub open spec fn spec_u32_array_at(s: Seq<u8>, off: int) -> Seq<u32> {
    Seq::new(1024, |i: int| spec_le32(s, off + 4 * i))
}

/// The 1024 four-byte patterns of the array based at `off`, as i32.
pub open spec fn spec_i32_array_at(s: Seq<u8>, off: int) -> Seq<i32> {
    Seq::new(1024, |i: int| spec_le_i32(s, off + 4 * i))
}

/// `s` extended with zero bytes up to the fixed layout size (unchanged if
/// already long enough).
pub open spec fn spec_zero_padded(s: Seq<u8>) -> Seq<u8> {
    if s.len() >= FRAME_BYTES {
        s
    } else {
        s + Seq::new((FRAME_BYTES - s.len()) as nat, |i: int| 0u8)
    }
}

/// One decoded frame. Fields in wire order; see the module doc for the
/// layout. Slot `i` of all 26 detection arrays describes the same physical
/// detection. Fields declared as single-precision floating point on the
/// wire hold the raw bit pattern here.
pub struct StreamData {
    pub stream_hdr_size: u32,
    pub stream_hdr_version: u16,
    pub stream_hdr_checksum: u16,
    pub stream_hdr_scan_index: u16,
    pub stream_hdr_error_info: u16,
    pub stream_hdr_module_time_ms: u32,
    pub bistatic_count: u32,
    /// Throughput gauge (f32 bits).
    pub af_xput_count: u32,
    /// Throughput gauge (f32 bits).
    pub af_xput_inst: u32,
    /// Reported number of valid detections; untrusted, clamp before use.
    pub af_data_num_af_det: i32,
    /// Range (f32 bits).
    pub af_data_ran: Vec<u32>,
    /// Velocity (f32 bits).
    pub af_data_vel: Vec<u32>,
    /// Power (f32 bits).
    pub af_data_pow: Vec<u32>,
    /// Signal-to-noise ratio (f32 bits).
    pub af_data_snr: Vec<u32>,
    /// Azimuth angle (f32 bits).
    pub af_data_theta: Vec<u32>,
    /// Elevation angle (f32 bits).
    pub af_data_phi: Vec<u32>,
    /// Radar cross-section (f32 bits).
    pub af_data_rcs: Vec<u32>,
    /// Amplitude (f32 bits).
    pub af_data_amp: Vec<u32>,
    /// Derived sine term (f32 bits).
    pub af_data_sin_theta3: Vec<u32>,
    /// Derived sine term (f32 bits).
    pub af_data_sin_phi3: Vec<u32>,
    /// Azimuth confidence.
    pub af_data_az_conf: Vec<i32>,
    /// Elevation confidence.
    pub af_data_el_conf: Vec<i32>,
    pub af_data_f_single_target: Vec<i32>,
    pub af_data_f_superres_target: Vec<i32>,
    pub af_data_f_laz2el: Vec<i32>,
    pub af_data_f_bistatic: Vec<i32>,
    pub af_data_f_peak_det: Vec<i32>,
    pub af_data_af_type: Vec<i32>,
    pub af_data_az_af_type: Vec<i32>,
    pub af_data_el_af_type: Vec<i32>,
    pub af_data_rdd_idx: Vec<i32>,
    /// Spectral resolution (f32 bits).
    pub af_data_spec_res: Vec<u32>,
    /// Standard deviation of range (f32 bits).
    pub af_data_std_ran: Vec<u32>,
    /// Standard deviation of velocity (f32 bits).
    pub af_data_std_vel: Vec<u32>,
    /// Standard deviation of azimuth (f32 bits).
    pub af_data_std_theta: Vec<u32>,
    /// Standard deviation of elevation (f32 bits).
    pub af_data_std_phi: Vec<u32>,
    pub c66_error_code: u16,
    pub look_index: u16,
    pub scan_index: u16,
    pub trigger_missed_cnt: u16,
    pub look_type: u16,
    pub range_coverage: u16,
    pub doppler_coverage: i16,
    pub rest_count: u16,
    pub num_fp_detections: u16,
    pub num_sp_detections: u16,
    pub k_unused16_1: u16,
    pub xcp_mode: u8,
    pub k_unused8_1: u8,
}

/// Well-formedness: every detection array has exactly one slot per possible
/// detection.
pub open spec fn spec_frame_wf(f: StreamData) -> bool {
    &&& f.af_data_ran@.len() == ARRAY_CAPACITY
    &&& f.af_data_vel@.len() == ARRAY_CAPACITY
    &&& f.af_data_pow@.len() == ARRAY_CAPACITY
    &&& f.af_data_snr@.len() == ARRAY_CAPACITY
    &&& f.af_data_theta@.len() == ARRAY_CAPACITY
    &&& f.af_data_phi@.len() == ARRAY_CAPACITY
    &&& f.af_data_rcs@.len() == ARRAY_CAPACITY
    &&& f.af_data_amp@.len() == ARRAY_CAPACITY
    &&& f.af_data_sin_theta3@.len() == ARRAY_CAPACITY
    &&& f.af_data_sin_phi3@.len() == ARRAY_CAPACITY
    &&& f.af_data_az_conf@.len() == ARRAY_CAPACITY
    &&& f.af_data_el_conf@.len() == ARRAY_CAPACITY
    &&& f.af_data_f_single_target@.len() == ARRAY_CAPACITY
    &&& f.af_data_f_superres_target@.len() == ARRAY_CAPACITY
    &&& f.af_data_f_laz2el@.len() == ARRAY_CAPACITY
    &&& f.af_data_f_bistatic@.len() == ARRAY_CAPACITY
    &&& f.af_data_f_peak_det@.len() == ARRAY_CAPACITY
    &&& f.af_data_af_type@.len() == ARRAY_CAPACITY
    &&& f.af_data_az_af_type@.len() == ARRAY_CAPACITY
    &&& f.af_data_el_af_type@.len() == ARRAY_CAPACITY
    &&& f.af_data_rdd_idx@.len() == ARRAY_CAPACITY
    &&& f.af_data_spec_res@.len() == ARRAY_CAPACITY
    &&& f.af_data_std_ran@.len() == ARRAY_CAPACITY
    &&& f.af_data_std_vel@.len() == ARRAY_CAPACITY
    &&& f.af_data_std_theta@.len() == ARRAY_CAPACITY
    &&& f.af_data_std_phi@.len() == ARRAY_CAPACITY
}

/// The record `f` is exactly the fixed layout's reading of the bytes `s`:
/// every scalar comes from its declared offset and width, every detection
/// array from its declared base, in declaration order.
pub open spec fn spec_frame_matches(f: StreamData, s: Seq<u8>) -> bool {
    &&& f.stream_hdr_size == spec_le32(s, 0)
    &&& f.stream_hdr_version == spec_le16(s, 4)
    &&& f.stream_hdr_checksum == spec_le16(s, 6)
    &&& f.stream_hdr_scan_index == spec_le16(s, 8)
    &&& f.stream_hdr_error_info == spec_le16(s, 10)
    &&& f.stream_hdr_module_time_ms == spec_le32(s, 12)
    &&& f.bistatic_count == spec_le32(s, 16)
    &&& f.af_xput_count == spec_le32(s, 20)
    &&& f.af_xput_inst == spec_le32(s, 24)
    &&& f.af_data_num_af_det == spec_le_i32(s, 28)
    &&& f.af_data_ran@ == spec_u32_array_at(s, spec_array_off(0))
    &&& f.af_data_vel@ == spec_u32_array_at(s, spec_array_off(1))
    &&& f.af_data_pow@ == spec_u32_array_at(s, spec_array_off(2))
    &&& f.af_data_snr@ == spec_u32_array_at(s, spec_array_off(3))
    &&& f.af_data_theta@ == spec_u32_array_at(s, spec_array_off(4))
    &&& f.af_data_phi@ == spec_u32_array_at(s, spec_array_off(5))
    &&& f.af_data_rcs@ == spec_u32_array_at(s, spec_array_off(6))
    &&& f.af_data_amp@ == spec_u32_array_at(s, spec_array_off(7))
    &&& f.af_data_sin_theta3@ == spec_u32_array_at(s, spec_array_off(8))
    &&& f.af_data_sin_phi3@ == spec_u32_array_at(s, spec_array_off(9))
    &&& f.af_data_az_conf@ == spec_i32_array_at(s, spec_array_off(10))
    &&& f.af_data_el_conf@ == spec_i32_array_at(s, spec_array_off(11))
    &&& f.af_data_f_single_target@ == spec_i32_array_at(s, spec_array_off(12))
    &&& f.af_data_f_superres_target@ == spec_i32_array_at(s, spec_array_off(13))
    &&& f.af_data_f_laz2el@ == spec_i32_array_at(s, spec_array_off(14))
    &&& f.af_data_f_bistatic@ == spec_i32_array_at(s, spec_array_off(15))
    &&& f.af_data_f_peak_det@ == spec_i32_array_at(s, spec_array_off(16))
    &&& f.af_data_af_type@ == spec_i32_array_at(s, spec_array_off(17))
    &&& f.af_data_az_af_type@ == spec_i32_array_at(s, spec_array_off(18))
    &&& f.af_data_el_af_type@ == spec_i32_array_at(s, spec_array_off(19))
    &&& f.af_data_rdd_idx@ == spec_i32_array_at(s, spec_array_off(20))
    &&& f.af_data_spec_res@ == spec_u32_array_at(s, spec_array_off(21))
    &&& f.af_data_std_ran@ == spec_u32_array_at(s, spec_array_off(22))
    &&& f.af_data_std_vel@ == spec_u32_array_at(s, spec_array_off(23))
    &&& f.af_data_std_theta@ == spec_u32_array_at(s, spec_array_off(24))
    &&& f.af_data_std_phi@ == spec_u32_array_at(s, spec_array_off(25))
    &&& f.c66_error_code == spec_le16(s, TRAILER_OFFSET as int)
    &&& f.look_index == spec_le16(s, TRAILER_OFFSET + 2)
    &&& f.scan_index == spec_le16(s, TRAILER_OFFSET + 4)
    &&& f.trigger_missed_cnt == spec_le16(s, TRAILER_OFFSET + 6)
    &&& f.look_type == spec_le16(s, TRAILER_OFFSET + 8)
    &&& f.range_coverage == spec_le16(s, TRAILER_OFFSET + 10)
    &&& f.doppler_coverage == spec_le_i16(s, TRAILER_OFFSET + 12)
    &&& f.rest_count == spec_le16(s, TRAILER_OFFSET + 14)
    &&& f.num_fp_detections == spec_le16(s, TRAILER_OFFSET + 16)
    &&& f.num_sp_detections == spec_le16(s, TRAILER_OFFSET + 18)
    &&& f.k_unused16_1 == spec_le16(s, TRAILER_OFFSET + 20)
    &&& f.xcp_mode == s[TRAILER_OFFSET + 22]
    &&& f.k_unused8_1 == s[TRAILER_OFFSET + 23]
}

fn read_u32_at(b: &[u8], off: usize) -> (r: u32)
    requires
        off + 4 <= b@.len(),
        b@.len() <= usize::MAX,
    ensures
        r == spec_le32(b@, off as int),
{
    u32_from_le_bytes(slice_subrange(b, off, off + 4))
}

fn read_u16_at(b: &[u8], off: usize) -> (r: u16)
    requires
        off + 2 <= b@.len(),
        b@.len() <= usize::MAX,
    ensures
        r == spec_le16(b@, off as int),
{
    u16_from_le_bytes(slice_subrange(b, off, off + 2))
}

fn read_i32_at(b: &[u8], off: usize) -> (r: i32)
    requires
        off + 4 <= b@.len(),
        b@.len() <= usize::MAX,
    ensures
        r == spec_le_i32(b@, off as int),
{
    let v = read_u32_at(b, off);
    #[verifier::truncate] (v as i32)
}

fn read_i16_at(b: &[u8], off: usize) -> (r: i16)
    requires
        off + 2 <= b@.len(),
        b@.len() <= usize::MAX,
    ensures
        r == spec_le_i16(b@, off as int),
{
    let v = read_u16_at(b, off);
    #[verifier::truncate] (v as i16)
}

fn read_u32_array(b: &[u8], off: usize) -> (r: Vec<u32>)
    requires
        off + 4 * 1024 <= b@.len(),
        b@.len() <= usize::MAX,
    ensures
        r@ == spec_u32_array_at(b@, off as int),
{
    let mut r: Vec<u32> = Vec::with_capacity(ARRAY_CAPACITY);
    let mut i: usize = 0;
    while i < ARRAY_CAPACITY
        invariant
            i <= ARRAY_CAPACITY,
            off + 4 * 1024 <= b@.len(),
            b@.len() <= usize::MAX,
            r@.len() == i,
            forall|j: int| 0 <= j < i ==> r@[j] == spec_le32(b@, off + 4 * j),
        decreases ARRAY_CAPACITY - i,
    {
        r.push(read_u32_at(b, off + 4 * i));
        i += 1;
    }
    proof {
        assert(r@ =~= spec_u32_array_at(b@, off as int));
    }
    r
}

fn read_i32_array(b: &[u8], off: usize) -> (r: Vec<i32>)
    requires
        off + 4 * 1024 <= b@.len(),
        b@.len() <= usize::MAX,
    ensures
        r@ == spec_i32_array_at(b@, off as int),
{
    let mut r: Vec<i32> = Vec::with_capacity(ARRAY_CAPACITY);
    let mut i: usize = 0;
    while i < ARRAY_CAPACITY
        invariant
            i <= ARRAY_CAPACITY,
            off + 4 * 1024 <= b@.len(),
            b@.len() <= usize::MAX,
            r@.len() == i,
            forall|j: int| 0 <= j < i ==> r@[j] == spec_le_i32(b@, off + 4 * j),
        decreases ARRAY_CAPACITY - i,
    {
        r.push(read_i32_at(b, off + 4 * i));
        i += 1;
    }
    proof {
        assert(r@ =~= spec_i32_array_at(b@, off as int));
    }
    r
}

/// Reads one whole frame from `b`, which must already have the full layout
/// size.
fn decode_frame_exact(b: &[u8]) -> (f: StreamData)
    requires
        b@.len() >= FRAME_BYTES,
        b@.len() <= usize::MAX,
    ensures
        spec_frame_matches(f, b@),
        spec_frame_wf(f),
{
    StreamData {
        stream_hdr_size: read_u32_at(b, 0),
        stream_hdr_version: read_u16_at(b, 4),
        stream_hdr_checksum: read_u16_at(b, 6),
        stream_hdr_scan_index: read_u16_at(b, 8),
        stream_hdr_error_info: read_u16_at(b, 10),
        stream_hdr_module_time_ms: read_u32_at(b, 12),
        bistatic_count: read_u32_at(b, 16),
        af_xput_count: read_u32_at(b, 20),
        af_xput_inst: read_u32_at(b, 24),
        af_data_num_af_det: read_i32_at(b, 28),
        af_data_ran: read_u32_array(b, 32),
        af_data_vel: read_u32_array(b, 32 + 4096),
        af_data_pow: read_u32_array(b, 32 + 2 * 4096),
        af_data_snr: read_u32_array(b, 32 + 3 * 4096),
        af_data_theta: read_u32_array(b, 32 + 4 * 4096),
        af_data_phi: read_u32_array(b, 32 + 5 * 4096),
        af_data_rcs: read_u32_array(b, 32 + 6 * 4096),
        af_data_amp: read_u32_array(b, 32 + 7 * 4096),
        af_data_sin_theta3: read_u32_array(b, 32 + 8 * 4096),
        af_data_sin_phi3: read_u32_array(b, 32 + 9 * 4096),
        af_data_az_conf: read_i32_array(b, 32 + 10 * 4096),
        af_data_el_conf: read_i32_array(b, 32 + 11 * 4096),
        af_data_f_single_target: read_i32_array(b, 32 + 12 * 4096),
        af_data_f_superres_target: read_i32_array(b, 32 + 13 * 4096),
        af_data_f_laz2el: read_i32_array(b, 32 + 14 * 4096),
        af_data_f_bistatic: read_i32_array(b, 32 + 15 * 4096),
        af_data_f_peak_det: read_i32_array(b, 32 + 16 * 4096),
        af_data_af_type: read_i32_array(b, 32 + 17 * 4096),
        af_data_az_af_type: read_i32_array(b, 32 + 18 * 4096),
        af_data_el_af_type: read_i32_array(b, 32 + 19 * 4096),
        af_data_rdd_idx: read_i32_array(b, 32 + 20 * 4096),
        af_data_spec_res: read_u32_array(b, 32 + 21 * 4096),
        af_data_std_ran: read_u32_array(b, 32 + 22 * 4096),
        af_data_std_vel: read_u32_array(b, 32 + 23 * 4096),
        af_data_std_theta: read_u32_array(b, 32 + 24 * 4096),
        af_data_std_phi: read_u32_array(b, 32 + 25 * 4096),
        c66_error_code: read_u16_at(b, TRAILER_OFFSET),
        look_index: read_u16_at(b, TRAILER_OFFSET + 2),
        scan_index: read_u16_at(b, TRAILER_OFFSET + 4),
        trigger_missed_cnt: read_u16_at(b, TRAILER_OFFSET + 6),
        look_type: read_u16_at(b, TRAILER_OFFSET + 8),
        range_coverage: read_u16_at(b, TRAILER_OFFSET + 10),
        doppler_coverage: read_i16_at(b, TRAILER_OFFSET + 12),
        rest_count: read_u16_at(b, TRAILER_OFFSET + 14),
        num_fp_detections: read_u16_at(b, TRAILER_OFFSET + 16),
        num_sp_detections: read_u16_at(b, TRAILER_OFFSET + 18),
        k_unused16_1: read_u16_at(b, TRAILER_OFFSET + 20),
        xcp_mode: *slice_index_get(b, TRAILER_OFFSET + 22),
        k_unused8_1: *slice_index_get(b, TRAILER_OFFSET + 23),
    }
}

/// Decodes one reassembled frame buffer.
///
/// A buffer at most `PAD_FILL_BYTES` short of the layout size is first
/// extended with zero bytes; a buffer shorter than that cannot satisfy the
/// layout and is reported as malformed — a recoverable condition, so that
/// one corrupt frame does not take down the ingestion loop. Trailing bytes
/// beyond the layout size are ignored.
pub fn decode_frame(buf: &[u8]) -> (r: Result<StreamData, FrameError>)
    ensures
        r matches Ok(f) ==> buf@.len() + PAD_FILL_BYTES >= FRAME_BYTES && spec_frame_matches(
            f,
            spec_zero_padded(buf@),
        ) && spec_frame_wf(f),
        r matches Err(e) ==> buf@.len() + PAD_FILL_BYTES < FRAME_BYTES && e
            == FrameError::MalformedFrame,
{
    let n = buf.len();
    if n >= FRAME_BYTES {
        Ok(decode_frame_exact(buf))
    } else if n + PAD_FILL_BYTES >= FRAME_BYTES {
        let mut padded = slice_to_vec(buf);
        while padded.len() < FRAME_BYTES
            invariant
                buf@.len() <= padded@.len() <= FRAME_BYTES,
                padded@.subrange(0, buf@.len() as int) == buf@,
                forall|j: int| buf@.len() <= j < padded@.len() ==> padded@[j] == 0u8,
            decreases FRAME_BYTES - padded@.len(),
        {
            padded.push(0u8);
        }
        proof {
            assert(padded@ =~= spec_zero_padded(buf@));
        }
        Ok(decode_frame_exact(padded.as_slice()))
    } else {
        Err(FrameError::MalformedFrame)
    }
}

} // verus!
