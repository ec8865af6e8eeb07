//! Detection extractor: walks a decoded frame's parallel arrays and projects
//! each valid detection into one output point.
//!
//! The frame's reported detection count is untrusted input: it is clamped to
//! the array capacity before any slot is read. Iteration stops at the first
//! slot whose signal-to-noise ratio is not strictly positive — the sensor
//! emits detections in descending-SNR order, so a non-positive SNR marks the
//! end of the valid prefix.

use crate::frame::spec_frame_wf;
use crate::frame::StreamData;
use crate::frame::ARRAY_CAPACITY;
use vstd::prelude::*;

verus! {

/// One extracted detection. Measured quantities keep the frame's encoding:
/// IEEE 754 single-precision bit patterns (`u32`) for continuous values,
/// plain `i32` for confidences, flags and indices. The spatial projection
/// (y and z from the sines of the angles) is floating-point work left to
/// the consumer; `x` equals the range verbatim.
#[derive(Clone, Copy, Debug, PartialEq, Eq, Structural)]
pub struct RadarPoint {
    /// Cartesian x: the range, copied verbatim (f32 bits).
    pub x: u32,
    /// Radial velocity (f32 bits).
    pub velocity: u32,
    /// Range (f32 bits).
    pub range: u32,
    /// Azimuth angle (f32 bits).
    pub theta: u32,
    /// Elevation angle (f32 bits).
    pub phi: u32,
    /// Radar cross-section (f32 bits).
    pub rcs: u32,
    /// Signal-to-noise ratio (f32 bits).
    pub snr: u32,
    /// Amplitude (f32 bits).
    pub amplitude: u32,
    /// Power (f32 bits).
    pub power: u32,
    /// Azimuth confidence.
    pub az_conf: i32,
    /// Elevation confidence.
    pub el_conf: i32,
    /// Classification flag.
    pub af_type: i32,
    /// Azimuth classification flag.
    pub af_az_type: i32,
    /// Elevation classification flag.
    pub af_el_type: i32,
    /// Resolution index.
    pub rdd_idx: i32,
    /// Standard deviation of range (f32 bits).
    pub std_range: u32,
    /// Standard deviation of velocity (f32 bits).
    pub std_vel: u32,
    /// Standard deviation of azimuth (f32 bits).
    pub std_theta: u32,
    /// Standard deviation of elevation (f32 bits).
    pub std_phi: u32,
}

/// Whether the IEEE 754 single-precision value with bit pattern `b` is
/// strictly greater than zero. In that encoding the patterns denoting such
/// values are exactly `1` (the least positive subnormal) through
/// `0x7F80_0000` (positive infinity): anything above is a NaN with the sign
/// bit clear, anything from `0x8000_0000` up has the sign bit set, and `0`
/// is positive zero.
pub open spec fn spec_f32_bits_positive(b: u32) -> bool {
    0 < b <= 0x7F80_0000
}

/// Exec mirror of `spec_f32_bits_positive`.
pub fn f32_bits_positive(b: u32) -> (r: bool)
    ensures
        r == spec_f32_bits_positive(b),
{
    0 < b && b <= 0x7F80_0000
}

/// The reported detection count, clamped to the addressable slots: negative
/// counts read as zero, counts beyond the array capacity as the capacity.
pub open spec fn spec_clamped_count(c: i32) -> int {
    if c < 0 {
        0
    } else if c > ARRAY_CAPACITY {
        ARRAY_CAPACITY as int
    } else {
        c as int
    }
}

/// Length of the run of strictly-positive SNR slots starting at `i` and
/// stopping at the first non-positive slot, or at `n`.
pub open spec fn spec_positive_run(snr: Seq<u32>, i: int, n: int) -> int
    decreases n - i,
{
    if i >= n {
        0
    } else if spec_f32_bits_positive(snr[i]) {
        1 + spec_positive_run(snr, i + 1, n)
    } else {
        0
    }
}

/// How many points extraction yields for `f`: the valid prefix of the
/// detection slots — bounded by the clamped count, ended by the first
/// non-positive SNR.
pub open spec fn spec_point_count(f: StreamData) -> int {
    spec_positive_run(f.af_data_snr@, 0, spec_clamped_count(f.af_data_num_af_det))
}

/// The point that slot `i` of the frame's parallel arrays describes.
pub open spec fn spec_point_at(f: StreamData, i: int) -> RadarPoint {
    RadarPoint {
        x: f.af_data_ran@[i],
        velocity: f.af_data_vel@[i],
        range: f.af_data_ran@[i],
        theta: f.af_data_theta@[i],
        phi: f.af_data_phi@[i],
        rcs: f.af_data_rcs@[i],
        snr: f.af_data_snr@[i],
        amplitude: f.af_data_amp@[i],
        power: f.af_data_pow@[i],
        az_conf: f.af_data_az_conf@[i],
        el_conf: f.af_data_el_conf@[i],
        af_type: f.af_data_af_type@[i],
        af_az_type: f.af_data_az_af_type@[i],
        af_el_type: f.af_data_el_af_type@[i],
        rdd_idx: f.af_data_rdd_idx@[i],
        std_range: f.af_data_std_ran@[i],
        std_vel: f.af_data_std_vel@[i],
        std_theta: f.af_data_std_theta@[i],
        std_phi: f.af_data_std_phi@[i],
    }
}

/// A positive run never extends past `n`.
proof fn lemma_positive_run_le(snr: Seq<u32>, i: int, n: int)
    requires
        i <= n,
    ensures
        0 <= spec_positive_run(snr, i, n) <= n - i,
    decreases n - i,
{
    if i < n && spec_f32_bits_positive(snr[i]) {
        lemma_positive_run_le(snr, i + 1, n);
    }
}

/// The positive run from `i` is `m - i` when every slot in `i..m` is
/// positive and `m` is either `n` or the first non-positive slot.
proof fn lemma_positive_run_value(snr: Seq<u32>, i: int, m: int, n: int)
    requires
        0 <= i <= m <= n <= snr.len(),
        forall|j: int| i <= j < m ==> spec_f32_bits_positive(#[trigger] snr[j]),
        m < n ==> !spec_f32_bits_positive(snr[m]),
    ensures
        spec_positive_run(snr, i, n) == m - i,
    decreases m - i,
{
    if i < m {
        lemma_positive_run_value(snr, i + 1, m, n);
    }
}

/// Law: termination rule. If slot `m` is the first non-positive SNR below
/// the (clamped) detection count, extraction yields exactly `m` points.
pub proof fn lemma_termination_rule(f: StreamData, m: int)
    requires
        spec_frame_wf(f),
        0 <= m < spec_clamped_count(f.af_data_num_af_det),
        forall|j: int| 0 <= j < m ==> spec_f32_bits_positive(#[trigger] f.af_data_snr@[j]),
        !spec_f32_bits_positive(f.af_data_snr@[m]),
    ensures
        spec_point_count(f) == m,
{
    lemma_positive_run_value(f.af_data_snr@, 0, m, spec_clamped_count(f.af_data_num_af_det));
}

/// Law: bounds safety. However large the reported detection count, at most
/// one point per array slot is ever yielded.
pub proof fn lemma_count_clamped(f: StreamData)
    requires
        spec_frame_wf(f),
    ensures
        0 <= spec_point_count(f) <= ARRAY_CAPACITY,
        spec_point_count(f) <= spec_clamped_count(f.af_data_num_af_det),
{
    lemma_positive_run_le(f.af_data_snr@, 0, spec_clamped_count(f.af_data_num_af_det));
}

/// Produces the frame's valid detections, in slot order: one point per slot
/// below the clamped detection count, up to the first slot whose SNR is not
/// strictly positive. Does not mutate the frame.
pub fn extract_points(f: &StreamData) -> (points: Vec<RadarPoint>)
    requires
        spec_frame_wf(*f),
    ensures
        points@.len() == spec_point_count(*f),
        points@.len() <= ARRAY_CAPACITY,
        forall|i: int| 0 <= i < points@.len() ==> points@[i] == spec_point_at(*f, i),
{
    let count_raw = f.af_data_num_af_det;
    let count: usize = if count_raw < 0 {
        0
    } else if count_raw as usize >= ARRAY_CAPACITY {
        ARRAY_CAPACITY
    } else {
        count_raw as usize
    };
    let mut points: Vec<RadarPoint> = Vec::new();
    let mut i: usize = 0;
    while i < count && f32_bits_positive(f.af_data_snr[i])
        invariant
            spec_frame_wf(*f),
            count == spec_clamped_count(f.af_data_num_af_det),
            i <= count,
            points@.len() == i,
            forall|j: int| 0 <= j < i ==> spec_f32_bits_positive(
                #[trigger] f.af_data_snr@[j],
            ),
            forall|j: int| 0 <= j < i ==> points@[j] == spec_point_at(*f, j),
        decreases count - i,
    {
        points.push(
            RadarPoint {
                x: f.af_data_ran[i],
                velocity: f.af_data_vel[i],
                range: f.af_data_ran[i],
                theta: f.af_data_theta[i],
                phi: f.af_data_phi[i],
                rcs: f.af_data_rcs[i],
                snr: f.af_data_snr[i],
                amplitude: f.af_data_amp[i],
                power: f.af_data_pow[i],
                az_conf: f.af_data_az_conf[i],
                el_conf: f.af_data_el_conf[i],
                af_type: f.af_data_af_type[i],
                af_az_type: f.af_data_az_af_type[i],
                af_el_type: f.af_data_el_af_type[i],
                rdd_idx: f.af_data_rdd_idx[i],
                std_range: f.af_data_std_ran[i],
                std_vel: f.af_data_std_vel[i],
                std_theta: f.af_data_std_theta[i],
                std_phi: f.af_data_std_phi[i],
            },
        );
        i += 1;
    }
    proof {
        lemma_positive_run_value(
            f.af_data_snr@,
            0,
            i as int,
            spec_clamped_count(f.af_data_num_af_det),
        );
    }
    points
}

} // verus!
