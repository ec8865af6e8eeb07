use radar_reader::extract::{extract_points, f32_bits_positive, RadarPoint};
use radar_reader::frame::{
    decode_frame, FrameError, StreamData, ARRAY_CAPACITY, FRAME_BYTES, PAD_FILL_BYTES,
};
use radar_reader::header::{decode_header, encode_header, FrameHeader, HEADER_BYTES};
use radar_reader::reassembly::{
    config_from_sizes, ChunkOutcome, ReassemblyConfig, ReassemblyState,
};

fn sample_header() -> FrameHeader {
    FrameHeader {
        version_info: 0x0102,
        source_tx_cnt: 0xA0B1,
        source_tx_time: 0xDEADBEEF,
        source_info: 1,
        source_info1: 2,
        source_info2: 3,
        source_info3: 4,
        stream_ref_index: 0x11223344,
        stream_data_len: 1444,
        stream_tx_cnt: 9,
        stream_number: 1,
        stream_version: 5,
        stream_chunks_per_cycle: 6,
        stream_chunks: 74,
        stream_chunk_idx: 73,
        reserved: 0,
        sensor_id: 7,
    }
}

fn datagram(stream_number: u8, chunk_idx: u16, payload_len: usize, fill: u8) -> Vec<u8> {
    let mut h = sample_header();
    h.stream_number = stream_number;
    h.stream_chunk_idx = chunk_idx;
    let mut d = encode_header(&h);
    for k in 0..payload_len {
        d.push(fill.wrapping_add(k as u8));
    }
    d
}

fn zero_frame() -> StreamData {
    StreamData {
        stream_hdr_size: 0,
        stream_hdr_version: 0,
        stream_hdr_checksum: 0,
        stream_hdr_scan_index: 0,
        stream_hdr_error_info: 0,
        stream_hdr_module_time_ms: 0,
        bistatic_count: 0,
        af_xput_count: 0,
        af_xput_inst: 0,
        af_data_num_af_det: 0,
        af_data_ran: vec![0; 1024],
        af_data_vel: vec![0; 1024],
        af_data_pow: vec![0; 1024],
        af_data_snr: vec![0; 1024],
        af_data_theta: vec![0; 1024],
        af_data_phi: vec![0; 1024],
        af_data_rcs: vec![0; 1024],
        af_data_amp: vec![0; 1024],
        af_data_sin_theta3: vec![0; 1024],
        af_data_sin_phi3: vec![0; 1024],
        af_data_az_conf: vec![0; 1024],
        af_data_el_conf: vec![0; 1024],
        af_data_f_single_target: vec![0; 1024],
        af_data_f_superres_target: vec![0; 1024],
        af_data_f_laz2el: vec![0; 1024],
        af_data_f_bistatic: vec![0; 1024],
        af_data_f_peak_det: vec![0; 1024],
        af_data_af_type: vec![0; 1024],
        af_data_az_af_type: vec![0; 1024],
        af_data_el_af_type: vec![0; 1024],
        af_data_rdd_idx: vec![0; 1024],
        af_data_spec_res: vec![0; 1024],
        af_data_std_ran: vec![0; 1024],
        af_data_std_vel: vec![0; 1024],
        af_data_std_theta: vec![0; 1024],
        af_data_std_phi: vec![0; 1024],
        c66_error_code: 0,
        look_index: 0,
        scan_index: 0,
        trigger_missed_cnt: 0,
        look_type: 0,
        range_coverage: 0,
        doppler_coverage: 0,
        rest_count: 0,
        num_fp_detections: 0,
        num_sp_detections: 0,
        k_unused16_1: 0,
        xcp_mode: 0,
        k_unused8_1: 0,
    }
}

#[test]
fn header_decode_reads_every_field() {
    let bytes = encode_header(&sample_header());
    assert_eq!(bytes.len(), HEADER_BYTES);
    let h = decode_header(&bytes);
    assert_eq!(h, sample_header());
}

#[test]
fn header_round_trip_from_bytes() {
    let bytes: Vec<u8> = (0u8..28).map(|b| b.wrapping_mul(37).wrapping_add(11)).collect();
    let h = decode_header(&bytes);
    assert_eq!(encode_header(&h), bytes);
    // spot-check the little-endian field extraction at both ends
    assert_eq!(h.version_info, u16::from_le_bytes([bytes[0], bytes[1]]));
    assert_eq!(
        h.source_tx_time,
        u32::from_le_bytes([bytes[4], bytes[5], bytes[6], bytes[7]])
    );
    assert_eq!(h.stream_number, bytes[19]);
    assert_eq!(h.stream_chunk_idx, u16::from_le_bytes([bytes[24], bytes[25]]));
    assert_eq!(h.sensor_id, bytes[27]);
}

#[test]
fn config_derives_last_chunk_index() {
    let cfg = config_from_sizes(1, FRAME_BYTES, 1444);
    assert_eq!(cfg.target_stream, 1);
    assert_eq!(cfg.last_chunk_idx, 73);
}

#[test]
fn three_chunks_reassemble_in_order() {
    let cfg = ReassemblyConfig { target_stream: 1, last_chunk_idx: 2 };
    let mut st = ReassemblyState::new();
    let sizes = [1444usize, 1444, 100];
    let mut expected = Vec::new();
    for (i, &sz) in sizes.iter().enumerate() {
        let d = datagram(1, i as u16, sz, i as u8);
        let h = decode_header(&d);
        expected.extend_from_slice(&d[HEADER_BYTES..]);
        let out = st.process_datagram(&cfg, &h, &d);
        match out {
            ChunkOutcome::Accumulated => assert!(i < 2),
            ChunkOutcome::FrameComplete(buf) => {
                assert_eq!(i, 2);
                assert_eq!(buf.len(), 2988);
                assert_eq!(buf, expected);
            }
            _ => panic!("unexpected outcome"),
        }
    }
    assert_eq!(st.expected_next_chunk_idx, 0);
    assert!(st.accumulated_payload.is_empty());
}

#[test]
fn gap_resets_and_discards_the_gap_datagram() {
    let cfg = ReassemblyConfig { target_stream: 1, last_chunk_idx: 73 };
    let mut st = ReassemblyState::new();
    for idx in [0u16, 1] {
        let d = datagram(1, idx, 10, 0);
        let h = decode_header(&d);
        assert!(matches!(st.process_datagram(&cfg, &h, &d), ChunkOutcome::Accumulated));
    }
    assert_eq!(st.accumulated_payload.len(), 20);
    let d = datagram(1, 3, 10, 0);
    let h = decode_header(&d);
    assert!(matches!(st.process_datagram(&cfg, &h, &d), ChunkOutcome::GapDetected));
    assert!(st.accumulated_payload.is_empty());
    assert_eq!(st.expected_next_chunk_idx, 0);
}

#[test]
fn other_streams_are_ignored() {
    let cfg = ReassemblyConfig { target_stream: 1, last_chunk_idx: 73 };
    let mut st = ReassemblyState::new();
    let d = datagram(1, 0, 5, 0);
    let h = decode_header(&d);
    assert!(matches!(st.process_datagram(&cfg, &h, &d), ChunkOutcome::Accumulated));
    let d2 = datagram(2, 4, 5, 0);
    let h2 = decode_header(&d2);
    assert!(matches!(st.process_datagram(&cfg, &h2, &d2), ChunkOutcome::Ignored));
    assert_eq!(st.accumulated_payload.len(), 5);
    assert_eq!(st.expected_next_chunk_idx, 1);
}

#[test]
fn completion_resets_state_for_the_next_frame() {
    let cfg = ReassemblyConfig { target_stream: 1, last_chunk_idx: 0 };
    let mut st = ReassemblyState::new();
    let d = datagram(1, 0, 12, 3);
    let h = decode_header(&d);
    match st.process_datagram(&cfg, &h, &d) {
        ChunkOutcome::FrameComplete(buf) => assert_eq!(buf.len(), 12),
        _ => panic!("single-chunk frame should complete"),
    }
    assert_eq!(st.expected_next_chunk_idx, 0);
    assert!(st.accumulated_payload.is_empty());
    // the reset state accepts the next frame's chunk 0 at once
    match st.process_datagram(&cfg, &h, &d) {
        ChunkOutcome::FrameComplete(buf) => assert_eq!(buf.len(), 12),
        _ => panic!("single-chunk frame should complete"),
    }
}

#[test]
fn decode_frame_reads_declared_offsets() {
    let mut buf = vec![0u8; FRAME_BYTES + 300];
    buf[0..4].copy_from_slice(&0xAABBCCDDu32.to_le_bytes());
    buf[4..6].copy_from_slice(&0x0201u16.to_le_bytes());
    buf[12..16].copy_from_slice(&123456u32.to_le_bytes());
    buf[28..32].copy_from_slice(&5i32.to_le_bytes());
    // snr is the fourth detection array; range the first
    let snr_base = 32 + 3 * 4096;
    buf[snr_base..snr_base + 4].copy_from_slice(&7.5f32.to_le_bytes());
    buf[32..36].copy_from_slice(&42.25f32.to_le_bytes());
    // rdd_idx is the twenty-first array; give slot 0 a negative value
    let rdd_base = 32 + 20 * 4096;
    buf[rdd_base..rdd_base + 4].copy_from_slice(&(-9i32).to_le_bytes());
    let trailer = 32 + 26 * 4096;
    buf[trailer..trailer + 2].copy_from_slice(&0x1234u16.to_le_bytes());
    buf[trailer + 12..trailer + 14].copy_from_slice(&(-77i16).to_le_bytes());
    buf[trailer + 22] = 0xEE;
    let f = decode_frame(&buf).expect("full-size buffer must decode");
    assert_eq!(f.stream_hdr_size, 0xAABBCCDD);
    assert_eq!(f.stream_hdr_version, 0x0201);
    assert_eq!(f.stream_hdr_module_time_ms, 123456);
    assert_eq!(f.af_data_num_af_det, 5);
    assert_eq!(f.af_data_snr[0], 7.5f32.to_bits());
    assert_eq!(f.af_data_ran[0], 42.25f32.to_bits());
    assert_eq!(f.af_data_rdd_idx[0], -9);
    assert_eq!(f.af_data_ran.len(), ARRAY_CAPACITY);
    assert_eq!(f.c66_error_code, 0x1234);
    assert_eq!(f.doppler_coverage, -77);
    assert_eq!(f.xcp_mode, 0xEE);
}

#[test]
fn decode_frame_pads_a_slightly_short_buffer() {
    let buf = vec![0u8; FRAME_BYTES - PAD_FILL_BYTES];
    let f = decode_frame(&buf).expect("a buffer within the pad allowance must decode");
    assert_eq!(f.af_data_num_af_det, 0);
    assert_eq!(f.xcp_mode, 0);
}

#[test]
fn decode_frame_rejects_a_short_buffer() {
    let buf = vec![0u8; FRAME_BYTES - PAD_FILL_BYTES - 1];
    assert!(matches!(decode_frame(&buf), Err(FrameError::MalformedFrame)));
    assert!(matches!(decode_frame(&[]), Err(FrameError::MalformedFrame)));
}

#[test]
fn extraction_stops_at_first_non_positive_snr() {
    let mut f = zero_frame();
    f.af_data_num_af_det = 5;
    let snrs = [3.0f32, 1.0, 0.0, 2.0, 4.0];
    for (i, &v) in snrs.iter().enumerate() {
        f.af_data_snr[i] = v.to_bits();
        f.af_data_ran[i] = (10.0f32 + i as f32).to_bits();
        f.af_data_vel[i] = (0.5f32 * i as f32).to_bits();
        f.af_data_az_conf[i] = 90 + i as i32;
        f.af_data_rdd_idx[i] = i as i32;
        f.af_data_std_ran[i] = (0.25f32).to_bits();
    }
    let points = extract_points(&f);
    assert_eq!(points.len(), 2);
    assert_eq!(points[0].snr, 3.0f32.to_bits());
    assert_eq!(points[1].snr, 1.0f32.to_bits());
    assert_eq!(points[0].x, 10.0f32.to_bits());
    assert_eq!(points[0].range, 10.0f32.to_bits());
    assert_eq!(points[1].velocity, 0.5f32.to_bits());
    assert_eq!(points[1].az_conf, 91);
    assert_eq!(points[1].rdd_idx, 1);
    assert_eq!(points[0].std_range, 0.25f32.to_bits());
}

#[test]
fn extraction_count_matches_first_break() {
    let mut f = zero_frame();
    f.af_data_num_af_det = 4;
    for (i, v) in [2.0f32, -1.0, 3.0, 4.0].iter().enumerate() {
        f.af_data_snr[i] = v.to_bits();
    }
    assert_eq!(extract_points(&f).len(), 1);
}

#[test]
fn extraction_clamps_oversized_counts() {
    let mut f = zero_frame();
    f.af_data_num_af_det = i32::MAX;
    for i in 0..1024 {
        f.af_data_snr[i] = 1.0f32.to_bits();
    }
    assert_eq!(extract_points(&f).len(), ARRAY_CAPACITY);
    f.af_data_num_af_det = -3;
    assert_eq!(extract_points(&f).len(), 0);
}

#[test]
fn positivity_matches_ieee_comparison() {
    let samples = [
        0.0f32,
        -0.0,
        1.0,
        -1.0,
        f32::INFINITY,
        f32::NEG_INFINITY,
        f32::NAN,
        -f32::NAN,
        f32::MIN_POSITIVE,
        f32::from_bits(1), // least positive subnormal
        f32::MAX,
        f32::MIN,
    ];
    for v in samples {
        assert_eq!(f32_bits_positive(v.to_bits()), v > 0.0, "disagrees on {v}");
    }
}

#[test]
fn full_pipeline_over_chunked_frame() {
    // one whole frame, cut into 74 chunks of 1444 payload bytes
    let mut wire = vec![0u8; 74 * 1444];
    wire[28..32].copy_from_slice(&2i32.to_le_bytes());
    let snr_base = 32 + 3 * 4096;
    wire[snr_base..snr_base + 4].copy_from_slice(&6.0f32.to_le_bytes());
    wire[snr_base + 4..snr_base + 8].copy_from_slice(&5.0f32.to_le_bytes());
    wire[32..36].copy_from_slice(&100.0f32.to_le_bytes());
    wire[36..40].copy_from_slice(&200.0f32.to_le_bytes());

    let cfg = config_from_sizes(1, FRAME_BYTES, 1444);
    let mut st = ReassemblyState::new();
    let mut frames: Vec<StreamData> = Vec::new();
    for i in 0..74u16 {
        let mut d = datagram(1, i, 0, 0);
        d.extend_from_slice(&wire[i as usize * 1444..(i as usize + 1) * 1444]);
        let h = decode_header(&d);
        match st.process_datagram(&cfg, &h, &d) {
            ChunkOutcome::FrameComplete(buf) => {
                assert_eq!(i, 73);
                frames.push(decode_frame(&buf).expect("reassembled frame must decode"));
            }
            ChunkOutcome::Accumulated => assert!(i < 73),
            _ => panic!("unexpected outcome"),
        }
    }
    assert_eq!(frames.len(), 1);
    let points: Vec<RadarPoint> = extract_points(&frames[0]);
    assert_eq!(points.len(), 2);
    assert_eq!(points[0].range, 100.0f32.to_bits());
    assert_eq!(points[1].range, 200.0f32.to_bits());
}
