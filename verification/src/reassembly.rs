//! Chunk reassembler: a state machine that accumulates the payloads of the
//! datagrams belonging to one in-flight frame, in chunk-index order, and
//! hands the finished buffer out when the last chunk arrives.
//!
//! A chunk whose index breaks the expected sequence is a lost-frame event:
//! the in-flight frame is discarded and the state reset. That is a normal
//! operating condition of a best-effort transport, not an error.

use crate::header::FrameHeader;
use crate::header::HEADER_BYTES;
use vstd::arithmetic::div_mod::lemma_div_non_zero;
use vstd::prelude::*;
use vstd::slice::slice_subrange;

verus! {

/// External configuration of the reassembler.
#[derive(Clone, Copy, Debug, PartialEq, Eq, Structural)]
pub struct ReassemblyConfig {
    /// Stream identifier to listen to; datagrams of other streams are ignored.
    pub target_stream: u8,
    /// Chunk index that completes a frame: one less than the frame's chunk
    /// count, derived from the frame byte size and the per-chunk payload size.
    pub last_chunk_idx: u16,
}

/// Number of chunks needed to carry `frame_bytes` bytes at
/// `chunk_payload_bytes` payload bytes per chunk: the quotient rounded up.
pub open spec fn spec_chunk_count(frame_bytes: int, chunk_payload_bytes: int) -> int {
    (frame_bytes + chunk_payload_bytes - 1) / chunk_payload_bytes
}

/// Builds a configuration from the frame byte size and the per-chunk payload
/// size, deriving the completing chunk index rather than hard-coding it.
pub fn config_from_sizes(
    target_stream: u8,
    frame_bytes: usize,
    chunk_payload_bytes: usize,
) -> (cfg: ReassemblyConfig)
    requires
        frame_bytes > 0,
        chunk_payload_bytes > 0,
        (frame_bytes - 1) + chunk_payload_bytes <= usize::MAX,
        spec_chunk_count(frame_bytes as int, chunk_payload_bytes as int) - 1 <= u16::MAX,
    ensures
        cfg.target_stream == target_stream,
        cfg.last_chunk_idx == spec_chunk_count(frame_bytes as int, chunk_payload_bytes as int)
            - 1,
{
    let numerator = (frame_bytes - 1) + chunk_payload_bytes;
    let count = numerator / chunk_payload_bytes;
    proof {
        lemma_div_non_zero(numerator as int, chunk_payload_bytes as int);
    }
    ReassemblyConfig { target_stream, last_chunk_idx: (count - 1) as u16 }
}

/// What the reassembler reports about one processed datagram.
#[derive(Debug)]
pub enum ChunkOutcome {
    /// The datagram belongs to another stream; nothing changed.
    Ignored,
    /// The chunk index broke the sequence: the in-flight frame was discarded,
    /// the state reset, and this datagram's payload not incorporated.
    GapDetected,
    /// The payload was appended; the frame is still incomplete.
    Accumulated,
    /// This chunk completed the frame: the reassembled buffer, ready for the
    /// frame decoder. The state was reset for the next frame.
    FrameComplete(Vec<u8>),
}

/// The payload portion of a datagram: everything after the 28-byte header.
pub open spec fn spec_payload(d: Seq<u8>) -> Seq<u8>
    recommends
        d.len() >= HEADER_BYTES,
{
    d.subrange(HEADER_BYTES as int, d.len() as int)
}

/// Whether the datagram belongs to the configured stream.
pub open spec fn spec_is_target(cfg: ReassemblyConfig, h: FrameHeader) -> bool {
    h.stream_number == cfg.target_stream
}

/// Gap rule: a non-zero chunk index that is not the expected one.
pub open spec fn spec_is_gap(expected: u16, h: FrameHeader) -> bool {
    h.stream_chunk_idx != 0 && h.stream_chunk_idx != expected
}

/// Whether this chunk's index completes the frame.
pub open spec fn spec_completes(cfg: ReassemblyConfig, h: FrameHeader) -> bool {
    h.stream_chunk_idx == cfg.last_chunk_idx
}

/// The reassembly state after one datagram, as a pair of the expected next
/// chunk index and the accumulated payload bytes.
pub open spec fn spec_step(
    cfg: ReassemblyConfig,
    expected: u16,
    acc: Seq<u8>,
    h: FrameHeader,
    d: Seq<u8>,
) -> (u16, Seq<u8>) {
    if !spec_is_target(cfg, h) {
        (expected, acc)
    } else if spec_is_gap(expected, h) {
        (0u16, Seq::<u8>::empty())
    } else if spec_completes(cfg, h) {
        (0u16, Seq::<u8>::empty())
    } else {
        (((h.stream_chunk_idx + 1) as u16), acc + spec_payload(d))
    }
}

/// State of the one in-flight frame.
///
/// Invariant maintained by `process_datagram`: `accumulated_payload` holds
/// exactly the concatenation, in arrival order, of the payloads accepted
/// since the last reset, and `expected_next_chunk_idx` is the index the next
/// chunk must carry.
pub struct ReassemblyState {
    /// Index the next accepted chunk must carry; 0 right after a reset.
    pub expected_next_chunk_idx: u16,
    /// Concatenated payloads of the chunks accepted since the last reset.
    pub accumulated_payload: Vec<u8>,
}

impl ReassemblyState {
    /// Fresh state: empty buffer, expecting chunk 0.
    pub fn new() -> (s: Self)
        ensures
            s.expected_next_chunk_idx == 0,
            s.accumulated_payload@ == Seq::<u8>::empty(),
    {
        ReassemblyState { expected_next_chunk_idx: 0, accumulated_payload: Vec::new() }
    }

    /// Processes one received datagram, already split into its decoded
    /// header and its raw bytes.
    ///
    /// Wrong stream: ignored, state untouched. Sequence gap: the in-flight
    /// frame is discarded, the state reset, the datagram not incorporated.
    /// Expected chunk: its payload is appended; if its index completes the
    /// frame, the whole accumulated buffer is handed out and the state reset
    /// for the next frame, whatever becomes of the buffer downstream.
    pub fn process_datagram(
        &mut self,
        cfg: &ReassemblyConfig,
        header: &FrameHeader,
        datagram: &[u8],
    ) -> (out: ChunkOutcome)
        requires
            datagram@.len() >= HEADER_BYTES,
            old(self).accumulated_payload@.len() + datagram@.len() <= usize::MAX,
            // the successor of an accepted chunk index must fit the u16
            // state field, unless that chunk completes the frame
            header.stream_chunk_idx < u16::MAX || cfg.last_chunk_idx == u16::MAX,
        ensures
            (
                final(self).expected_next_chunk_idx,
                final(self).accumulated_payload@,
            ) == spec_step(
                *cfg,
                old(self).expected_next_chunk_idx,
                old(self).accumulated_payload@,
                *header,
                datagram@,
            ),
            !spec_is_target(*cfg, *header) ==> (out matches ChunkOutcome::Ignored) && *final(self)
                == *old(self),
            spec_is_target(*cfg, *header) && spec_is_gap(
                old(self).expected_next_chunk_idx,
                *header,
            ) ==> (out matches ChunkOutcome::GapDetected),
            spec_is_target(*cfg, *header) && !spec_is_gap(
                old(self).expected_next_chunk_idx,
                *header,
            ) && spec_completes(*cfg, *header) ==> (out matches ChunkOutcome::FrameComplete(buf)
                && buf@ == old(self).accumulated_payload@ + spec_payload(datagram@)),
            spec_is_target(*cfg, *header) && !spec_is_gap(
                old(self).expected_next_chunk_idx,
                *header,
            ) && !spec_completes(*cfg, *header) ==> (out matches ChunkOutcome::Accumulated),
    {
        if header.stream_number != cfg.target_stream {
            return ChunkOutcome::Ignored;
        }
        let idx = header.stream_chunk_idx;
        if idx != 0 && idx != self.expected_next_chunk_idx {
            self.expected_next_chunk_idx = 0;
            self.accumulated_payload = Vec::new();
            return ChunkOutcome::GapDetected;
        }
        let payload = slice_subrange(datagram, HEADER_BYTES, datagram.len());
        self.accumulated_payload.extend_from_slice(payload);
        if idx == cfg.last_chunk_idx {
            self.expected_next_chunk_idx = 0;
            let buf = self.accumulated_payload.split_off(0);
            proof {
                assert(final(self).accumulated_payload@ =~= Seq::<u8>::empty());
            }
            return ChunkOutcome::FrameComplete(buf);
        }
        self.expected_next_chunk_idx = idx + 1;
        ChunkOutcome::Accumulated
    }
}

/// The state after feeding datagrams `0..n` of `ds`, with their headers
/// `hs`, one at a time into `spec_step`, starting from `st`.
pub open spec fn spec_apply_chunks(
    cfg: ReassemblyConfig,
    st: (u16, Seq<u8>),
    hs: Seq<FrameHeader>,
    ds: Seq<Seq<u8>>,
    n: int,
) -> (u16, Seq<u8>)
    decreases n,
{
    if n <= 0 {
        st
    } else {
        let prev = spec_apply_chunks(cfg, st, hs, ds, n - 1);
        spec_step(cfg, prev.0, prev.1, hs[n - 1], ds[n - 1])
    }
}

/// The payloads of datagrams `0..n`, concatenated in arrival order.
pub open spec fn spec_concat_payloads(ds: Seq<Seq<u8>>, n: int) -> Seq<u8>
    decreases n,
{
    if n <= 0 {
        Seq::<u8>::empty()
    } else {
        spec_concat_payloads(ds, n - 1) + spec_payload(ds[n - 1])
    }
}

/// The summed payload lengths of datagrams `0..n`.
pub open spec fn spec_sum_payload_lens(ds: Seq<Seq<u8>>, n: int) -> int
    decreases n,
{
    if n <= 0 {
        0
    } else {
        spec_sum_payload_lens(ds, n - 1) + (ds[n - 1].len() - HEADER_BYTES)
    }
}

/// Law: starting from a fresh state, processing chunks with indices
/// `0..n` in order, all on the target stream, with no gap and none reaching
/// the completing index, leaves the expected index at `n` and the buffer
/// holding exactly the concatenation of the `n` payloads in arrival order;
/// the buffer length is the sum of the `n` payload lengths.
pub proof fn lemma_contiguous_chunks_accumulate(
    cfg: ReassemblyConfig,
    hs: Seq<FrameHeader>,
    ds: Seq<Seq<u8>>,
    n: int,
)
    requires
        0 <= n <= hs.len(),
        n <= ds.len(),
        n <= cfg.last_chunk_idx,
        forall|i: int| 0 <= i < n ==> (#[trigger] hs[i]).stream_number == cfg.target_stream,
        forall|i: int| 0 <= i < n ==> (#[trigger] hs[i]).stream_chunk_idx == i,
        forall|i: int| 0 <= i < n ==> (#[trigger] ds[i]).len() >= HEADER_BYTES,
    ensures
        spec_apply_chunks(cfg, (0u16, Seq::<u8>::empty()), hs, ds, n) == (
            n as u16,
            spec_concat_payloads(ds, n),
        ),
        spec_concat_payloads(ds, n).len() == spec_sum_payload_lens(ds, n),
    decreases n,
{
    if n > 0 {
        lemma_contiguous_chunks_accumulate(cfg, hs, ds, n - 1);
    }
}

} // verus!
