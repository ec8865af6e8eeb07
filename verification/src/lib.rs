//! Verified core of a radar UDP telemetry reader.
//!
//! A radar sensor transmits one large fixed-layout binary frame per scan,
//! fragmented across many UDP datagrams ("chunks"). This library holds the
//! protocol logic: decoding the fixed 28-byte header that prefixes every
//! datagram, reassembling chunk payloads into one frame buffer, decoding the
//! reassembled buffer into a typed record, and extracting the valid
//! detections as points. Transport I/O and the point-cloud sink live outside
//! the library; floating-point measurements are carried as their IEEE 754
//! bit patterns so that the selection logic on them can be verified.

pub mod extract;
pub mod frame;
pub mod header;
pub mod reassembly;
