//! Decisions of the interface read loop.
//!
//! The loop around a virtual network interface receives raw frames,
//! each prefixed by a 4-byte protocol tag, and reports the IPv4 ones;
//! when nothing arrives for long enough, it shuts down.  The I/O stays
//! with the caller; the decisions are here.

use vstd::prelude::*;
use crate::ipv4::Ipv4Summary;
use crate::ipv4::ipv4_header_ok;
use crate::ipv4::parse_ipv4_header;
use crate::ipv4::summarizes;

verus! {

/// Seconds without data after which the read loop shuts down.
pub const TIMER_LIMIT: u64 = 2;

/// The 4-byte protocol tag a TUN interface puts before an IPv4 frame:
/// flags 0, protocol 0x0800.
pub open spec fn tun_proto_is_ipv4(frame: Seq<u8>) -> bool {
    &&& frame.len() >= 4
    &&& frame[0] == 0
    &&& frame[1] == 0
    &&& frame[2] == 8
    &&& frame[3] == 0
}

/// What one received frame amounts to.
#[derive(Debug, Clone, Copy, PartialEq, Eq)]
pub enum FrameReport {
    /// The protocol tag is not IPv4 (or the frame is shorter than the tag).
    NotIpv4,
    /// Tagged IPv4, but the bytes after the tag are no valid IPv4 header.
    ParseError,
    /// A valid IPv4 header, with its fields read out.
    Ipv4(Ipv4Summary),
}

/// Classifies one received frame: anything not tagged IPv4 is skipped;
/// a tagged frame either yields its header fields or a parse error.
pub fn classify_tun_frame(frame: &[u8]) -> (r: FrameReport)
    ensures
        !tun_proto_is_ipv4(frame@) ==> r == FrameReport::NotIpv4,
        tun_proto_is_ipv4(frame@) && ipv4_header_ok(frame@.skip(4)) ==> (r
            matches FrameReport::Ipv4(s) && summarizes(s, frame@.skip(4))),
        tun_proto_is_ipv4(frame@) && !ipv4_header_ok(frame@.skip(4)) ==> r
            == FrameReport::ParseError,
{
    if frame.len() < 4 {
        return FrameReport::NotIpv4;
    }
    let tagged = *vstd::slice::slice_index_get(frame, 0) == 0 && *vstd::slice::slice_index_get(
        frame,
        1,
    ) == 0 && *vstd::slice::slice_index_get(frame, 2) == 8 && *vstd::slice::slice_index_get(
        frame,
        3,
    ) == 0;
    if !tagged {
        return FrameReport::NotIpv4;
    }
    let rest = vstd::slice::slice_subrange(frame, 4, frame.len());
    proof {
        assert(rest@ =~= frame@.skip(4));
    }
    match parse_ipv4_header(rest) {
        Some(s) => FrameReport::Ipv4(s),
        None => FrameReport::ParseError,
    }
}

/// Whether the read loop should shut down: no data has arrived for at
/// least `TIMER_LIMIT` seconds.
pub fn should_shut_down(elapsed_secs: u64) -> (r: bool)
    ensures
        r == (elapsed_secs >= TIMER_LIMIT),
{
    elapsed_secs >= TIMER_LIMIT
}

} // verus!
