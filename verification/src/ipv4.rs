//! Reading the fixed fields of an IPv4 header out of raw bytes.
//!
//! The header layout is standard: version and header length share the
//! first byte, total length and identification are big-endian 16-bit
//! fields, time-to-live, protocol and the two addresses sit at fixed
//! offsets.  The parse itself is delegated to `etherparse`; the
//! contracts below pin down, byte for byte, both when it accepts a
//! header and what every extracted field is.

use vstd::prelude::*;

verus! {

/// The version nibble of a header: the high half of its first byte.
pub open spec fn ipv4_version(h: Seq<u8>) -> u8
    recommends
        h.len() >= 1,
{
    h[0] >> 4
}

/// The header-length field (ihl): the low half of the first byte,
/// counting 4-byte units.
pub open spec fn ipv4_ihl(h: Seq<u8>) -> u8
    recommends
        h.len() >= 1,
{
    h[0] & 0x0f
}

/// The header's length in bytes: `ihl * 4`.
pub open spec fn ipv4_header_len(h: Seq<u8>) -> int
    recommends
        h.len() >= 1,
{
    ipv4_ihl(h) * 4
}

/// When a byte sequence starts with an acceptable IPv4 header: at least
/// the 20 mandatory bytes, version 4, an ihl of at least 5 units, and
/// enough bytes for the whole header including options.
pub open spec fn ipv4_header_ok(h: Seq<u8>) -> bool {
    &&& h.len() >= 20
    &&& ipv4_version(h) == 4
    &&& ipv4_ihl(h) >= 5
    &&& h.len() >= ipv4_header_len(h)
}

/// A big-endian 16-bit field.
pub open spec fn be16(hi: u8, lo: u8) -> u16 {
    (hi * 256 + lo) as u16
}

/// The total-length field: bytes 2 and 3, big-endian.
pub open spec fn ipv4_total_len(h: Seq<u8>) -> u16
    recommends
        h.len() >= 4,
{
    be16(h[2], h[3])
}

/// The payload length: total length minus header length, defined only
/// when the total-length field covers the header.
pub open spec fn ipv4_payload_len(h: Seq<u8>) -> Option<u16>
    recommends
        h.len() >= 4,
{
    if ipv4_header_len(h) <= ipv4_total_len(h) {
        Some((ipv4_total_len(h) - ipv4_header_len(h)) as u16)
    } else {
        None
    }
}

/// The fields read out of one IPv4 header.
#[derive(Debug, Clone, Copy, PartialEq, Eq)]
pub struct Ipv4Summary {
    /// Source address, bytes 12 through 15.
    pub source: [u8; 4],
    /// Destination address, bytes 16 through 19.
    pub destination: [u8; 4],
    /// Time to live, byte 8.
    pub ttl: u8,
    /// Protocol number, byte 9.
    pub protocol: u8,
    /// Identification field, bytes 4 and 5, big-endian.
    pub identification: u16,
    /// Total length field, bytes 2 and 3, big-endian.
    pub total_len: u16,
    /// Payload length, when the total-length field covers the header.
    pub payload_len: Option<u16>,
}

/// Every field of the summary is the designated bytes of the header.
pub open spec fn summarizes(s: Ipv4Summary, h: Seq<u8>) -> bool
    recommends
        h.len() >= 20,
{
    &&& s.source@ == h.subrange(12, 16)
    &&& s.destination@ == h.subrange(16, 20)
    &&& s.ttl == h[8]
    &&& s.protocol == h[9]
    &&& s.identification == be16(h[4], h[5])
    &&& s.total_len == ipv4_total_len(h)
    &&& s.payload_len == ipv4_payload_len(h)
}

/// Relies on `etherparse::Ipv4HeaderSlice::from_slice`, which accepts a
/// slice exactly when it holds at least 20 bytes, version 4, an ihl of
/// at least 5, and at least `ihl * 4` bytes in all; and on its accessors
/// `source`, `destination`, `ttl`, `protocol`, `identification`,
/// `total_len` and `payload_len`, each of which reads the fixed header
/// bytes that `summarizes` names.
#[verifier::external_body]
pub(crate) fn parse_ipv4_header(data: &[u8]) -> (r: Option<Ipv4Summary>)
    ensures
        r is Some <==> ipv4_header_ok(data@),
        r matches Some(s) ==> summarizes(s, data@),
{
    let h = match etherparse::Ipv4HeaderSlice::from_slice(data) {
        Ok(h) => h,
        Err(_) => return None,
    };
    Some(Ipv4Summary {
        source: h.source(),
        destination: h.destination(),
        ttl: h.ttl(),
        protocol: h.protocol().0,
        identification: h.identification(),
        total_len: h.total_len(),
        payload_len: h.payload_len().ok(),
    })
}

} // verus!
