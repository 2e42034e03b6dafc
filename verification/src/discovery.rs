//! The UDP wire formats around the voice data: IP discovery and
//! keepalive.
//!
//! IP discovery finds the session's external address: a 74-byte
//! request is sent and the server echoes a 74-byte response holding
//! the address as null-terminated ASCII and the port big-endian.

use vstd::prelude::*;
use crate::bytesutil::{push_u16_be, push_u32_be, read_u16_be, read_u32_be, spec_be_u16,
    spec_u16_be, spec_u32_be};
use crate::constants::KEEPALIVE_LEN;
use crate::error::VoiceError;

verus! {

/// Total length of a discovery datagram: type, length, stream
/// identifier, 64 address bytes, port.
pub const DISCOVERY_LEN: usize = 74;

/// Offset of the address field inside a discovery datagram.
pub const DISCOVERY_ADDRESS_OFFSET: usize = 8;

/// Length of the address field inside a discovery datagram.
pub const DISCOVERY_ADDRESS_LEN: usize = 64;

/// Offset of the port field inside a discovery datagram.
pub const DISCOVERY_PORT_OFFSET: usize = 72;

/// The 74 bytes of a discovery request for `ssrc`: type 1, length 70,
/// the stream identifier, and zeroes.
pub open spec fn spec_discovery_request(ssrc: u32) -> Seq<u8> {
    spec_u16_be(1) + spec_u16_be(70) + spec_u32_be(ssrc) + Seq::new(66, |i: int| 0u8)
}

/// Builds the discovery request datagram for `ssrc`.
pub fn build_discovery_request(ssrc: u32) -> (r: Vec<u8>)
    ensures
        r@ == spec_discovery_request(ssrc),
        r@.len() == DISCOVERY_LEN,
{
    let mut out: Vec<u8> = Vec::new();
    push_u16_be(&mut out, 1);
    push_u16_be(&mut out, 70);
    push_u32_be(&mut out, ssrc);
    let mut i: usize = 0;
    while i < 66
        invariant
            i <= 66,
            out@ == spec_u16_be(1) + spec_u16_be(70) + spec_u32_be(ssrc) + Seq::new(
                i as nat,
                |k: int| 0u8,
            ),
        decreases 66 - i,
    {
        out.push(0);
        i = i + 1;
        proof {
            assert(out@ =~= spec_u16_be(1) + spec_u16_be(70) + spec_u32_be(ssrc) + Seq::new(
                i as nat,
                |k: int| 0u8,
            ));
        }
    }
    proof {
        assert(out@ =~= spec_discovery_request(ssrc));
    }
    out
}

/// The index of the first zero byte of `s` at or after `i` and before
/// `end`, or `end` when there is none.
pub open spec fn spec_scan_nul(s: Seq<u8>, i: int, end: int) -> int
    decreases end - i,
{
    if i < 0 || i >= end || i >= s.len() {
        i
    } else if s[i] == 0 {
        i
    } else {
        spec_scan_nul(s, i + 1, end)
    }
}

/// Where the null-terminated address inside a discovery response ends.
pub open spec fn spec_address_end(b: Seq<u8>) -> int {
    spec_scan_nul(b, DISCOVERY_ADDRESS_OFFSET as int, (DISCOVERY_ADDRESS_OFFSET
        + DISCOVERY_ADDRESS_LEN) as int)
}

/// The external address and port a discovery response reports.
#[derive(Clone, Debug, PartialEq, Eq)]
pub struct DiscoveredAddress {
    /// The ASCII bytes of the address, up to its null terminator.
    pub address: Vec<u8>,
    /// The external port, read big-endian.
    pub port: u16,
}

/// Whether a datagram is a well-formed discovery response: long enough
/// and of type 2.
pub open spec fn spec_discovery_response_ok(b: Seq<u8>) -> bool {
    b.len() >= DISCOVERY_LEN && spec_be_u16(b[0], b[1]) == 2
}

/// Parses the discovery response: checks the type field and extracts
/// the null-terminated ASCII address and the big-endian port.  Any
/// short or differently-typed datagram is an illegal response.
pub fn parse_discovery_response(b: &[u8]) -> (r: Result<DiscoveredAddress, VoiceError>)
    ensures
        r is Ok <==> spec_discovery_response_ok(b@),
        r matches Ok(d) ==> {
            &&& d.address@ == b@.subrange(DISCOVERY_ADDRESS_OFFSET as int, spec_address_end(b@))
            &&& d.port == spec_be_u16(b@[DISCOVERY_PORT_OFFSET as int], b@[DISCOVERY_PORT_OFFSET
                + 1])
        },
        r matches Err(e) ==> e == VoiceError::IllegalDiscoveryResponse,
{
    if b.len() < DISCOVERY_LEN {
        return Err(VoiceError::IllegalDiscoveryResponse);
    }
    let pkt_type = read_u16_be(b, 0);
    if pkt_type != 2 {
        return Err(VoiceError::IllegalDiscoveryResponse);
    }
    let mut address: Vec<u8> = Vec::new();
    let mut i: usize = DISCOVERY_ADDRESS_OFFSET;
    while i < DISCOVERY_ADDRESS_OFFSET + DISCOVERY_ADDRESS_LEN && b[i] != 0
        invariant
            DISCOVERY_ADDRESS_OFFSET <= i <= DISCOVERY_ADDRESS_OFFSET + DISCOVERY_ADDRESS_LEN,
            b@.len() >= DISCOVERY_LEN,
            forall|j: int| DISCOVERY_ADDRESS_OFFSET <= j < i ==> b@[j] != 0,
            address@ == b@.subrange(DISCOVERY_ADDRESS_OFFSET as int, i as int),
        decreases DISCOVERY_ADDRESS_OFFSET + DISCOVERY_ADDRESS_LEN - i,
    {
        address.push(b[i]);
        i = i + 1;
        proof {
            assert(address@ =~= b@.subrange(DISCOVERY_ADDRESS_OFFSET as int, i as int));
        }
    }
    proof {
        lemma_scan_nul_stop(b@, DISCOVERY_ADDRESS_OFFSET as int, i as int, (
        DISCOVERY_ADDRESS_OFFSET + DISCOVERY_ADDRESS_LEN) as int);
    }
    let port = read_u16_be(b, DISCOVERY_PORT_OFFSET);
    Ok(DiscoveredAddress { address, port })
}

/// A scan over non-zero bytes that stopped at `i` — at the field's end
/// or on a zero byte — stopped exactly where `spec_scan_nul` points.
proof fn lemma_scan_nul_stop(s: Seq<u8>, start: int, i: int, end: int)
    requires
        0 <= start <= i <= end <= s.len(),
        forall|j: int| start <= j < i ==> s[j] != 0,
        i == end || s[i] == 0,
    ensures
        spec_scan_nul(s, start, end) == i,
    decreases i - start,
{
    if start < i {
        lemma_scan_nul_stop(s, start + 1, i, end);
    }
}

/// The 8 keepalive bytes for `ssrc`: the stream identifier big-endian,
/// then zeroes.
pub open spec fn spec_keepalive_bytes(ssrc: u32) -> Seq<u8> {
    spec_u32_be(ssrc) + Seq::new(4, |i: int| 0u8)
}

/// Builds the keepalive datagram the UDP writer transmits while idle.
pub fn keepalive_bytes(ssrc: u32) -> (r: Vec<u8>)
    ensures
        r@ == spec_keepalive_bytes(ssrc),
        r@.len() == KEEPALIVE_LEN,
{
    let mut out: Vec<u8> = Vec::new();
    push_u32_be(&mut out, ssrc);
    out.push(0);
    out.push(0);
    out.push(0);
    out.push(0);
    proof {
        assert(out@ =~= spec_keepalive_bytes(ssrc));
    }
    out
}

} // verus!
