//! Fixed parameters of the voice data plane.

use vstd::prelude::*;

verus! {

/// Sample rate of every mixed or decoded stream, in Hz.
pub const SAMPLE_RATE: u32 = 48000;

/// Samples in one 20 ms frame of one channel.
pub const MONO_FRAME_SIZE: usize = 960;

/// Samples in one 20 ms interleaved stereo frame.
pub const STEREO_FRAME_SIZE: usize = 1920;

/// Length of one mixer tick in milliseconds.
pub const FRAME_LEN_MS: usize = 20;

/// RTP timestamp increment per transmitted frame.
pub const TIMESTAMP_STEP: u32 = 960;

/// Largest inbound voice datagram that is examined.
pub const VOICE_PACKET_MAX: usize = 1460;

/// RTP version spoken on the data plane.
pub const RTP_VERSION: u8 = 2;

/// RTP payload type of voice frames.
pub const RTP_PROFILE_TYPE: u8 = 0x78;

/// Length of the fixed RTP header in bytes.
pub const RTP_HEADER_LEN: usize = 12;

/// Length of the Poly1305 authentication tag in bytes.
pub const TAG_SIZE: usize = 16;

/// Length of the XSalsa20 nonce in bytes.
pub const NONCE_SIZE: usize = 24;

/// Length of the session key in bytes.
pub const KEY_SIZE: usize = 32;

/// Consecutive silent ticks transmitted after the last audible frame
/// before transmission pauses, and the silent-frame count at which an
/// inbound source is considered to have stopped speaking.
pub const SILENT_FRAME_LIMIT: u16 = 5;

/// Milliseconds between keepalive datagrams on the UDP send half.
pub const UDP_KEEPALIVE_GAP_MS: u64 = 5000;

/// Length of a keepalive datagram in bytes.
pub const KEEPALIVE_LEN: usize = 8;

/// Voice gateway protocol version requested in the WebSocket URL.
pub const VOICE_GATEWAY_VERSION: u8 = 4;

/// Default Opus bitrate in bits per second.
pub const DEFAULT_BITRATE: u32 = 128000;

/// The canonical 3-byte silent Opus frame.
pub open spec fn silent_frame_spec() -> Seq<u8> {
    seq![0xf8u8, 0xffu8, 0xfeu8]
}

/// The canonical 3-byte silent Opus frame, as transmitted.
pub fn silent_frame() -> (r: Vec<u8>)
    ensures
        r@ == silent_frame_spec(),
{
    let mut v: Vec<u8> = Vec::new();
    v.push(0xf8);
    v.push(0xff);
    v.push(0xfe);
    proof {
        assert(v@ =~= silent_frame_spec());
    }
    v
}

/// Whether a payload is exactly the canonical silent Opus frame.
pub open spec fn is_silent_payload(p: Seq<u8>) -> bool {
    p == silent_frame_spec()
}

/// Compares a payload against the canonical silent Opus frame.
pub fn payload_is_silent(p: &[u8]) -> (r: bool)
    ensures
        r == is_silent_payload(p@),
{
    let r = p.len() == 3 && p[0] == 0xf8 && p[1] == 0xff && p[2] == 0xfe;
    proof {
        if r {
            assert(p@ =~= silent_frame_spec());
        }
        if p@ == silent_frame_spec() {
            assert(p@.len() == 3);
            assert(p@[0] == 0xf8u8 && p@[1] == 0xffu8 && p@[2] == 0xfeu8);
        }
    }
    r
}

} // verus!
