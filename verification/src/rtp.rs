//! RTP framing of voice datagrams.
//!
//! An outbound datagram is the 12-byte fixed header, the 16-byte
//! authentication tag, and the ciphertext.  The encryption nonce is the
//! header zero-padded to 24 bytes; associated data is empty.

use vstd::prelude::*;
use crate::bytesutil::{
    push_u16_be, push_u32_be, read_u16_be, read_u32_be, spec_be_u16, spec_be_u32, spec_u16_be,
    spec_u32_be,
};
use crate::constants::{NONCE_SIZE, RTP_HEADER_LEN, RTP_PROFILE_TYPE, RTP_VERSION, TAG_SIZE};
use crate::crypto::{open_of, seal_of, Cipher};
use crate::error::VoiceError;

verus! {

/// The fixed fields this sender varies: everything else in its RTP
/// header is constant (version 2, no padding, no extension, no CSRCs,
/// no marker, payload type 0x78).
#[derive(Clone, Copy, Debug, PartialEq, Eq, Structural)]
pub struct RtpHeader {
    pub sequence: u16,
    pub timestamp: u32,
    pub ssrc: u32,
}

/// The 12 bytes of an outbound RTP header.
pub open spec fn spec_header_bytes(h: RtpHeader) -> Seq<u8> {
    seq![0x80u8, 0x78u8] + spec_u16_be(h.sequence) + spec_u32_be(h.timestamp) + spec_u32_be(
        h.ssrc,
    )
}

/// The 24-byte nonce derived from a 12-byte header: the header followed
/// by twelve zero bytes.
pub open spec fn spec_nonce_of(header: Seq<u8>) -> Seq<u8> {
    header + Seq::new(12, |i: int| 0u8)
}

/// Serialises the variable header fields into the 12 header bytes.
pub fn header_bytes(h: &RtpHeader) -> (r: Vec<u8>)
    ensures
        r@ == spec_header_bytes(*h),
        r@.len() == RTP_HEADER_LEN,
{
    let mut out: Vec<u8> = Vec::new();
    out.push(0x80);
    out.push(0x78);
    push_u16_be(&mut out, h.sequence);
    push_u32_be(&mut out, h.timestamp);
    push_u32_be(&mut out, h.ssrc);
    proof {
        assert(out@ =~= spec_header_bytes(*h));
    }
    out
}

/// A packet prefix zero-padded to the 24-byte nonce length.
pub open spec fn spec_padded_nonce(header: Seq<u8>) -> Seq<u8> {
    header + Seq::new((NONCE_SIZE - header.len()) as nat, |i: int| 0u8)
}

/// Pads a packet prefix of at most 24 bytes to the 24-byte nonce.
pub fn padded_nonce(header: &[u8]) -> (r: Vec<u8>)
    requires
        header@.len() <= NONCE_SIZE,
    ensures
        r@ == spec_padded_nonce(header@),
        r@.len() == NONCE_SIZE,
{
    let mut out: Vec<u8> = Vec::new();
    let mut i: usize = 0;
    while i < header.len()
        invariant
            i <= header@.len(),
            out@ == header@.subrange(0, i as int),
        decreases header@.len() - i,
    {
        out.push(header[i]);
        i = i + 1;
        proof {
            assert(out@ =~= header@.subrange(0, i as int));
        }
    }
    proof {
        assert(out@ =~= header@ + Seq::new(0nat, |k: int| 0u8));
    }
    let mut j: usize = 0;
    let pad = 24 - header.len();
    while j < pad
        invariant
            j <= pad,
            pad == NONCE_SIZE - header@.len(),
            out@ == header@ + Seq::new(j as nat, |k: int| 0u8),
        decreases pad - j,
    {
        out.push(0);
        j = j + 1;
        proof {
            assert(out@ =~= header@ + Seq::new(j as nat, |k: int| 0u8));
        }
    }
    out
}

/// Pads a 12-byte header to the 24-byte nonce.
pub fn rtp_nonce(header: &[u8]) -> (r: Vec<u8>)
    requires
        header@.len() == RTP_HEADER_LEN,
    ensures
        r@ == spec_nonce_of(header@),
        r@.len() == NONCE_SIZE,
{
    let out = padded_nonce(header);
    proof {
        assert(out@ =~= spec_nonce_of(header@));
    }
    out
}

/// The nonce of every transmitted datagram repeats the datagram's first
/// 12 bytes and is zero everywhere after them.
pub proof fn lemma_nonce_derivation(header: Seq<u8>)
    requires
        header.len() == RTP_HEADER_LEN,
    ensures
        spec_nonce_of(header).len() == NONCE_SIZE,
        spec_nonce_of(header).subrange(0, RTP_HEADER_LEN as int) == header,
        forall|i: int|
            RTP_HEADER_LEN <= i < NONCE_SIZE ==> spec_nonce_of(header)[i] == 0u8,
{
    assert(spec_nonce_of(header).subrange(0, RTP_HEADER_LEN as int) =~= header);
}

/// What a transmitted voice datagram holds for given key, header fields
/// and Opus payload.
pub open spec fn spec_datagram(key: Seq<u8>, h: RtpHeader, payload: Seq<u8>) -> Seq<u8> {
    spec_header_bytes(h) + seal_of(key, spec_nonce_of(spec_header_bytes(h)), payload)
}

/// Builds one encrypted voice datagram: header, tag, ciphertext.
pub fn encrypt_rtp(cipher: &Cipher, h: &RtpHeader, payload: &[u8]) -> (r: Vec<u8>)
    requires
        cipher.wf(),
    ensures
        r@ == spec_datagram(cipher.spec_key(), *h, payload@),
        r@.len() == RTP_HEADER_LEN + TAG_SIZE + payload@.len(),
        r@.subrange(0, RTP_HEADER_LEN as int) == spec_header_bytes(*h),
        open_of(
            cipher.spec_key(),
            spec_nonce_of(r@.subrange(0, RTP_HEADER_LEN as int)),
            r@.subrange(RTP_HEADER_LEN as int, r@.len() as int),
        ) == Some(payload@),
{
    let mut out = header_bytes(h);
    let nonce = rtp_nonce(out.as_slice());
    let mut sealed = cipher.seal(nonce.as_slice(), payload);
    out.append(&mut sealed);
    proof {
        assert(out@.subrange(0, RTP_HEADER_LEN as int) =~= spec_header_bytes(*h));
        assert(out@.subrange(RTP_HEADER_LEN as int, out@.len() as int) =~= seal_of(
            cipher.spec_key(),
            spec_nonce_of(spec_header_bytes(*h)),
            payload@,
        ));
    }
    out
}

/// The header fields of an inbound RTP packet.
#[derive(Clone, Copy, Debug, PartialEq, Eq, Structural)]
pub struct InboundHeader {
    pub version: u8,
    pub extension: bool,
    pub payload_type: u8,
    pub sequence: u16,
    pub timestamp: u32,
    pub ssrc: u32,
}

/// The parsed form of 12 header bytes.
pub open spec fn spec_parse_header(b: Seq<u8>) -> InboundHeader {
    InboundHeader {
        version: (b[0] / 64) as u8,
        extension: (b[0] / 16) % 2 == 1,
        payload_type: (b[1] % 128) as u8,
        sequence: spec_be_u16(b[2], b[3]),
        timestamp: spec_be_u32(b[4], b[5], b[6], b[7]),
        ssrc: spec_be_u32(b[8], b[9], b[10], b[11]),
    }
}

/// Reads the fixed header fields of an inbound packet.
pub fn parse_header(b: &[u8]) -> (r: InboundHeader)
    requires
        b@.len() >= RTP_HEADER_LEN,
    ensures
        r == spec_parse_header(b@),
{
    InboundHeader {
        version: b[0] / 64,
        extension: (b[0] / 16) % 2 == 1,
        payload_type: b[1] % 128,
        sequence: read_u16_be(b, 2),
        timestamp: read_u32_be(b, 4),
        ssrc: read_u32_be(b, 8),
    }
}

/// Whether an inbound packet speaks this data plane's RTP profile.
pub open spec fn spec_rtp_valid(h: InboundHeader) -> bool {
    h.version == RTP_VERSION && h.payload_type == RTP_PROFILE_TYPE
}

/// Validates version and payload type of an inbound header.
pub fn rtp_valid(h: &InboundHeader) -> (r: bool)
    ensures
        r == spec_rtp_valid(*h),
{
    h.version == RTP_VERSION && h.payload_type == RTP_PROFILE_TYPE
}

/// Size in bytes of the one-byte-profile header extension block at the
/// start of `data`: the four-byte prelude (0xBE 0xDE and a big-endian
/// word count) plus four bytes per word.  Nothing when the block does
/// not fit.
pub open spec fn spec_extension_size(data: Seq<u8>) -> Option<int> {
    if data.len() < 4 {
        Option::None
    } else {
        let words = spec_be_u16(data[2], data[3]);
        let size = 4 + 4 * words;
        if data.len() < size {
            Option::None
        } else {
            Option::Some(size as int)
        }
    }
}

/// Measures the RTP header extension block so the audio that follows it
/// can be found.  Returns the offset of the audio.
pub fn extension_size(data: &[u8]) -> (r: Result<usize, VoiceError>)
    ensures
        r matches Ok(n) ==> spec_extension_size(data@) == Option::Some(n as int),
        r is Err <==> spec_extension_size(data@) is None,
        r matches Err(e) ==> e == VoiceError::IllegalVoicePacket,
        r matches Ok(n) ==> 4 <= n <= data@.len(),
{
    if data.len() < 4 {
        return Err(VoiceError::IllegalVoicePacket);
    }
    let words = read_u16_be(data, 2);
    let size: usize = 4 + 4 * (words as usize);
    if data.len() < size {
        return Err(VoiceError::IllegalVoicePacket);
    }
    Ok(size)
}

/// The offset of the audio frame inside decrypted packet data: zero
/// when the header carried no extension flag, the extension block size
/// otherwise.
pub open spec fn spec_audio_start(extension: bool, data: Seq<u8>) -> Option<int> {
    if extension {
        spec_extension_size(data)
    } else {
        Option::Some(0)
    }
}

/// Finds where the audio frame starts inside decrypted packet data.
pub fn audio_start(extension: bool, data: &[u8]) -> (r: Result<usize, VoiceError>)
    ensures
        r matches Ok(n) ==> spec_audio_start(extension, data@) == Option::Some(n as int),
        r is Err <==> spec_audio_start(extension, data@) is None,
        r matches Err(e) ==> e == VoiceError::IllegalVoicePacket,
        r matches Ok(n) ==> n <= data@.len(),
{
    if extension {
        extension_size(data)
    } else {
        Ok(0)
    }
}

/// A decrypted inbound RTP packet: its header fields and the plaintext
/// that stood behind the tag.
pub struct DecryptedRtp {
    pub header: InboundHeader,
    pub plaintext: Vec<u8>,
}

/// Decrypts an inbound RTP datagram in one step: derives the nonce from
/// the first 12 bytes and opens the tag-then-ciphertext remainder.
/// Nothing is returned for a datagram too short to carry a tag or whose
/// tag does not authenticate.
pub fn decrypt_rtp(cipher: &Cipher, datagram: &[u8]) -> (r: Option<DecryptedRtp>)
    requires
        cipher.wf(),
    ensures
        r is Some <==> datagram@.len() >= RTP_HEADER_LEN + TAG_SIZE && open_of(
            cipher.spec_key(),
            spec_nonce_of(datagram@.subrange(0, RTP_HEADER_LEN as int)),
            datagram@.subrange(RTP_HEADER_LEN as int, datagram@.len() as int),
        ) is Some,
        r matches Some(d) ==> d.plaintext@ == open_of(
            cipher.spec_key(),
            spec_nonce_of(datagram@.subrange(0, RTP_HEADER_LEN as int)),
            datagram@.subrange(RTP_HEADER_LEN as int, datagram@.len() as int),
        ).unwrap(),
        r matches Some(d) ==> d.header == spec_parse_header(datagram@),
{
    if datagram.len() < RTP_HEADER_LEN + TAG_SIZE {
        return None;
    }
    let header = parse_header(datagram);
    let (head, sealed) = datagram.split_at(RTP_HEADER_LEN);
    let nonce = rtp_nonce(head);
    proof {
        assert(head@ =~= datagram@.subrange(0, RTP_HEADER_LEN as int));
        assert(sealed@ =~= datagram@.subrange(RTP_HEADER_LEN as int, datagram@.len() as int));
    }
    match cipher.open(nonce.as_slice(), sealed) {
        Some(plaintext) => Some(DecryptedRtp { header, plaintext }),
        None => None,
    }
}

/// Encrypting a payload and decrypting the datagram under the same key
/// restores the payload and the header fields: the authenticated
/// round trip of the voice data plane.
pub fn rtp_round_trip(cipher: &Cipher, h: &RtpHeader, payload: &[u8]) -> (r: DecryptedRtp)
    requires
        cipher.wf(),
    ensures
        r.plaintext@ == payload@,
        r.header.sequence == h.sequence,
        r.header.timestamp == h.timestamp,
        r.header.ssrc == h.ssrc,
        r.header.version == RTP_VERSION,
        r.header.payload_type == RTP_PROFILE_TYPE,
        !r.header.extension,
{
    let datagram = encrypt_rtp(cipher, h, payload);
    proof {
        assert(spec_header_bytes(*h)[0] == 0x80u8);
        assert(spec_header_bytes(*h)[1] == 0x78u8);
        assert(datagram@.subrange(0, RTP_HEADER_LEN as int) =~= spec_header_bytes(*h));
        crate::bytesutil::lemma_u16_be_round_trip(h.sequence);
        crate::bytesutil::lemma_u32_be_round_trip(h.timestamp);
        crate::bytesutil::lemma_u32_be_round_trip(h.ssrc);
    }
    let decrypted = decrypt_rtp(cipher, datagram.as_slice());
    match decrypted {
        Some(d) => d,
        None => {
            proof {
                assert(false);
            }
            DecryptedRtp { header: parse_header(&[]), plaintext: Vec::new() }
        },
    }
}

} // verus!
