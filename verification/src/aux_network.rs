//! The auxiliary network logic: heartbeats and the inbound packet path.
//!
//! The task that owns the read half of both sockets calls into here:
//! heartbeat nonces are drawn and matched against acknowledgements,
//! and every inbound UDP datagram is demultiplexed, decrypted and fed
//! to the per-source receive state, yielding the events to publish.

use vstd::prelude::*;
use crate::constants::{RTP_HEADER_LEN, TAG_SIZE};
use crate::crypto::{open_of, Cipher};
use crate::error::VoiceError;
use crate::events::CoreEvent;
use crate::rtp::{
    audio_start, decrypt_rtp, padded_nonce, parse_header, rtp_valid, spec_audio_start,
    spec_padded_nonce, spec_parse_header, spec_rtp_valid,
};
use crate::ssrc::{spec_process, PacketDisposition, SpeakingDelta, SsrcMap, SsrcState};

verus! {

/// Draws the values heartbeats are nonced with.  Relies on
/// rand::random; nothing is promised of the value.
pub assume_specification<T>[ rand::random::<T> ]() -> (r: T)
    where
        rand::distributions::Standard: rand::distributions::Distribution<T>,
;

/// What an inbound heartbeat acknowledgement meant.
#[derive(Clone, Copy, Debug, PartialEq, Eq, Structural)]
pub enum AckOutcome {
    /// It echoed the outstanding nonce.
    Acknowledged,
    /// It carried some other nonce: worth a warning, never fatal.
    Mismatch,
    /// No heartbeat was outstanding.
    Unexpected,
}

/// The one outstanding heartbeat nonce, if any.
#[derive(Clone, Copy, Debug, PartialEq, Eq, Structural)]
pub struct HeartbeatState {
    /// Nonce of the heartbeat sent last, not yet acknowledged.
    pub last_nonce: Option<u64>,
}

impl HeartbeatState {
    /// No heartbeat outstanding.
    pub fn new() -> (r: HeartbeatState)
        ensures
            r.last_nonce is None,
    {
        HeartbeatState { last_nonce: None }
    }

    /// Draws a fresh nonce for the next heartbeat and records it as
    /// outstanding.
    pub fn prepare(&mut self) -> (r: u64)
        ensures
            final(self).last_nonce == Some(r),
    {
        let nonce: u64 = rand::random();
        self.last_nonce = Some(nonce);
        nonce
    }

    /// Consumes an acknowledgement.  The outstanding nonce is cleared
    /// only when the echoed nonce matches it; a mismatch is worth no
    /// more than a warning and leaves the nonce outstanding, so a
    /// genuine acknowledgement arriving later still counts.
    pub fn observe_ack(&mut self, nonce: u64) -> (r: AckOutcome)
        ensures
            r == (match old(self).last_nonce {
                Some(n) => if n == nonce {
                    AckOutcome::Acknowledged
                } else {
                    AckOutcome::Mismatch
                },
                None => AckOutcome::Unexpected,
            }),
            final(self).last_nonce == (if old(self).last_nonce == Some(nonce) {
                Option::<u64>::None
            } else {
                old(self).last_nonce
            }),
    {
        match self.last_nonce {
            Some(n) => {
                if n == nonce {
                    self.last_nonce = None;
                    AckOutcome::Acknowledged
                } else {
                    AckOutcome::Mismatch
                }
            },
            None => AckOutcome::Unexpected,
        }
    }
}

/// Length of the RTCP header that prefixes an encrypted RTCP packet.
pub const RTCP_HEADER_LEN: usize = 8;

/// How a datagram on the voice socket is classified, by its second
/// byte: packet types 192 to 223 are RTCP, everything else is tried
/// as RTP.  Datagrams too short for their class are malformed.
#[derive(Clone, Copy, Debug, PartialEq, Eq, Structural)]
pub enum Demuxed {
    /// An RTP voice packet.
    Rtp,
    /// An RTCP report packet.
    Rtcp,
    /// Too short to classify.
    Malformed,
}

/// Classifies a datagram by its packet-type byte.
pub open spec fn spec_demux(b: Seq<u8>) -> Demuxed {
    if b.len() < 2 {
        Demuxed::Malformed
    } else if 192 <= b[1] <= 223 {
        Demuxed::Rtcp
    } else {
        Demuxed::Rtp
    }
}

/// Classifies a datagram as RTP or RTCP by its packet-type byte.
pub fn demux(b: &[u8]) -> (r: Demuxed)
    ensures
        r == spec_demux(b@),
{
    if b.len() < 2 {
        Demuxed::Malformed
    } else if 192 <= b[1] && b[1] <= 223 {
        Demuxed::Rtcp
    } else {
        Demuxed::Rtp
    }
}

/// Decrypts an inbound RTCP packet: the nonce is the 8-byte header
/// zero-padded, the tag and ciphertext follow the header.
pub fn decrypt_rtcp(cipher: &Cipher, datagram: &[u8]) -> (r: Option<Vec<u8>>)
    requires
        cipher.wf(),
    ensures
        r is Some <==> datagram@.len() >= RTCP_HEADER_LEN + TAG_SIZE && open_of(
            cipher.spec_key(),
            spec_padded_nonce(datagram@.subrange(0, RTCP_HEADER_LEN as int)),
            datagram@.subrange(RTCP_HEADER_LEN as int, datagram@.len() as int),
        ) is Some,
        r matches Some(p) ==> p@ == open_of(
            cipher.spec_key(),
            spec_padded_nonce(datagram@.subrange(0, RTCP_HEADER_LEN as int)),
            datagram@.subrange(RTCP_HEADER_LEN as int, datagram@.len() as int),
        ).unwrap(),
{
    if datagram.len() < RTCP_HEADER_LEN + TAG_SIZE {
        return None;
    }
    let (head, sealed) = datagram.split_at(RTCP_HEADER_LEN);
    let nonce = padded_nonce(head);
    proof {
        assert(head@ =~= datagram@.subrange(0, RTCP_HEADER_LEN as int));
        assert(sealed@ =~= datagram@.subrange(RTCP_HEADER_LEN as int, datagram@.len() as int));
    }
    cipher.open(nonce.as_slice(), sealed)
}

/// The decrypted body of an RTP datagram, when its tag authenticates.
pub open spec fn spec_rtp_plaintext(key: Seq<u8>, b: Seq<u8>) -> Option<Seq<u8>> {
    if b.len() >= RTP_HEADER_LEN + TAG_SIZE {
        open_of(
            key,
            crate::rtp::spec_nonce_of(b.subrange(0, RTP_HEADER_LEN as int)),
            b.subrange(RTP_HEADER_LEN as int, b.len() as int),
        )
    } else {
        Option::None
    }
}

/// The receive state an inbound packet starts from: the stream's
/// state, or a fresh one on the stream's first packet.
pub open spec fn spec_state_of(states: Map<u32, SsrcState>, ssrc: u32, seq: u16) -> SsrcState {
    if states.contains_key(ssrc) {
        states[ssrc]
    } else {
        SsrcState { silent_frame_count: crate::constants::SILENT_FRAME_LIMIT, last_seq: seq }
    }
}

/// Whether `e` is the voice-packet event for header `h`, missed count
/// `missed` and audio frame `audio`.
pub open spec fn spec_is_voice_packet(
    e: CoreEvent,
    h: crate::rtp::InboundHeader,
    missed: u16,
    audio: Seq<u8>,
) -> bool {
    &&& e matches CoreEvent::VoicePacket { ssrc, sequence, timestamp, missed: m, audio: a }
    &&& (e matches CoreEvent::VoicePacket { ssrc, .. } ==> ssrc == h.ssrc)
    &&& (e matches CoreEvent::VoicePacket { sequence, .. } ==> sequence == h.sequence)
    &&& (e matches CoreEvent::VoicePacket { timestamp, .. } ==> timestamp == h.timestamp)
    &&& (e matches CoreEvent::VoicePacket { missed: m, .. } ==> m == missed)
    &&& (e matches CoreEvent::VoicePacket { audio: a, .. } ==> a@ == audio)
}

/// Handles one datagram from the voice socket: demultiplexes it,
/// decrypts it, feeds the per-source state, and returns the events to
/// publish, in order.  An error is a warning for the caller to log;
/// it never tears the session down.
///
/// A fresh RTP packet yields a `VoicePacket` event carrying the
/// decrypted audio frame (after any header extension), preceded by a
/// `SpeakingUpdate` when the source started or stopped speaking.  A
/// late reordering yields no event and leaves the state untouched.
pub fn process_datagram(cipher: &Cipher, states: &mut SsrcMap, datagram: &[u8]) -> (r: Result<
    Vec<CoreEvent>,
    VoiceError,
>)
    requires
        cipher.wf(),
    ensures
        r is Err ==> final(states)@ == old(states)@,
        spec_demux(datagram@) is Rtcp ==> final(states)@ == old(states)@,
        spec_demux(datagram@) is Malformed ==> r == Err::<Vec<CoreEvent>, VoiceError>(
            VoiceError::IllegalVoicePacket,
        ),
        spec_demux(datagram@) is Rtp && datagram@.len() >= RTP_HEADER_LEN && !spec_rtp_valid(
            spec_parse_header(datagram@),
        ) ==> r == Err::<Vec<CoreEvent>, VoiceError>(VoiceError::IllegalVoicePacket),
        spec_demux(datagram@) is Rtp && spec_rtp_valid(spec_parse_header(datagram@))
            && datagram@.len() >= RTP_HEADER_LEN + TAG_SIZE && spec_rtp_plaintext(
            cipher.spec_key(),
            datagram@,
        ) is None ==> r == Err::<Vec<CoreEvent>, VoiceError>(VoiceError::Aead),
        spec_demux(datagram@) is Rtp ==> (r is Ok <==> (datagram@.len() >= RTP_HEADER_LEN
            + TAG_SIZE && spec_rtp_valid(spec_parse_header(datagram@)) && (spec_rtp_plaintext(
            cipher.spec_key(),
            datagram@,
        ) matches Some(p) && spec_audio_start(spec_parse_header(datagram@).extension, p) is Some))),
        (spec_demux(datagram@) is Rtp && r is Ok) ==> ({
            let h = spec_parse_header(datagram@);
            let plaintext = spec_rtp_plaintext(cipher.spec_key(), datagram@).unwrap();
            let start = spec_audio_start(h.extension, plaintext).unwrap();
            let audio = plaintext.skip(start);
            let st0 = spec_state_of(old(states)@, h.ssrc, h.sequence);
            let st1 = spec_process(st0, h.sequence, audio).0;
            let disp = spec_process(st0, h.sequence, audio).1;
            &&& spec_rtp_valid(h)
            &&& spec_rtp_plaintext(cipher.spec_key(), datagram@) is Some
            &&& spec_audio_start(h.extension, plaintext) is Some
            &&& final(states)@ == old(states)@.insert(h.ssrc, st1)
            &&& (disp is Reordered ==> r.unwrap()@.len() == 0)
            &&& (disp matches PacketDisposition::Fresh { missed, delta } ==> {
                &&& (delta is Same ==> r.unwrap()@.len() == 1 && spec_is_voice_packet(
                    r.unwrap()@[0],
                    h,
                    missed,
                    audio,
                ))
                &&& (delta is Start ==> r.unwrap()@.len() == 2 && r.unwrap()@[0] == (
                CoreEvent::SpeakingUpdate { ssrc: h.ssrc, speaking: true })
                    && spec_is_voice_packet(r.unwrap()@[1], h, missed, audio))
                &&& (delta is Stop ==> r.unwrap()@.len() == 2 && r.unwrap()@[0] == (
                CoreEvent::SpeakingUpdate { ssrc: h.ssrc, speaking: false })
                    && spec_is_voice_packet(r.unwrap()@[1], h, missed, audio))
            })
        }),
        spec_demux(datagram@) is Rtcp && r is Ok ==> r.unwrap()@.len() == 1 && (r.unwrap()@[0]
            matches CoreEvent::RtcpPacket { payload } && payload@ == open_of(
            cipher.spec_key(),
            spec_padded_nonce(datagram@.subrange(0, RTCP_HEADER_LEN as int)),
            datagram@.subrange(RTCP_HEADER_LEN as int, datagram@.len() as int),
        ).unwrap()),
        spec_demux(datagram@) is Rtcp ==> (r is Ok <==> datagram@.len() >= RTCP_HEADER_LEN
            + TAG_SIZE && open_of(
            cipher.spec_key(),
            spec_padded_nonce(datagram@.subrange(0, RTCP_HEADER_LEN as int)),
            datagram@.subrange(RTCP_HEADER_LEN as int, datagram@.len() as int),
        ) is Some),
{
    match demux(datagram) {
        Demuxed::Malformed => Err(VoiceError::IllegalVoicePacket),
        Demuxed::Rtcp => {
            match decrypt_rtcp(cipher, datagram) {
                Some(payload) => {
                    let mut events: Vec<CoreEvent> = Vec::new();
                    events.push(CoreEvent::RtcpPacket { payload });
                    Ok(events)
                },
                None => Err(VoiceError::Aead),
            }
        },
        Demuxed::Rtp => {
            if datagram.len() < RTP_HEADER_LEN {
                return Err(VoiceError::IllegalVoicePacket);
            }
            let header = parse_header(datagram);
            if !rtp_valid(&header) {
                return Err(VoiceError::IllegalVoicePacket);
            }
            let decrypted = match decrypt_rtp(cipher, datagram) {
                Some(d) => d,
                None => {
                    return Err(VoiceError::Aead);
                },
            };
            let start = match audio_start(decrypted.header.extension, decrypted.plaintext.as_slice()) {
                Ok(s) => s,
                Err(e) => {
                    return Err(e);
                },
            };
            let (_, audio_slice) = decrypted.plaintext.as_slice().split_at(start);
            let mut st = states.take(header.ssrc, header.sequence);
            let disposition = st.process(header.sequence, audio_slice);
            states.put(header.ssrc, st);
            let mut events: Vec<CoreEvent> = Vec::new();
            match disposition {
                PacketDisposition::Reordered => {},
                PacketDisposition::Fresh { missed, delta } => {
                    match delta {
                        SpeakingDelta::Start => {
                            events.push(CoreEvent::SpeakingUpdate {
                                ssrc: header.ssrc,
                                speaking: true,
                            });
                        },
                        SpeakingDelta::Stop => {
                            events.push(CoreEvent::SpeakingUpdate {
                                ssrc: header.ssrc,
                                speaking: false,
                            });
                        },
                        SpeakingDelta::Same => {},
                    }
                    let audio = vstd::slice::slice_to_vec(audio_slice);
                    events.push(CoreEvent::VoicePacket {
                        ssrc: header.ssrc,
                        sequence: header.sequence,
                        timestamp: header.timestamp,
                        missed,
                        audio,
                    });
                },
            }
            Ok(events)
        },
    }
}

} // verus!
