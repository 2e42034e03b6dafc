//! Control-plane frames and the events a session surfaces.
//!
//! The frames arrive as JSON over the gateway WebSocket; the transport
//! decodes them into these plain records before the library sees them.

use vstd::prelude::*;

verus! {

/// The server's greeting: how often to heartbeat.
#[derive(Clone, Copy, Debug, PartialEq, Eq, Structural)]
pub struct HelloPayload {
    /// Milliseconds between heartbeats.
    pub heartbeat_interval_ms: u64,
}

/// The server's readiness frame: where to send voice data.
#[derive(Clone, Debug)]
pub struct ReadyPayload {
    /// Stream identifier assigned to this sender.
    pub ssrc: u32,
    /// Address of the voice server's UDP endpoint.
    pub ip: String,
    /// Port of the voice server's UDP endpoint.
    pub port: u16,
    /// Encryption modes the server offers.
    pub modes: Vec<String>,
}

/// The server's key handover after protocol selection.
#[derive(Clone, Debug)]
pub struct SessionDescription {
    /// The encryption mode the server settled on.
    pub mode: String,
    /// The 32-byte session key.
    pub secret_key: Vec<u8>,
}

/// A decoded control frame from the voice gateway.
#[derive(Clone, Debug)]
pub enum VoiceEvent {
    /// Greeting with the heartbeat interval.
    Hello(HelloPayload),
    /// UDP endpoint, stream identifier and offered modes.
    Ready(ReadyPayload),
    /// Session key handover.
    SessionDescription(SessionDescription),
    /// Acknowledgement of a resume request.
    Resumed,
    /// A user's speaking flag changed.
    Speaking { ssrc: u32, user_id: u64, speaking: bool },
    /// Reply to a heartbeat, echoing its nonce.
    HeartbeatAck { nonce: u64 },
    /// A user joined the channel.
    ClientConnect { audio_ssrc: u32, user_id: u64 },
    /// A user left the channel.
    ClientDisconnect { user_id: u64 },
    /// Any frame the transport did not recognise.
    Unknown,
}

/// An event the session surfaces to its supervisor.
#[derive(Clone, Debug)]
pub enum CoreEvent {
    /// A gateway speaking frame, forwarded.
    SpeakingStateUpdate { ssrc: u32, user_id: u64, speaking: bool },
    /// An inbound stream started or stopped producing audible audio.
    SpeakingUpdate { ssrc: u32, speaking: bool },
    /// One decrypted inbound voice packet: its header fields and the
    /// decrypted audio frame, ready for the caller's decoder.
    VoicePacket { ssrc: u32, sequence: u16, timestamp: u32, missed: u16, audio: Vec<u8> },
    /// One decrypted RTCP packet.
    RtcpPacket { payload: Vec<u8> },
    /// A user joined the channel, forwarded.
    ClientConnect { audio_ssrc: u32, user_id: u64 },
    /// A user left the channel, forwarded.
    ClientDisconnect { user_id: u64 },
    /// The transport failed; the supervisor should reconnect.
    Reconnect,
}

} // verus!
