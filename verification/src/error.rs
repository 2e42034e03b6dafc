//! Error taxonomy of the voice core.

use vstd::prelude::*;

verus! {

/// Everything that can go wrong while driving one voice session.
///
/// Handshake errors are fatal for the attempt; runtime errors on
/// inbound data are warnings for the caller to log and drop.
#[derive(Clone, Copy, Debug, PartialEq, Eq, Structural)]
pub enum VoiceError {
    /// The configured endpoint could not be turned into a gateway URL.
    EndpointUrl,
    /// A frame other than the awaited handshake frames arrived.
    ExpectedHandshake,
    /// The server offered none of the encryption modes spoken here.
    CryptoModeUnavailable,
    /// The session description named a mode other than the one selected.
    CryptoModeInvalid,
    /// The IP discovery reply was not a well-formed response datagram.
    IllegalDiscoveryResponse,
    /// A downstream consumer of an internal channel is gone.
    InterconnectSend,
    /// A control frame could not be encoded or decoded as JSON.
    Json,
    /// The Opus coder rejected a frame or could not be created.
    Opus,
    /// Authenticated encryption or decryption failed.
    Aead,
    /// The WebSocket transport failed.
    WsTransport,
    /// The UDP transport failed.
    UdpTransport,
    /// A track input could not be read.
    InputIo,
    /// A track input was framed incorrectly.
    InputFormat,
    /// An inbound voice datagram was too short or malformed.
    IllegalVoicePacket,
}

impl VoiceError {
    /// A short human-readable name for the error.
    pub fn describe(&self) -> (r: &'static str)
    {
        match self {
            VoiceError::EndpointUrl => "malformed voice endpoint",
            VoiceError::ExpectedHandshake => "unexpected frame during handshake",
            VoiceError::CryptoModeUnavailable => "no supported encryption mode offered",
            VoiceError::CryptoModeInvalid => "session description names a different mode",
            VoiceError::IllegalDiscoveryResponse => "malformed IP discovery response",
            VoiceError::InterconnectSend => "internal channel closed",
            VoiceError::Json => "malformed control frame",
            VoiceError::Opus => "Opus coding failed",
            VoiceError::Aead => "encryption or decryption failed",
            VoiceError::WsTransport => "WebSocket transport failed",
            VoiceError::UdpTransport => "UDP transport failed",
            VoiceError::InputIo => "track input read failed",
            VoiceError::InputFormat => "track input framing invalid",
            VoiceError::IllegalVoicePacket => "malformed voice datagram",
        }
    }
}

} // verus!
