//! Core of a voice client driver: the verified logic of a single voice
//! session.  The crate covers the control-plane handshake records, RTP
//! framing and AEAD sealing of outbound audio, the 20 ms transmit
//! scheduler, inbound packet demultiplexing and per-source decode state,
//! track playback state, and the DCA input framing.  Sockets, child
//! processes and floating-point sample mixing live outside the library
//! and hand plain values in and out.

pub mod aux_network;
pub mod bytesutil;
pub mod connection;
pub mod constants;
pub mod crypto;
pub mod discovery;
pub mod error;
pub mod events;
pub mod input;
pub mod mixer;
pub mod rtp;
pub mod ssrc;
pub mod track;
