//! The control-plane handshake: both frame orders, missing modes, the
//! session description, the gateway URL, and heartbeat matching.

use songbird::aux_network::{AckOutcome, HeartbeatState};
use songbird::connection::{
    accept_session_description, generate_url, has_valid_mode, CryptoMode, HandshakeState,
    ResumeState,
};
use songbird::error::VoiceError;
use songbird::events::{HelloPayload, ReadyPayload, SessionDescription, VoiceEvent};
use songbird::mixer::MixerState;

fn hello() -> VoiceEvent {
    VoiceEvent::Hello(HelloPayload { heartbeat_interval_ms: 41250 })
}

fn ready(modes: Vec<&str>) -> VoiceEvent {
    VoiceEvent::Ready(ReadyPayload {
        ssrc: 7,
        ip: "198.51.100.1".to_string(),
        port: 50001,
        modes: modes.into_iter().map(|m| m.to_string()).collect(),
    })
}

fn description() -> SessionDescription {
    SessionDescription {
        mode: "xsalsa20_poly1305".to_string(),
        secret_key: vec![0u8; 32],
    }
}

fn run_handshake(first: VoiceEvent, second: VoiceEvent) -> (u64, u32) {
    let mut hs = HandshakeState::new();
    assert_eq!(hs.observe(first).unwrap(), false);
    assert_eq!(hs.observe(second).unwrap(), true);
    let (h, r) = hs.finish(CryptoMode::Normal).unwrap();
    let cipher = accept_session_description(description(), CryptoMode::Normal).unwrap();
    let mut mixer = MixerState::new(r.ssrc);
    let first_tick = mixer.tick(&cipher, Some(vec![1, 2, 3])).datagram.unwrap();
    let d = songbird::rtp::decrypt_rtp(&cipher, &first_tick).unwrap();
    assert_eq!(d.header.sequence, 0);
    assert_eq!(d.header.timestamp, 0);
    (h.heartbeat_interval_ms, r.ssrc)
}

#[test]
fn handshake_happy_path() {
    let (interval, ssrc) = run_handshake(hello(), ready(vec!["xsalsa20_poly1305"]));
    assert_eq!(interval, 41250);
    assert_eq!(ssrc, 7);
}

#[test]
fn handshake_frames_in_either_order_agree() {
    let a = run_handshake(hello(), ready(vec!["xsalsa20_poly1305"]));
    let b = run_handshake(ready(vec!["xsalsa20_poly1305"]), hello());
    assert_eq!(a, b);
}

#[test]
fn handshake_fails_without_the_mode() {
    let mut hs = HandshakeState::new();
    hs.observe(hello()).unwrap();
    hs.observe(ready(vec!["aead_aes256_gcm"])).unwrap();
    assert_eq!(
        hs.finish(CryptoMode::Normal).map(|_| ()),
        Err(VoiceError::CryptoModeUnavailable)
    );
}

#[test]
fn handshake_rejects_any_other_frame() {
    let mut hs = HandshakeState::new();
    hs.observe(hello()).unwrap();
    let r = hs.observe(VoiceEvent::Speaking { ssrc: 1, user_id: 2, speaking: true });
    assert_eq!(r, Err(VoiceError::ExpectedHandshake));
}

#[test]
fn resume_accepts_both_orders_and_nothing_else() {
    let mut rs = ResumeState::new();
    assert_eq!(rs.observe(hello()).unwrap(), false);
    assert_eq!(rs.observe(VoiceEvent::Resumed).unwrap(), true);

    let mut rs = ResumeState::new();
    assert_eq!(rs.observe(VoiceEvent::Resumed).unwrap(), false);
    assert_eq!(rs.observe(hello()).unwrap(), true);

    let mut rs = ResumeState::new();
    let r = rs.observe(ready(vec!["xsalsa20_poly1305"]));
    assert_eq!(r, Err(VoiceError::ExpectedHandshake));
}

#[test]
fn session_description_mode_and_key_are_checked() {
    let wrong_mode = SessionDescription {
        mode: "aead_aes256_gcm".to_string(),
        secret_key: vec![0u8; 32],
    };
    assert_eq!(
        accept_session_description(wrong_mode, CryptoMode::Normal).map(|_| ()),
        Err(VoiceError::CryptoModeInvalid)
    );
    let short_key = SessionDescription {
        mode: "xsalsa20_poly1305".to_string(),
        secret_key: vec![0u8; 16],
    };
    assert_eq!(
        accept_session_description(short_key, CryptoMode::Normal).map(|_| ()),
        Err(VoiceError::Aead)
    );
}

#[test]
fn mode_scan_matches_exactly() {
    let modes: Vec<String> = vec!["plain".to_string(), "xsalsa20_poly1305".to_string()];
    assert!(has_valid_mode(&modes, CryptoMode::Normal));
    let none: Vec<String> = vec!["xsalsa20_poly1305_suffix".to_string()];
    assert!(!has_valid_mode(&none, CryptoMode::Normal));
    assert!(!has_valid_mode(&Vec::new(), CryptoMode::Normal));
}

#[test]
fn gateway_url_strips_the_port_suffix() {
    assert_eq!(
        generate_url("example.com:80").unwrap(),
        "wss://example.com/?v=4"
    );
    assert_eq!(
        generate_url("example.com").unwrap(),
        "wss://example.com/?v=4"
    );
    // the suffix is stripped only at the very end
    assert_eq!(
        generate_url("example.com:8080").unwrap(),
        "wss://example.com:8080/?v=4"
    );
    assert_eq!(generate_url("bad host"), Err(VoiceError::EndpointUrl));
    // endpoints beyond ASCII are taken as the URL parser takes them
    assert_eq!(
        generate_url("exämple.com:80").unwrap(),
        "wss://exämple.com/?v=4"
    );
}

#[test]
fn heartbeat_ack_matching() {
    let mut hb = HeartbeatState::new();
    assert_eq!(hb.observe_ack(1), AckOutcome::Unexpected);
    let nonce = hb.prepare();
    assert_eq!(hb.observe_ack(nonce), AckOutcome::Acknowledged);
    assert_eq!(hb.observe_ack(nonce), AckOutcome::Unexpected);
    // a mismatching ack is a warning, not a failure, and keeps the
    // nonce outstanding: the genuine acknowledgement still counts
    let nonce = hb.prepare();
    assert_eq!(hb.observe_ack(nonce.wrapping_add(1)), AckOutcome::Mismatch);
    assert_eq!(hb.last_nonce, Some(nonce));
    assert_eq!(hb.observe_ack(nonce), AckOutcome::Acknowledged);
    assert_eq!(hb.last_nonce, None);
}
