//! The inbound per-source state: speaking deltas, reorder tolerance,
//! and the whole datagram pipeline.

use songbird::aux_network::process_datagram;
use songbird::crypto::Cipher;
use songbird::events::CoreEvent;
use songbird::rtp::{encrypt_rtp, RtpHeader};
use songbird::ssrc::{PacketDisposition, SpeakingDelta, SsrcMap, SsrcState};

fn audible() -> Vec<u8> {
    vec![1, 2, 3, 4]
}

fn silent() -> Vec<u8> {
    vec![0xF8, 0xFF, 0xFE]
}

#[test]
fn first_audible_packet_starts_speaking() {
    let mut st = SsrcState::new(100);
    assert_eq!(st.silent_frame_count, 5);
    let d = st.process(100, &audible());
    assert_eq!(d, PacketDisposition::Fresh { missed: 0, delta: SpeakingDelta::Start });
    assert_eq!(st.silent_frame_count, 0);
}

#[test]
fn five_silent_frames_stop_speaking() {
    let mut st = SsrcState::new(0);
    st.process(0, &audible());
    let mut seq = 0u16;
    for i in 1..=4u16 {
        seq += 1;
        let d = st.process(seq, &silent());
        assert_eq!(
            d,
            PacketDisposition::Fresh { missed: 0, delta: SpeakingDelta::Same },
            "silent frame {}",
            i
        );
    }
    seq += 1;
    // the fifth consecutive silent frame crosses the threshold
    let d = st.process(seq, &silent());
    assert_eq!(d, PacketDisposition::Fresh { missed: 0, delta: SpeakingDelta::Stop });
    seq += 1;
    let d = st.process(seq, &silent());
    assert_eq!(d, PacketDisposition::Fresh { missed: 0, delta: SpeakingDelta::Same });
}

#[test]
fn missed_packets_count_toward_silence() {
    let mut st = SsrcState::new(10);
    st.process(10, &audible());
    // jump from 10 to 15: four packets missed, plus this silent one
    let d = st.process(15, &silent());
    assert_eq!(d, PacketDisposition::Fresh { missed: 4, delta: SpeakingDelta::Stop });
    assert_eq!(st.silent_frame_count, 5);
}

#[test]
fn silent_counter_saturates() {
    let mut st = SsrcState::new(0);
    st.silent_frame_count = u16::MAX - 1;
    // one missed packet plus this silent frame would overflow the counter
    let d = st.process(2, &silent());
    assert_eq!(d, PacketDisposition::Fresh { missed: 1, delta: SpeakingDelta::Same });
    assert_eq!(st.silent_frame_count, u16::MAX);
}

#[test]
fn reordered_packet_is_ignored() {
    let mut st = SsrcState::new(100);
    st.process(100, &audible());
    let before = st;
    // a sequence from the past: gap lands in the upper half
    let d = st.process(90, &audible());
    assert_eq!(d, PacketDisposition::Reordered);
    assert_eq!(st, before);
    // wrap-around still counts forward
    let mut st = SsrcState::new(u16::MAX);
    st.process(u16::MAX, &audible());
    let d = st.process(1, &audible());
    assert_eq!(d, PacketDisposition::Fresh { missed: 1, delta: SpeakingDelta::Same });
}

#[test]
fn reorder_scenario_tracks_last_seq() {
    // arrivals 100, 102, 101, 103: 101 came too late and is dropped
    let mut st = SsrcState::new(100);
    let mut dispositions = Vec::new();
    let mut seq_trace = Vec::new();
    for seq in [100u16, 102, 101, 103] {
        dispositions.push(st.process(seq, &audible()));
        seq_trace.push(st.last_seq);
    }
    assert_eq!(seq_trace, vec![100, 102, 102, 103]);
    assert!(matches!(dispositions[0], PacketDisposition::Fresh { missed: 0, .. }));
    assert!(matches!(dispositions[1], PacketDisposition::Fresh { missed: 1, .. }));
    assert_eq!(dispositions[2], PacketDisposition::Reordered);
    assert!(matches!(dispositions[3], PacketDisposition::Fresh { missed: 0, .. }));
}

fn cipher() -> Cipher {
    Cipher::new((7u8..39).collect()).unwrap()
}

fn voice_datagram(c: &Cipher, seq: u16, payload: &[u8]) -> Vec<u8> {
    encrypt_rtp(c, &RtpHeader { sequence: seq, timestamp: seq as u32 * 960, ssrc: 77 }, payload)
}

#[test]
fn pipeline_emits_voice_packets_in_arrival_order() {
    let c = cipher();
    let mut states = SsrcMap::new();
    let mut voice_events = 0usize;

    for seq in [100u16, 102, 101, 103] {
        let datagram = voice_datagram(&c, seq, &audible());
        let events = process_datagram(&c, &mut states, &datagram).unwrap();
        for e in &events {
            if let CoreEvent::VoicePacket { ssrc, sequence, audio, .. } = e {
                assert_eq!(*ssrc, 77);
                assert_eq!(*sequence, seq);
                assert_eq!(audio, &audible());
                voice_events += 1;
            }
        }
    }
    // the late packet is dropped: three voice packets from four arrivals
    assert_eq!(voice_events, 3);
}

#[test]
fn pipeline_reports_speaking_transitions() {
    let c = cipher();
    let mut states = SsrcMap::new();
    let events =
        process_datagram(&c, &mut states, &voice_datagram(&c, 1, &audible())).unwrap();
    assert_eq!(events.len(), 2);
    assert!(matches!(
        events[0],
        CoreEvent::SpeakingUpdate { ssrc: 77, speaking: true }
    ));
    assert!(matches!(events[1], CoreEvent::VoicePacket { .. }));

    let mut seq = 1u16;
    for _ in 0..4 {
        seq += 1;
        let events =
            process_datagram(&c, &mut states, &voice_datagram(&c, seq, &silent())).unwrap();
        assert_eq!(events.len(), 1);
    }
    seq += 1;
    let events =
        process_datagram(&c, &mut states, &voice_datagram(&c, seq, &silent())).unwrap();
    assert!(matches!(
        events[0],
        CoreEvent::SpeakingUpdate { ssrc: 77, speaking: false }
    ));
}

#[test]
fn pipeline_rejects_garbage_without_state_changes() {
    let c = cipher();
    let mut states = SsrcMap::new();
    // an RTP-shaped datagram too short to carry a tag
    let d = process_datagram(&c, &mut states, &[0x80, 0x78, 0, 0]);
    assert!(d.is_err());
    // a datagram with a corrupted tag
    let mut datagram = voice_datagram(&c, 5, &audible());
    datagram[15] ^= 0xFF;
    assert!(process_datagram(&c, &mut states, &datagram).is_err());
    assert!(!states.contains(77));
}

#[test]
fn pipeline_handles_rtcp() {
    let c = cipher();
    let mut states = SsrcMap::new();
    // an RTCP sender report: 8-byte header, packet type 200
    let mut header = vec![0x80, 200, 0, 0, 0, 0, 0, 7];
    let mut nonce = [0u8; 24];
    nonce[..8].copy_from_slice(&header);
    let sealed = c.seal(&nonce, b"report body");
    let mut datagram = Vec::new();
    datagram.append(&mut header);
    datagram.extend_from_slice(&sealed);
    let events = process_datagram(&c, &mut states, &datagram).unwrap();
    assert_eq!(events.len(), 1);
    match &events[0] {
        CoreEvent::RtcpPacket { payload } => assert_eq!(payload, b"report body"),
        other => panic!("unexpected event {:?}", other),
    }
}

#[test]
fn rtcp_leaves_receive_state_alone() {
    let c = cipher();
    let mut states = SsrcMap::new();
    // an audible packet starts the stream speaking
    let events =
        process_datagram(&c, &mut states, &voice_datagram(&c, 1, &audible())).unwrap();
    assert_eq!(events.len(), 2);
    // an RTCP report in between must not disturb the stream's state
    let mut rtcp = vec![0x80, 201, 0, 0, 0, 0, 0, 7];
    let mut nonce = [0u8; 24];
    nonce[..8].copy_from_slice(&rtcp);
    let sealed = c.seal(&nonce, b"receiver report");
    rtcp.extend_from_slice(&sealed);
    process_datagram(&c, &mut states, &rtcp).unwrap();
    assert!(states.contains(77));
    // the next audible packet is Same, not Start: the state survived
    let events =
        process_datagram(&c, &mut states, &voice_datagram(&c, 2, &audible())).unwrap();
    assert_eq!(events.len(), 1);
    assert!(matches!(events[0], CoreEvent::VoicePacket { .. }));
}

#[test]
fn pipeline_skips_header_extensions() {
    let c = cipher();
    let mut states = SsrcMap::new();
    // header with the extension flag set; plaintext starts with a
    // one-byte-profile extension block of one word
    let mut datagram = encrypt_rtp(
        &c,
        &RtpHeader { sequence: 9, timestamp: 0, ssrc: 5 },
        &[0xBE, 0xDE, 0, 1, 0, 0, 0, 0, 0xAB, 0xCD],
    );
    datagram[0] = 0x90; // version 2, extension bit set
    // re-encrypt under the modified header so the tag matches
    let plain = [0xBE, 0xDE, 0, 1, 0, 0, 0, 0, 0xAB, 0xCD];
    let mut nonce = [0u8; 24];
    nonce[..12].copy_from_slice(&datagram[..12]);
    let sealed = c.seal(&nonce, &plain);
    datagram.truncate(12);
    datagram.extend_from_slice(&sealed);

    let events = process_datagram(&c, &mut states, &datagram).unwrap();
    let voice = events
        .iter()
        .find_map(|e| match e {
            CoreEvent::VoicePacket { audio, .. } => Some(audio.clone()),
            _ => None,
        })
        .unwrap();
    assert_eq!(voice, vec![0xAB, 0xCD]);
}
