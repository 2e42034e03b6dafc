//! The 20 ms transmit scheduler: sequence growth, silence truncation,
//! speaking transitions and the tick deadline.

use songbird::crypto::Cipher;
use songbird::mixer::{next_deadline, MixerState};
use songbird::rtp::decrypt_rtp;

fn cipher() -> Cipher {
    Cipher::new((100u8..132).collect()).unwrap()
}

fn frame() -> Vec<u8> {
    vec![0x11, 0x22, 0x33, 0x44]
}

#[test]
fn first_datagram_has_sequence_zero_and_timestamp_zero() {
    let c = cipher();
    let mut m = MixerState::new(7);
    let out = m.tick(&c, Some(frame())).datagram.unwrap();
    let d = decrypt_rtp(&c, &out).unwrap();
    assert_eq!(d.header.sequence, 0);
    assert_eq!(d.header.timestamp, 0);
    assert_eq!(d.header.ssrc, 7);
    assert_eq!(d.plaintext, frame());
}

#[test]
fn sequences_and_timestamps_grow_per_transmitted_datagram() {
    let c = cipher();
    let mut m = MixerState::new(3);
    let mut seqs = Vec::new();
    let mut stamps = Vec::new();
    for _ in 0..4 {
        let out = m.tick(&c, Some(frame())).datagram.unwrap();
        let d = decrypt_rtp(&c, &out).unwrap();
        seqs.push(d.header.sequence);
        stamps.push(d.header.timestamp);
    }
    assert_eq!(seqs, vec![0, 1, 2, 3]);
    assert_eq!(stamps, vec![0, 960, 1920, 2880]);
}

#[test]
fn sequence_wraps_modulo_sixteen_bits() {
    let c = cipher();
    let mut m = MixerState::new(1);
    m.sequence = u16::MAX;
    m.timestamp = u32::MAX - 959;
    m.tick(&c, Some(frame()));
    assert_eq!(m.sequence, 0);
    assert_eq!(m.timestamp, 0);
}

#[test]
fn silence_is_truncated_to_five_datagrams() {
    // Three audible frames, then silence forever: expect three audible
    // datagrams, exactly five silent ones, then nothing.
    let c = cipher();
    let mut m = MixerState::new(9);
    let mut audible = 0usize;
    let mut silent = 0usize;
    for _ in 0..3 {
        let out = m.tick(&c, Some(frame()));
        let d = decrypt_rtp(&c, &out.datagram.unwrap()).unwrap();
        assert_eq!(d.plaintext, frame());
        audible += 1;
    }
    for _ in 0..20 {
        if let Some(dg) = m.tick(&c, None).datagram {
            let d = decrypt_rtp(&c, &dg).unwrap();
            assert_eq!(d.plaintext, vec![0xF8, 0xFF, 0xFE]);
            silent += 1;
        }
    }
    assert_eq!(audible, 3);
    assert_eq!(silent, 5);
    // audible audio resumes transmission immediately
    assert!(m.tick(&c, Some(frame())).datagram.is_some());
}

#[test]
fn speaking_flag_follows_audibility() {
    let c = cipher();
    let mut m = MixerState::new(2);
    assert_eq!(m.tick(&c, Some(frame())).speaking_change, Some(true));
    assert_eq!(m.tick(&c, Some(frame())).speaking_change, None);
    for i in 1..=4 {
        assert_eq!(m.tick(&c, None).speaking_change, None, "tick {}", i);
    }
    // the fifth consecutive silent tick lowers the flag
    assert_eq!(m.tick(&c, None).speaking_change, Some(false));
    assert_eq!(m.tick(&c, None).speaking_change, None);
    assert_eq!(m.tick(&c, Some(frame())).speaking_change, Some(true));
}

#[test]
fn deadline_advances_in_twenty_ms_steps_and_resynchronises() {
    assert_eq!(next_deadline(1000, 1005), 1020);
    assert_eq!(next_deadline(1000, 1020), 1020);
    // more than one full tick late: resynchronise instead of flooding
    assert_eq!(next_deadline(1000, 1041), 1041);
    // 500 ticks cover exactly ten seconds
    let mut d = 0u64;
    for _ in 0..500 {
        d = next_deadline(d, d);
    }
    assert_eq!(d, 10000);
}
