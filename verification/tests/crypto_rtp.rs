//! The AEAD layer and the encrypted RTP datagrams, checked against an
//! independent computation with the cipher crate itself.

use songbird::crypto::Cipher;
use songbird::error::VoiceError;
use songbird::rtp::{decrypt_rtp, encrypt_rtp, header_bytes, rtp_round_trip, RtpHeader};
use xsalsa20poly1305::aead::AeadInPlace;
use xsalsa20poly1305::{Key, KeyInit, Nonce, XSalsa20Poly1305};

fn test_key() -> Vec<u8> {
    (0u8..32).collect()
}

#[test]
fn cipher_rejects_wrong_key_length() {
    assert!(matches!(Cipher::new(vec![0u8; 31]), Err(VoiceError::Aead)));
    assert!(matches!(Cipher::new(vec![0u8; 33]), Err(VoiceError::Aead)));
    assert!(Cipher::new(vec![0u8; 32]).is_ok());
}

#[test]
fn seal_then_open_restores_the_message() {
    let cipher = Cipher::new(test_key()).unwrap();
    let nonce = [7u8; 24];
    let msg = b"one 20 ms opus frame".to_vec();
    let sealed = cipher.seal(&nonce, &msg);
    assert_eq!(sealed.len(), msg.len() + 16);
    let opened = cipher.open(&nonce, &sealed).unwrap();
    assert_eq!(opened, msg);
    let round = cipher.seal_open_round_trip(&nonce, &msg);
    assert_eq!(round, msg);
}

#[test]
fn open_rejects_a_tampered_byte() {
    let cipher = Cipher::new(test_key()).unwrap();
    let nonce = [9u8; 24];
    let mut sealed = cipher.seal(&nonce, b"payload");
    sealed[20] ^= 1;
    assert!(cipher.open(&nonce, &sealed).is_none());
}

#[test]
fn sealed_bytes_match_the_cipher_crate() {
    // The library's sealing must be the real XSalsa20-Poly1305, not a
    // copy of the input: compare against a direct computation.
    let key = test_key();
    let cipher = Cipher::new(key.clone()).unwrap();
    let h = RtpHeader { sequence: 5, timestamp: 4800, ssrc: 99 };
    let payload = b"audio bytes".to_vec();
    let datagram = encrypt_rtp(&cipher, &h, &payload);

    let header = header_bytes(&h);
    let mut nonce = [0u8; 24];
    nonce[..12].copy_from_slice(&header);
    let reference = XSalsa20Poly1305::new(Key::from_slice(&key));
    let mut buf = payload.clone();
    let tag = reference
        .encrypt_in_place_detached(Nonce::from_slice(&nonce), b"", &mut buf)
        .unwrap();

    assert_eq!(&datagram[..12], &header[..]);
    assert_eq!(&datagram[12..28], tag.as_slice());
    assert_eq!(&datagram[28..], &buf[..]);
    assert_ne!(&datagram[28..], &payload[..]);
}

#[test]
fn rtp_datagram_round_trip() {
    let cipher = Cipher::new(test_key()).unwrap();
    let h = RtpHeader { sequence: 1000, timestamp: 960000, ssrc: 7 };
    let payload = vec![1u8, 2, 3, 4, 5];
    let datagram = encrypt_rtp(&cipher, &h, &payload);
    let d = decrypt_rtp(&cipher, &datagram).unwrap();
    assert_eq!(d.plaintext, payload);
    assert_eq!(d.header.sequence, 1000);
    assert_eq!(d.header.timestamp, 960000);
    assert_eq!(d.header.ssrc, 7);

    let r = rtp_round_trip(&cipher, &h, &payload);
    assert_eq!(r.plaintext, payload);
}

#[test]
fn decrypt_rejects_a_wrong_key() {
    let cipher = Cipher::new(test_key()).unwrap();
    let other = Cipher::new(vec![0xAA; 32]).unwrap();
    let h = RtpHeader { sequence: 0, timestamp: 0, ssrc: 1 };
    let datagram = encrypt_rtp(&cipher, &h, b"frame");
    assert!(decrypt_rtp(&other, &datagram).is_none());
    assert!(decrypt_rtp(&cipher, &datagram[..20]).is_none());
}
