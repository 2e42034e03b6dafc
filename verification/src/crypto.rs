//! The XSalsa20-Poly1305 session cipher.
//!
//! Sealing prepends the 16-byte Poly1305 tag to the ciphertext, which is
//! exactly the layout of the encrypted region of a voice datagram: tag
//! first, ciphertext after it.

use vstd::prelude::*;
use xsalsa20poly1305::aead::AeadInPlace;
use xsalsa20poly1305::{Key, KeyInit, Nonce, Tag, XSalsa20Poly1305};
use crate::constants::{KEY_SIZE, NONCE_SIZE, TAG_SIZE};
use crate::error::VoiceError;

verus! {

/// The tag-then-ciphertext bytes that sealing `msg` under `key` and
/// `nonce` produces.
pub uninterp spec fn seal_of(key: Seq<u8>, nonce: Seq<u8>, msg: Seq<u8>) -> Seq<u8>;

/// The message recovered by opening `sealed` (tag, then ciphertext)
/// under `key` and `nonce`, where the tag authenticates.
pub uninterp spec fn open_of(key: Seq<u8>, nonce: Seq<u8>, sealed: Seq<u8>) -> Option<Seq<u8>>;

/// Relies on xsalsa20poly1305's `encrypt_in_place_detached`: with empty
/// associated data it always succeeds, the ciphertext is as long as the
/// message, and `decrypt_in_place_detached` under the same key and nonce
/// accepts the tag it computed and restores the message.
#[verifier::external_body]
fn aead_seal(key: &[u8], nonce: &[u8], msg: &[u8]) -> (r: Vec<u8>)
    requires
        key@.len() == KEY_SIZE,
        nonce@.len() == NONCE_SIZE,
    ensures
        r@ == seal_of(key@, nonce@, msg@),
        r@.len() == TAG_SIZE + msg@.len(),
        open_of(key@, nonce@, r@) == Some(msg@),
{
    let cipher = XSalsa20Poly1305::new(Key::from_slice(key));
    let mut buf = msg.to_vec();
    let tag = cipher
        .encrypt_in_place_detached(Nonce::from_slice(nonce), b"", &mut buf)
        .expect("sealing with empty associated data cannot fail");
    let mut out = tag.to_vec();
    out.append(&mut buf);
    out
}

/// Relies on xsalsa20poly1305's `decrypt_in_place_detached`: it succeeds
/// exactly when the leading tag authenticates the ciphertext under the
/// key and nonce, and then restores a message as long as the ciphertext.
#[verifier::external_body]
fn aead_open(key: &[u8], nonce: &[u8], sealed: &[u8]) -> (r: Option<Vec<u8>>)
    requires
        key@.len() == KEY_SIZE,
        nonce@.len() == NONCE_SIZE,
        sealed@.len() >= TAG_SIZE,
    ensures
        r is Some <==> open_of(key@, nonce@, sealed@) is Some,
        r is Some ==> r.unwrap()@ == open_of(key@, nonce@, sealed@).unwrap(),
        r is Some ==> r.unwrap()@.len() + TAG_SIZE == sealed@.len(),
{
    let cipher = XSalsa20Poly1305::new(Key::from_slice(key));
    let (tag, ct) = sealed.split_at(TAG_SIZE);
    let mut buf = ct.to_vec();
    match cipher.decrypt_in_place_detached(Nonce::from_slice(nonce), b"", &mut buf, Tag::from_slice(tag)) {
        Ok(()) => Some(buf),
        Err(_) => None,
    }
}

/// Holder of one 32-byte session key, shared read-only between the
/// transmit and receive paths.
#[derive(Clone)]
pub struct Cipher {
    key: Vec<u8>,
}

impl Cipher {
    /// The session key.
    pub closed spec fn spec_key(&self) -> Seq<u8> {
        self.key@
    }

    /// A cipher is well formed when its key has the exact key length.
    pub open spec fn wf(&self) -> bool {
        self.spec_key().len() == KEY_SIZE
    }

    /// Builds a cipher from the secret key of a session description.
    /// Any key of the wrong length is rejected.
    pub fn new(key: Vec<u8>) -> (r: Result<Cipher, VoiceError>)
        ensures
            r is Ok <==> key@.len() == KEY_SIZE,
            r is Ok ==> r.unwrap().spec_key() == key@ && r.unwrap().wf(),
            r matches Err(e) ==> e == VoiceError::Aead,
    {
        if key.len() == KEY_SIZE {
            Ok(Cipher { key })
        } else {
            Err(VoiceError::Aead)
        }
    }

    /// Seals `msg`, returning the tag followed by the ciphertext.
    pub fn seal(&self, nonce: &[u8], msg: &[u8]) -> (r: Vec<u8>)
        requires
            self.wf(),
            nonce@.len() == NONCE_SIZE,
        ensures
            r@ == seal_of(self.spec_key(), nonce@, msg@),
            r@.len() == TAG_SIZE + msg@.len(),
            open_of(self.spec_key(), nonce@, r@) == Some(msg@),
    {
        aead_seal(self.key.as_slice(), nonce, msg)
    }

    /// Opens a tag-then-ciphertext region, returning the message when
    /// the tag authenticates and nothing otherwise.
    pub fn open(&self, nonce: &[u8], sealed: &[u8]) -> (r: Option<Vec<u8>>)
        requires
            self.wf(),
            nonce@.len() == NONCE_SIZE,
            sealed@.len() >= TAG_SIZE,
        ensures
            r is Some <==> open_of(self.spec_key(), nonce@, sealed@) is Some,
            r is Some ==> r.unwrap()@ == open_of(self.spec_key(), nonce@, sealed@).unwrap(),
            r is Some ==> r.unwrap()@.len() + TAG_SIZE == sealed@.len(),
    {
        aead_open(self.key.as_slice(), nonce, sealed)
    }

    /// Sealing and then opening any message under the same key and nonce
    /// yields the original bytes.
    pub fn seal_open_round_trip(&self, nonce: &[u8], msg: &[u8]) -> (r: Vec<u8>)
        requires
            self.wf(),
            nonce@.len() == NONCE_SIZE,
        ensures
            r@ == msg@,
    {
        let sealed = self.seal(nonce, msg);
        let opened = self.open(nonce, sealed.as_slice());
        match opened {
            Some(v) => v,
            None => {
                proof {
                    assert(false);
                }
                Vec::new()
            },
        }
    }
}

} // verus!
