//! The control-plane handshake of one voice session.
//!
//! A new connection identifies itself, then consumes gateway frames
//! until both a greeting and a readiness frame have arrived, in either
//! order; any other frame is a handshake violation.  A resume waits for
//! the greeting and the resume acknowledgement instead.  After IP
//! discovery the session description's mode is checked and the cipher
//! is built from its key.

use vstd::prelude::*;
use vstd::string::StrSliceExecFns;
use vstd::string::StringExecFns;
use crate::constants::KEY_SIZE;
use crate::crypto::Cipher;
use crate::error::VoiceError;
use crate::events::{HelloPayload, ReadyPayload, SessionDescription, VoiceEvent};

verus! {

/// Everything needed to open one voice session.
#[derive(Clone, Debug)]
pub struct ConnectionInfo {
    /// Voice server host, possibly with a `:80` suffix to strip.
    pub endpoint: String,
    /// Guild whose channel the session joins.
    pub guild_id: u64,
    /// Gateway session identifier.
    pub session_id: String,
    /// Voice token for this session.
    pub token: String,
    /// The connecting user.
    pub user_id: u64,
}

/// The encryption modes this library can speak.
#[derive(Clone, Copy, Debug, PartialEq, Eq, Structural)]
pub enum CryptoMode {
    /// XSalsa20-Poly1305 with the RTP-header nonce.
    Normal,
}

impl CryptoMode {
    /// The mode name used on the wire.
    pub open spec fn spec_request_str(self) -> Seq<char> {
        "xsalsa20_poly1305"@
    }

    /// The mode name used on the wire.
    pub fn to_request_str(self) -> (r: &'static str)
        ensures
            r@ == self.spec_request_str(),
    {
        "xsalsa20_poly1305"
    }
}

/// Whether the offered mode list contains the requested mode.
pub open spec fn spec_has_valid_mode(modes: Seq<Seq<char>>, mode: CryptoMode) -> bool {
    exists|i: int| 0 <= i < modes.len() && modes[i] == mode.spec_request_str()
}

/// Scans the server's offered modes for the requested one.
pub fn has_valid_mode(modes: &Vec<String>, mode: CryptoMode) -> (r: bool)
    ensures
        r == spec_has_valid_mode(modes@.map_values(|m: String| m@), mode),
{
    let target: String = mode.to_request_str().to_owned();
    let ghost mapped = modes@.map_values(|m: String| m@);
    let mut i: usize = 0;
    while i < modes.len()
        invariant
            i <= modes@.len(),
            target@ == mode.spec_request_str(),
            mapped == modes@.map_values(|m: String| m@),
            forall|j: int| 0 <= j < i ==> mapped[j] != mode.spec_request_str(),
        decreases modes@.len() - i,
    {
        if modes[i] == target {
            assert(mapped[i as int] == mode.spec_request_str());
            return true;
        }
        i = i + 1;
    }
    false
}

/// Accepts a URL string exactly when the URL parser of the `url` crate
/// does; acceptance depends on the string alone.
pub uninterp spec fn url_parse_ok(s: Seq<char>) -> bool;

/// Relies on url::Url::parse for which strings are well-formed URLs.
#[verifier::external_body]
fn parse_url_accepts(s: &str) -> (r: bool)
    ensures
        r == url_parse_ok(s@),
{
    url::Url::parse(s).is_ok()
}

/// The endpoint with a trailing `:80` stripped, when it carries one.
pub open spec fn spec_stripped_endpoint(e: Seq<char>) -> Seq<char> {
    if e.len() >= 3 && e.subrange(e.len() - 3, e.len() as int) == ":80"@ {
        e.subrange(0, e.len() - 3)
    } else {
        e
    }
}

/// The gateway URL synthesised from a stripped endpoint.
pub open spec fn spec_gateway_url(e: Seq<char>) -> Seq<char> {
    "wss://"@ + spec_stripped_endpoint(e) + "/?v=4"@
}

/// Builds the WebSocket URL for an endpoint: strips a trailing `:80`,
/// prepends the scheme, appends the gateway version query (version 4,
/// `VOICE_GATEWAY_VERSION`).  An endpoint whose synthesised URL the
/// URL parser rejects is refused with `EndpointUrl`.
pub fn generate_url(endpoint: &str) -> (r: Result<String, VoiceError>)
    ensures
        r is Ok <==> url_parse_ok(spec_gateway_url(endpoint@)),
        r matches Ok(u) ==> u@ == spec_gateway_url(endpoint@),
        r matches Err(e) ==> e == VoiceError::EndpointUrl,
{
    let len = endpoint.unicode_len();
    let stripped: &str = if len >= 3 && endpoint.get_char(len - 3) == ':' && endpoint.get_char(
        len - 2,
    ) == '8' && endpoint.get_char(len - 1) == '0' {
        let s = endpoint.substring_char(0, len - 3);
        proof {
            reveal_strlit(":80");
            assert(endpoint@.subrange(endpoint@.len() - 3, endpoint@.len() as int) =~= ":80"@);
        }
        s
    } else {
        proof {
            reveal_strlit(":80");
            let e = endpoint@;
            if e.len() >= 3 && e.subrange(e.len() - 3, e.len() as int) == ":80"@ {
                assert(e.subrange(e.len() - 3, e.len() as int)[0] == e[e.len() - 3]);
                assert(e.subrange(e.len() - 3, e.len() as int)[1] == e[e.len() - 2]);
                assert(e.subrange(e.len() - 3, e.len() as int)[2] == e[e.len() - 1]);
                assert(":80"@[0] == ':' && ":80"@[1] == '8' && ":80"@[2] == '0');
            }
        }
        endpoint
    };
    let mut url: String = "wss://".to_owned();
    url.append(stripped);
    url.append("/?v=4");
    proof {
        assert(url@ == spec_gateway_url(endpoint@));
    }
    if parse_url_accepts(url.as_str()) {
        Ok(url)
    } else {
        Err(VoiceError::EndpointUrl)
    }
}

/// The two frames a new connection waits for, in either order.
pub struct HandshakeState {
    /// The greeting, once seen.
    pub hello: Option<HelloPayload>,
    /// The readiness frame, once seen.
    pub ready: Option<ReadyPayload>,
}

impl HandshakeState {
    /// Both awaited frames have arrived.
    pub open spec fn complete(&self) -> bool {
        self.hello is Some && self.ready is Some
    }

    /// A handshake that has seen nothing yet.
    pub fn new() -> (r: HandshakeState)
        ensures
            r.hello is None,
            r.ready is None,
    {
        HandshakeState { hello: None, ready: None }
    }

    /// Feeds one gateway frame to the handshake.  Greeting and
    /// readiness frames fill their slot, in either order; every other
    /// frame is a violation that fails the attempt.  Returns whether
    /// the handshake is now complete.
    pub fn observe(&mut self, ev: VoiceEvent) -> (r: Result<bool, VoiceError>)
        ensures
            ev matches VoiceEvent::Hello(h) ==> r is Ok && final(self).hello == Some(h)
                && final(self).ready == old(self).ready,
            ev matches VoiceEvent::Ready(p) ==> r is Ok && final(self).ready == Some(p)
                && final(self).hello == old(self).hello,
            !(ev matches VoiceEvent::Hello(_) || ev matches VoiceEvent::Ready(_)) ==> r == Err::<
                bool,
                VoiceError,
            >(VoiceError::ExpectedHandshake) && *final(self) == *old(self),
            r matches Ok(done) ==> done == final(self).complete(),
    {
        match ev {
            VoiceEvent::Hello(h) => {
                self.hello = Some(h);
                Ok(self.ready.is_some())
            },
            VoiceEvent::Ready(p) => {
                self.ready = Some(p);
                Ok(self.hello.is_some())
            },
            _ => Err(VoiceError::ExpectedHandshake),
        }
    }

    /// Closes a complete handshake: checks that the server offers the
    /// requested mode and hands the two payloads over.  Fails with
    /// `CryptoModeUnavailable` when the mode is missing, before any UDP
    /// socket is opened.
    pub fn finish(self, mode: CryptoMode) -> (r: Result<(HelloPayload, ReadyPayload), VoiceError>)
        requires
            self.complete(),
        ensures
            r is Ok <==> spec_has_valid_mode(
                self.ready.unwrap().modes@.map_values(|m: String| m@),
                mode,
            ),
            r matches Ok(p) ==> p.0 == self.hello.unwrap() && p.1 == self.ready.unwrap(),
            r matches Err(e) ==> e == VoiceError::CryptoModeUnavailable,
    {
        let hello = match self.hello {
            Some(h) => h,
            None => {
                proof {
                    assert(false);
                }
                HelloPayload { heartbeat_interval_ms: 0 }
            },
        };
        let ready = match self.ready {
            Some(p) => p,
            None => {
                proof {
                    assert(false);
                }
                ReadyPayload { ssrc: 0, ip: String::new(), port: 0, modes: Vec::new() }
            },
        };
        if has_valid_mode(&ready.modes, mode) {
            Ok((hello, ready))
        } else {
            Err(VoiceError::CryptoModeUnavailable)
        }
    }
}

/// The two frames a resume waits for, in either order.
pub struct ResumeState {
    /// The greeting, once seen.
    pub hello: Option<HelloPayload>,
    /// Whether the resume acknowledgement has arrived.
    pub resumed: bool,
}

impl ResumeState {
    /// Both awaited frames have arrived.
    pub open spec fn complete(&self) -> bool {
        self.hello is Some && self.resumed
    }

    /// A resume that has seen nothing yet.
    pub fn new() -> (r: ResumeState)
        ensures
            r.hello is None,
            !r.resumed,
    {
        ResumeState { hello: None, resumed: false }
    }

    /// Feeds one gateway frame to the resume.  The greeting and the
    /// resume acknowledgement fill their slot, in either order; every
    /// other frame fails the attempt.  Returns whether the resume is
    /// now complete.
    pub fn observe(&mut self, ev: VoiceEvent) -> (r: Result<bool, VoiceError>)
        ensures
            ev matches VoiceEvent::Hello(h) ==> r is Ok && final(self).hello == Some(h)
                && final(self).resumed == old(self).resumed,
            ev matches VoiceEvent::Resumed ==> r is Ok && final(self).resumed && final(self).hello
                == old(self).hello,
            !(ev matches VoiceEvent::Hello(_) || ev matches VoiceEvent::Resumed) ==> r == Err::<
                bool,
                VoiceError,
            >(VoiceError::ExpectedHandshake) && *final(self) == *old(self),
            r matches Ok(done) ==> done == final(self).complete(),
    {
        match ev {
            VoiceEvent::Hello(h) => {
                self.hello = Some(h);
                Ok(self.resumed)
            },
            VoiceEvent::Resumed => {
                self.resumed = true;
                Ok(self.hello.is_some())
            },
            _ => Err(VoiceError::ExpectedHandshake),
        }
    }
}

/// Accepts the server's session description: the mode must be the one
/// selected and the key must have the exact key length; the cipher is
/// built from the key.
pub fn accept_session_description(desc: SessionDescription, mode: CryptoMode) -> (r: Result<
    Cipher,
    VoiceError,
>)
    ensures
        desc.mode@ != mode.spec_request_str() ==> r == Err::<Cipher, VoiceError>(
            VoiceError::CryptoModeInvalid,
        ),
        desc.mode@ == mode.spec_request_str() && desc.secret_key@.len() == KEY_SIZE <==> r is Ok,
        r matches Ok(c) ==> c.wf() && c.spec_key() == desc.secret_key@,
        desc.mode@ == mode.spec_request_str() && desc.secret_key@.len() != KEY_SIZE ==> r == Err::<
            Cipher,
            VoiceError,
        >(VoiceError::Aead),
{
    let target: String = mode.to_request_str().to_owned();
    if !(desc.mode == target) {
        return Err(VoiceError::CryptoModeInvalid);
    }
    Cipher::new(desc.secret_key)
}

} // verus!
