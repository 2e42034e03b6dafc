//! The 20 ms transmit scheduler.
//!
//! Each tick the mixer either has one encoded Opus frame (an audible
//! tick) or none (a silent tick).  Audible ticks always transmit.  After
//! the last audible tick exactly five silent datagrams carrying the
//! canonical silent frame are transmitted, then nothing until audible
//! audio returns.  The sequence number grows by one and the timestamp by
//! 960 with every transmitted datagram and only then.

use vstd::prelude::*;
use crate::constants::{silent_frame, silent_frame_spec, SILENT_FRAME_LIMIT, TIMESTAMP_STEP};
use crate::crypto::Cipher;
use crate::rtp::{encrypt_rtp, spec_datagram, RtpHeader};

verus! {

/// Transmit-side state of one voice session.
#[derive(Clone, Copy, Debug, PartialEq, Eq, Structural)]
pub struct MixerState {
    /// RTP sequence number of the next datagram.
    pub sequence: u16,
    /// RTP timestamp of the next datagram.
    pub timestamp: u32,
    /// Stream identifier assigned by the server.
    pub ssrc: u32,
    /// Consecutive silent ticks since the last audible one.
    pub silent_ticks: u16,
    /// Whether the microphone speaking flag is currently raised.
    pub speaking: bool,
}

/// Whether a tick with this many preceding silent ticks transmits.
pub open spec fn spec_sends(silent_ticks: u16, audible: bool) -> bool {
    audible || silent_ticks < SILENT_FRAME_LIMIT
}

/// The silent-tick counter after one tick.
pub open spec fn spec_next_silent(silent_ticks: u16, audible: bool) -> u16 {
    if audible {
        0u16
    } else if silent_ticks == u16::MAX {
        u16::MAX
    } else {
        (silent_ticks + 1) as u16
    }
}

/// The speaking flag after one tick.
pub open spec fn spec_next_speaking(st: MixerState, audible: bool) -> bool {
    if audible {
        true
    } else if spec_next_silent(st.silent_ticks, false) >= SILENT_FRAME_LIMIT {
        false
    } else {
        st.speaking
    }
}

/// The state after one tick.
pub open spec fn spec_step(st: MixerState, audible: bool) -> MixerState {
    let sent = spec_sends(st.silent_ticks, audible);
    MixerState {
        sequence: if sent {
            ((st.sequence + 1) % 0x10000) as u16
        } else {
            st.sequence
        },
        timestamp: if sent {
            ((st.timestamp + 960) % 0x1_0000_0000) as u32
        } else {
            st.timestamp
        },
        ssrc: st.ssrc,
        silent_ticks: spec_next_silent(st.silent_ticks, audible),
        speaking: spec_next_speaking(st, audible),
    }
}

/// What one tick hands to its surroundings.
pub struct TickOutput {
    /// The datagram to transmit, when this tick transmits.
    pub datagram: Option<Vec<u8>>,
    /// A change of the speaking flag to publish, when it flipped.
    pub speaking_change: Option<bool>,
}

impl MixerState {
    /// A fresh transmit state: first datagram has sequence 0 and
    /// timestamp 0, the stream counts as silent long enough that the
    /// first audible frame raises the speaking flag.
    pub fn new(ssrc: u32) -> (r: MixerState)
        ensures
            r.sequence == 0,
            r.timestamp == 0,
            r.ssrc == ssrc,
            r.silent_ticks == SILENT_FRAME_LIMIT,
            !r.speaking,
    {
        MixerState {
            sequence: 0,
            timestamp: 0,
            ssrc,
            silent_ticks: SILENT_FRAME_LIMIT,
            speaking: false,
        }
    }

    /// Runs one 20 ms tick.  `opus` is the encoded frame of this tick's
    /// mixed audio, or nothing when no track contributed samples.  The
    /// transmitted datagram, when there is one, carries the tick's frame
    /// or the canonical silent frame, encrypted under `cipher` with the
    /// nonce derived from its own header.
    pub fn tick(&mut self, cipher: &Cipher, opus: Option<Vec<u8>>) -> (r: TickOutput)
        requires
            cipher.wf(),
        ensures
            *final(self) == spec_step(*old(self), opus is Some),
            r.datagram is Some <==> spec_sends(old(self).silent_ticks, opus is Some),
            r.datagram matches Some(d) ==> d@ == spec_datagram(
                cipher.spec_key(),
                RtpHeader {
                    sequence: old(self).sequence,
                    timestamp: old(self).timestamp,
                    ssrc: old(self).ssrc,
                },
                if opus is Some {
                    opus.unwrap()@
                } else {
                    silent_frame_spec()
                },
            ),
            r.speaking_change == (if final(self).speaking != old(self).speaking {
                Some(final(self).speaking)
            } else {
                Option::<bool>::None
            }),
    {
        let audible = opus.is_some();
        let old_speaking = self.speaking;
        let sends = match &opus {
            Some(_) => true,
            None => self.silent_ticks < SILENT_FRAME_LIMIT,
        };
        let datagram = if sends {
            let header = RtpHeader {
                sequence: self.sequence,
                timestamp: self.timestamp,
                ssrc: self.ssrc,
            };
            let payload = match opus {
                Some(p) => p,
                None => silent_frame(),
            };
            let d = encrypt_rtp(cipher, &header, payload.as_slice());
            self.sequence = self.sequence.wrapping_add(1);
            self.timestamp = self.timestamp.wrapping_add(TIMESTAMP_STEP);
            Some(d)
        } else {
            None
        };
        if audible {
            self.silent_ticks = 0;
            self.speaking = true;
        } else {
            self.silent_ticks = self.silent_ticks.saturating_add(1);
            if self.silent_ticks >= SILENT_FRAME_LIMIT {
                self.speaking = false;
            }
        }
        let speaking_change = if self.speaking != old_speaking {
            Some(self.speaking)
        } else {
            None
        };
        TickOutput { datagram, speaking_change }
    }
}

/// The state after a whole run of ticks, first input first.
pub open spec fn spec_run(st: MixerState, inputs: Seq<bool>) -> MixerState
    decreases inputs.len(),
{
    if inputs.len() == 0 {
        st
    } else {
        spec_run(spec_step(st, inputs[0]), inputs.skip(1))
    }
}

/// How many ticks of a run transmit a datagram.
pub open spec fn spec_sent_count(st: MixerState, inputs: Seq<bool>) -> nat
    decreases inputs.len(),
{
    if inputs.len() == 0 {
        0nat
    } else {
        (if spec_sends(st.silent_ticks, inputs[0]) {
            1nat
        } else {
            0nat
        }) + spec_sent_count(spec_step(st, inputs[0]), inputs.skip(1))
    }
}

/// Datagram sequence numbers are consecutive modulo 2^16 and timestamps
/// consecutive steps of 960 modulo 2^32: after any run of ticks, the
/// sequence and timestamp have advanced by exactly one and by exactly
/// 960 for each transmitted datagram.  In particular the k-th and
/// (k+1)-th transmitted datagrams of a session differ by one in sequence
/// and by 960 in timestamp, modulo the counter widths.
pub proof fn lemma_rtp_monotonicity(st: MixerState, inputs: Seq<bool>)
    ensures
        spec_run(st, inputs).sequence == (st.sequence + spec_sent_count(st, inputs)) % 0x10000,
        spec_run(st, inputs).timestamp == (st.timestamp + 960 * spec_sent_count(st, inputs))
            % 0x1_0000_0000,
    decreases inputs.len(),
{
    if inputs.len() == 0 {
    } else {
        let st1 = spec_step(st, inputs[0]);
        lemma_rtp_monotonicity(st1, inputs.skip(1));
        let c = spec_sent_count(st1, inputs.skip(1));
        if spec_sends(st.silent_ticks, inputs[0]) {
            assert(st1.sequence == (st.sequence + 1) % 0x10000);
            assert(spec_run(st, inputs).sequence == ((st.sequence + 1) % 0x10000 + c) % 0x10000);
            assert(((st.sequence + 1) % 0x10000 + c) % 0x10000 == (st.sequence + 1 + c) % 0x10000)
                by (nonlinear_arith);
            assert(st1.timestamp == (st.timestamp + 960) % 0x1_0000_0000);
            assert(((st.timestamp + 960) % 0x1_0000_0000 + 960 * c) % 0x1_0000_0000 == (
            st.timestamp + 960 + 960 * c) % 0x1_0000_0000) by (nonlinear_arith);
            assert(960 + 960 * c == 960 * (1 + c)) by (nonlinear_arith);
        }
    }
}

/// A run of nothing but silent ticks right after an audible tick
/// transmits exactly `min(N, 5)` silent datagrams.
pub proof fn lemma_silence_truncation(st: MixerState, inputs: Seq<bool>)
    requires
        st.silent_ticks == 0,
        forall|i: int| 0 <= i < inputs.len() ==> !inputs[i],
    ensures
        spec_sent_count(st, inputs) == if inputs.len() <= SILENT_FRAME_LIMIT {
            inputs.len()
        } else {
            SILENT_FRAME_LIMIT as nat
        },
{
    lemma_silent_run_count(st, inputs);
}

/// Helper for the silence-truncation law, stated for any starting value
/// of the silent-tick counter.
proof fn lemma_silent_run_count(st: MixerState, inputs: Seq<bool>)
    requires
        forall|i: int| 0 <= i < inputs.len() ==> !inputs[i],
    ensures
        spec_sent_count(st, inputs) == if st.silent_ticks >= SILENT_FRAME_LIMIT {
            0nat
        } else if inputs.len() <= SILENT_FRAME_LIMIT - st.silent_ticks {
            inputs.len()
        } else {
            (SILENT_FRAME_LIMIT - st.silent_ticks) as nat
        },
    decreases inputs.len(),
{
    if inputs.len() == 0 {
    } else {
        lemma_silent_run_count(spec_step(st, inputs[0]), inputs.skip(1));
    }
}

/// Ticks are driven by a deadline that advances by exactly 20 ms per
/// tick while the mixer keeps up.
pub open spec fn spec_deadline(start_ms: int, n: nat) -> int {
    start_ms + 20 * n
}

/// Advances the tick deadline: normally by 20 ms; when the current time
/// has already run a full tick past the deadline, the schedule
/// resynchronises to now instead of flooding the network.
pub fn next_deadline(deadline_ms: u64, now_ms: u64) -> (r: u64)
    requires
        deadline_ms + 20 <= u64::MAX,
    ensures
        r == if now_ms > deadline_ms + 20 {
            now_ms
        } else {
            (deadline_ms + 20) as u64
        },
{
    if now_ms > deadline_ms + 20 {
        now_ms
    } else {
        deadline_ms + 20
    }
}

/// Tick cadence: while the mixer keeps up, deadlines sit exactly 20 ms
/// apart, so the ticks whose deadlines fall inside any 10-second window
/// starting at a deadline are exactly 500 consecutive ones.  Each tick
/// transmits at most one datagram.
pub proof fn lemma_tick_cadence(start_ms: int, n: nat, m: nat)
    ensures
        spec_deadline(start_ms, n) <= spec_deadline(start_ms, m) < spec_deadline(start_ms, n)
            + 10000 <==> n <= m < n + 500,
{
}

/// While audio keeps flowing, every tick transmits: over a run of
/// audible ticks the datagram count equals the tick count, so a
/// 10-second window of audible ticks carries exactly 500 datagrams.
pub proof fn lemma_audible_run_sends_every_tick(st: MixerState, inputs: Seq<bool>)
    requires
        forall|i: int| 0 <= i < inputs.len() ==> inputs[i],
    ensures
        spec_sent_count(st, inputs) == inputs.len(),
    decreases inputs.len(),
{
    if inputs.len() > 0 {
        lemma_audible_run_sends_every_tick(spec_step(st, inputs[0]), inputs.skip(1));
    }
}

} // verus!
