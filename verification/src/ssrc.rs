//! Per-source receive state: sequence tracking and speaking deltas.
//!
//! One `SsrcState` exists for each inbound stream identifier, created
//! lazily on its first packet and kept for the life of the session.
//! The Opus decoder that turns accepted frames into PCM lives with the
//! caller; this module decides, for every inbound packet, whether it is
//! fresh or a late reordering, how many packets were missed before it,
//! and whether the source just started or stopped speaking.

use vstd::prelude::*;
use std::collections::HashMap;
use crate::constants::{is_silent_payload, SILENT_FRAME_LIMIT};

verus! {

/// Change of a source's speaking state caused by one packet.
#[derive(Clone, Copy, Debug, PartialEq, Eq, Structural)]
pub enum SpeakingDelta {
    /// No change.
    Same,
    /// The source began speaking with this packet.
    Start,
    /// The source fell silent with this packet.
    Stop,
}

/// What to do with one inbound packet.
#[derive(Clone, Copy, Debug, PartialEq, Eq, Structural)]
pub enum PacketDisposition {
    /// A late or reordered packet: state untouched, nothing decoded,
    /// no event raised.
    Reordered,
    /// A fresh packet: `missed` packets were lost before it, each owed
    /// one loss-concealment step of the decoder, and the packet itself
    /// is decoded; `delta` is the speaking change to publish.
    Fresh { missed: u16, delta: SpeakingDelta },
}

/// Receive state of one inbound stream identifier.
#[derive(Clone, Copy, Debug, PartialEq, Eq, Structural)]
pub struct SsrcState {
    /// Consecutive silent frames observed (missed packets included).
    pub silent_frame_count: u16,
    /// Sequence number of the last accepted packet.
    pub last_seq: u16,
}

/// The 16-bit forward gap from `last` to `seq`.
pub open spec fn spec_seq_gap(last: u16, seq: u16) -> u16 {
    (((seq + 0x10000) - last) % 0x10000) as u16
}

/// A packet is a late reordering when its forward gap from the previous
/// accepted packet lies in the upper half of the sequence space.
pub open spec fn spec_reordered(last: u16, seq: u16) -> bool {
    spec_seq_gap(last, seq) >= 0x8000
}

/// The silent-frame counter after a fresh silent frame that `missed`
/// packets preceded: it grows by one plus the missed packets,
/// saturating.
pub open spec fn spec_bumped_count(count: u16, missed: u16) -> u16 {
    if count + 1 + missed > u16::MAX {
        u16::MAX
    } else {
        (count + 1 + missed) as u16
    }
}

/// The missed-packet count behind a forward gap: one less than the
/// gap, but never negative.
pub open spec fn spec_missed(gap: u16) -> u16 {
    if gap == 0 {
        0u16
    } else {
        (gap - 1) as u16
    }
}

/// The state and disposition that one inbound packet produces.
pub open spec fn spec_process(st: SsrcState, seq: u16, payload: Seq<u8>) -> (SsrcState,
    PacketDisposition) {
    if spec_reordered(st.last_seq, seq) {
        (st, PacketDisposition::Reordered)
    } else {
        let missed = spec_missed(spec_seq_gap(st.last_seq, seq));
        if is_silent_payload(payload) {
            let count = spec_bumped_count(st.silent_frame_count, missed);
            let delta = if count >= SILENT_FRAME_LIMIT && st.silent_frame_count
                < SILENT_FRAME_LIMIT {
                SpeakingDelta::Stop
            } else {
                SpeakingDelta::Same
            };
            (
                SsrcState { silent_frame_count: count, last_seq: seq },
                PacketDisposition::Fresh { missed, delta },
            )
        } else {
            let delta = if st.silent_frame_count >= SILENT_FRAME_LIMIT {
                SpeakingDelta::Start
            } else {
                SpeakingDelta::Same
            };
            (
                SsrcState { silent_frame_count: 0, last_seq: seq },
                PacketDisposition::Fresh { missed, delta },
            )
        }
    }
}

impl SsrcState {
    /// State for a stream seen for the first time with sequence `seq`.
    /// The counter starts at the speaking threshold so that the very
    /// first audible packet raises a `Start`.
    pub fn new(seq: u16) -> (r: SsrcState)
        ensures
            r.silent_frame_count == SILENT_FRAME_LIMIT,
            r.last_seq == seq,
    {
        SsrcState { silent_frame_count: SILENT_FRAME_LIMIT, last_seq: seq }
    }

    /// Classifies one inbound packet with sequence `seq` whose decrypted
    /// audio frame is `payload`.
    ///
    /// A packet whose 16-bit sequence gap to the previous one lies in
    /// the upper half of the sequence space is a late reordering: it
    /// leaves the state unchanged and raises no event.  Otherwise the
    /// packet is accepted; a silent frame grows the silent counter by
    /// one plus the missed packets and raises `Stop` exactly when the
    /// counter first reaches the threshold; an audible frame resets the
    /// counter and raises `Start` exactly when the counter stood at or
    /// above the threshold.
    pub fn process(&mut self, seq: u16, payload: &[u8]) -> (r: PacketDisposition)
        ensures
            *final(self) == spec_process(*old(self), seq, payload@).0,
            r == spec_process(*old(self), seq, payload@).1,
            r is Reordered <==> spec_reordered(old(self).last_seq, seq),
            r is Reordered ==> *final(self) == *old(self),
            r matches PacketDisposition::Fresh { missed, delta } ==> {
                &&& missed == if spec_seq_gap(old(self).last_seq, seq) == 0 {
                    0u16
                } else {
                    (spec_seq_gap(old(self).last_seq, seq) - 1) as u16
                }
                &&& final(self).last_seq == seq
                &&& (is_silent_payload(payload@) ==> {
                    &&& final(self).silent_frame_count == spec_bumped_count(
                        old(self).silent_frame_count,
                        missed,
                    )
                    &&& delta == (if final(self).silent_frame_count >= SILENT_FRAME_LIMIT
                        && old(self).silent_frame_count < SILENT_FRAME_LIMIT {
                        SpeakingDelta::Stop
                    } else {
                        SpeakingDelta::Same
                    })
                })
                &&& (!is_silent_payload(payload@) ==> {
                    &&& final(self).silent_frame_count == 0
                    &&& delta == (if old(self).silent_frame_count >= SILENT_FRAME_LIMIT {
                        SpeakingDelta::Start
                    } else {
                        SpeakingDelta::Same
                    })
                })
            },
    {
        let gap = seq.wrapping_sub(self.last_seq);
        if gap >= 0x8000 {
            proof {
                assert(spec_seq_gap(self.last_seq, seq) == seq.wrapping_sub(self.last_seq));
            }
            return PacketDisposition::Reordered;
        }
        proof {
            assert(spec_seq_gap(self.last_seq, seq) == seq.wrapping_sub(self.last_seq));
        }
        self.last_seq = seq;
        let missed = if gap == 0 {
            0
        } else {
            gap - 1
        };
        let delta = if crate::constants::payload_is_silent(payload) {
            let old_count = self.silent_frame_count;
            self.silent_frame_count = self.silent_frame_count.saturating_add(
                1u16.saturating_add(missed),
            );
            proof {
                assert(self.silent_frame_count == spec_bumped_count(old_count, missed));
            }
            if self.silent_frame_count >= SILENT_FRAME_LIMIT && old_count < SILENT_FRAME_LIMIT {
                SpeakingDelta::Stop
            } else {
                SpeakingDelta::Same
            }
        } else {
            let out = if self.silent_frame_count >= SILENT_FRAME_LIMIT {
                SpeakingDelta::Start
            } else {
                SpeakingDelta::Same
            };
            self.silent_frame_count = 0;
            out
        };
        PacketDisposition::Fresh { missed, delta }
    }
}

/// The map from stream identifier to receive state.  Entries appear on
/// a stream's first packet and are never removed.
pub struct SsrcMap {
    states: HashMap<u32, SsrcState>,
}

impl SsrcMap {
    /// The states by stream identifier.
    pub closed spec fn view(&self) -> Map<u32, SsrcState> {
        self.states@
    }

    /// An empty map: no stream has been heard yet.
    pub fn new() -> (r: SsrcMap)
        ensures
            r@ == Map::<u32, SsrcState>::empty(),
    {
        SsrcMap { states: HashMap::new() }
    }

    /// Takes the state of `ssrc` out of the map, creating it from `seq`
    /// when this is the stream's first packet.  The caller returns it
    /// with `put`.
    pub fn take(&mut self, ssrc: u32, seq: u16) -> (r: SsrcState)
        ensures
            old(self)@.contains_key(ssrc) ==> r == old(self)@[ssrc],
            !old(self)@.contains_key(ssrc) ==> r == (SsrcState {
                silent_frame_count: SILENT_FRAME_LIMIT,
                last_seq: seq,
            }),
            final(self)@ == old(self)@.remove(ssrc),
    {
        broadcast use vstd::std_specs::hash::group_hash_axioms;

        match self.states.remove(&ssrc) {
            Some(st) => st,
            None => SsrcState::new(seq),
        }
    }

    /// Returns a state taken with `take`.
    pub fn put(&mut self, ssrc: u32, st: SsrcState)
        ensures
            final(self)@ == old(self)@.insert(ssrc, st),
    {
        broadcast use vstd::std_specs::hash::group_hash_axioms;

        self.states.insert(ssrc, st);
    }

    /// Whether a stream has been heard.
    pub fn contains(&self, ssrc: u32) -> (r: bool)
        ensures
            r == self@.contains_key(ssrc),
    {
        broadcast use vstd::std_specs::hash::group_hash_axioms;

        self.states.contains_key(&ssrc)
    }
}

} // verus!
