//! Playback state of one track.
//!
//! A track wraps one input.  Holders of a handle reach it only through
//! its command inbox, which the mixer drains at the start of every
//! tick; the track itself is never aliased.  Volume is a playback
//! scale applied to samples and lives with the mixing code outside the
//! library.

use vstd::prelude::*;
use crate::constants::FRAME_LEN_MS;

verus! {

/// Whether a track is playing, paused, or stopped for good.
#[derive(Clone, Copy, Debug, PartialEq, Eq, Structural)]
pub enum PlayMode {
    /// The mixer pulls audio from this track.
    Play,
    /// The track keeps its position but contributes nothing.
    Pause,
    /// The track is done; a stopped track never plays again.
    Stop,
}

/// Type of audio a source yields.
#[derive(Clone, Copy, Debug, PartialEq, Eq, Structural)]
#[non_exhaustive]
pub enum AudioType {
    /// Length-framed Opus packets.
    Opus,
    /// Signed 16-bit PCM.
    Pcm,
    /// 32-bit float PCM.
    FloatPcm,
}

/// A receiver for incoming audio.  Implementors are handed each
/// speaking change, decoded voice packet and membership change of the
/// session, in the order the events were processed.
pub trait AudioReceiver: Send {
    /// A source started or stopped speaking.
    fn speaking_update(&mut self, _ssrc: u32, _user_id: u64, _speaking: bool) {
    }

    /// One decoded voice packet of a source.
    fn voice_packet(
        &mut self,
        _ssrc: u32,
        _sequence: u16,
        _timestamp: u32,
        _stereo: bool,
        _data: &[i16],
        _compressed_size: usize,
    ) {
    }

    /// A user joined the channel.
    fn client_connect(&mut self, _ssrc: u32, _user_id: u64) {
    }

    /// A user left the channel.
    fn client_disconnect(&mut self, _user_id: u64) {
    }
}

/// How often a track restarts when its source runs dry.
#[derive(Clone, Copy, Debug, PartialEq, Eq, Structural)]
pub enum LoopMode {
    /// Restart this many more times, then finish.
    Finite(u64),
    /// Restart forever.
    Infinite,
}

/// A command sent to a track through its handle.
#[derive(Clone, Copy, Debug, PartialEq, Eq, Structural)]
pub enum TrackCommand {
    /// Resume playback.
    Play,
    /// Pause playback.
    Pause,
    /// Stop playback for good.
    Stop,
    /// Move playback to this position, in milliseconds.
    Seek(u64),
    /// Change how often the track restarts.
    SetLoops(LoopMode),
}

/// Playback state of one track.
#[derive(Clone, Copy, Debug, PartialEq, Eq, Structural)]
pub struct TrackState {
    /// Whether the mixer pulls from this track.
    pub play_mode: PlayMode,
    /// The track reached its end or was stopped; terminal.
    pub finished: bool,
    /// Playback position in milliseconds.
    pub position_ms: u64,
    /// The position was just changed by a seek and playback has not
    /// advanced past it yet.
    pub position_modified: bool,
    /// How often the track restarts at the end of its source.
    pub loop_mode: LoopMode,
    /// Total time played, in milliseconds.
    pub play_time_ms: u64,
}

/// The state after one command.
pub open spec fn spec_apply_command(st: TrackState, cmd: TrackCommand) -> TrackState {
    match cmd {
        TrackCommand::Play => TrackState { play_mode: PlayMode::Play, ..st },
        TrackCommand::Pause => TrackState { play_mode: PlayMode::Pause, ..st },
        TrackCommand::Stop => TrackState { play_mode: PlayMode::Stop, finished: true, ..st },
        TrackCommand::Seek(ms) => TrackState { position_ms: ms, position_modified: true, ..st },
        TrackCommand::SetLoops(lm) => TrackState { loop_mode: lm, ..st },
    }
}

/// The state after a run of commands, first command first.
pub open spec fn spec_apply_commands(st: TrackState, cmds: Seq<TrackCommand>) -> TrackState
    decreases cmds.len(),
{
    if cmds.len() == 0 {
        st
    } else {
        spec_apply_commands(spec_apply_command(st, cmds[0]), cmds.skip(1))
    }
}

impl TrackState {
    /// A fresh track: playing from the start, not finished, playing
    /// its source once.
    pub fn new() -> (r: TrackState)
        ensures
            r == (TrackState {
                play_mode: PlayMode::Play,
                finished: false,
                position_ms: 0,
                position_modified: false,
                loop_mode: LoopMode::Finite(0),
                play_time_ms: 0,
            }),
    {
        TrackState {
            play_mode: PlayMode::Play,
            finished: false,
            position_ms: 0,
            position_modified: false,
            loop_mode: LoopMode::Finite(0),
            play_time_ms: 0,
        }
    }

    /// Whether the mixer pulls audio from this track this tick.
    pub fn should_mix(&self) -> (r: bool)
        ensures
            r == (self.play_mode is Play && !self.finished),
    {
        match self.play_mode {
            PlayMode::Play => !self.finished,
            _ => false,
        }
    }

    /// Applies one command from the track's inbox.
    pub fn apply_command(&mut self, cmd: TrackCommand)
        ensures
            *final(self) == spec_apply_command(*old(self), cmd),
    {
        match cmd {
            TrackCommand::Play => {
                self.play_mode = PlayMode::Play;
            },
            TrackCommand::Pause => {
                self.play_mode = PlayMode::Pause;
            },
            TrackCommand::Stop => {
                self.play_mode = PlayMode::Stop;
                self.finished = true;
            },
            TrackCommand::Seek(ms) => {
                self.position_ms = ms;
                self.position_modified = true;
            },
            TrackCommand::SetLoops(lm) => {
                self.loop_mode = lm;
            },
        }
    }

    /// Drains the inbox: applies every queued command in order.  When
    /// every handle to the track is gone (`disconnected`) and the
    /// track is not playing, it is finished, so that a paused orphan
    /// cannot leak.
    pub fn process_commands(&mut self, cmds: &Vec<TrackCommand>, disconnected: bool)
        ensures
            ({
                let applied = spec_apply_commands(*old(self), cmds@);
                *final(self) == (if disconnected && !(applied.play_mode is Play) {
                    TrackState { finished: true, ..applied }
                } else {
                    applied
                })
            }),
    {
        let mut i: usize = 0;
        proof {
            assert(cmds@.skip(0) =~= cmds@);
        }
        while i < cmds.len()
            invariant
                i <= cmds@.len(),
                spec_apply_commands(*self, cmds@.skip(i as int)) == spec_apply_commands(
                    *old(self),
                    cmds@,
                ),
            decreases cmds@.len() - i,
        {
            proof {
                assert(cmds@.skip(i as int)[0] == cmds@[i as int]);
                assert(cmds@.skip(i as int).skip(1) =~= cmds@.skip(i + 1));
            }
            self.apply_command(cmds[i]);
            i = i + 1;
        }
        proof {
            assert(cmds@.skip(i as int) =~= Seq::<TrackCommand>::empty());
        }
        if disconnected {
            let playing = match self.play_mode {
                PlayMode::Play => true,
                _ => false,
            };
            if !playing {
                self.finished = true;
            }
        }
    }

    /// Advances playback by one 20 ms frame after a successful mix.
    pub fn step_frame(&mut self)
        requires
            old(self).position_ms + FRAME_LEN_MS <= u64::MAX,
            old(self).play_time_ms + FRAME_LEN_MS <= u64::MAX,
        ensures
            final(self).position_ms == old(self).position_ms + FRAME_LEN_MS,
            final(self).play_time_ms == old(self).play_time_ms + FRAME_LEN_MS,
            !final(self).position_modified,
            final(self).play_mode == old(self).play_mode,
            final(self).finished == old(self).finished,
            final(self).loop_mode == old(self).loop_mode,
    {
        self.position_ms = self.position_ms + (FRAME_LEN_MS as u64);
        self.play_time_ms = self.play_time_ms + (FRAME_LEN_MS as u64);
        self.position_modified = false;
    }

    /// Handles the source running dry: a track with restarts left
    /// loops (one fewer restart remains) and reports that the source
    /// should be rewound; one without is finished.
    pub fn on_source_exhausted(&mut self) -> (restart: bool)
        ensures
            old(self).loop_mode == LoopMode::Infinite ==> restart && *final(self) == *old(self),
            old(self).loop_mode matches LoopMode::Finite(n) ==> (n > 0 ==> restart && *final(self)
                == (TrackState { loop_mode: LoopMode::Finite((n - 1) as u64), ..*old(self) })) && (
            n == 0 ==> !restart && *final(self) == (TrackState {
                finished: true,
                ..*old(self)
            })),
    {
        match self.loop_mode {
            LoopMode::Infinite => true,
            LoopMode::Finite(n) => {
                if n > 0 {
                    self.loop_mode = LoopMode::Finite(n - 1);
                    true
                } else {
                    self.finished = true;
                    false
                }
            },
        }
    }
}

} // verus!
