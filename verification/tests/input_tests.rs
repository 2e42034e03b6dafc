//! Input framing, DCA headers, metadata extraction and track state.

use songbird::error::VoiceError;
use songbird::input::{
    byte_count_to_timestamp, input_well_formed, parse_dca_header, parse_seconds_ms, parse_u64,
    timestamp_to_byte_count, CodecType, Container, Frame, Metadata, ProbeFormat, ProbeOutput,
    ProbeStream, YtdlInfo,
};
use songbird::track::{LoopMode, PlayMode, TrackCommand, TrackState};

#[test]
fn sample_lengths() {
    assert_eq!(CodecType::Pcm.sample_len(), 2);
    assert_eq!(CodecType::FloatPcm.sample_len(), 4);
    assert_eq!(CodecType::Opus.sample_len(), 4);
}

#[test]
fn seek_is_trivial_only_for_raw() {
    assert!(Container::Raw.is_seek_trivial());
    assert!(!Container::Dca.is_seek_trivial());
}

#[test]
fn frame_lengths() {
    assert_eq!(
        Container::Raw.next_frame_length(CodecType::Pcm, &[]),
        Ok(Frame { header_len: 0, frame_len: 2 })
    );
    assert_eq!(
        Container::Dca.next_frame_length(CodecType::Opus, &[0x03, 0x00]),
        Ok(Frame { header_len: 2, frame_len: 3 })
    );
    assert_eq!(
        Container::Dca.next_frame_length(CodecType::Opus, &[0x34, 0x12]),
        Ok(Frame { header_len: 2, frame_len: 0x1234 })
    );
    assert_eq!(
        Container::Dca.next_frame_length(CodecType::Opus, &[0xFF, 0xFF]),
        Err(VoiceError::InputFormat)
    );
}

#[test]
fn raw_streams_cannot_carry_opus() {
    assert!(!input_well_formed(CodecType::Opus, Container::Raw));
    assert!(input_well_formed(CodecType::Opus, Container::Dca));
    assert!(input_well_formed(CodecType::Pcm, Container::Raw));
    assert!(input_well_formed(CodecType::FloatPcm, Container::Raw));
}

#[test]
fn dca_header_is_checked() {
    let mut good = b"DCA1".to_vec();
    good.extend_from_slice(&100i32.to_le_bytes());
    assert_eq!(parse_dca_header(&good), Ok(100));

    let mut wrong_magic = b"DCA2".to_vec();
    wrong_magic.extend_from_slice(&100i32.to_le_bytes());
    assert_eq!(parse_dca_header(&wrong_magic), Err(VoiceError::InputFormat));

    let mut too_small = b"DCA1".to_vec();
    too_small.extend_from_slice(&1i32.to_le_bytes());
    assert_eq!(parse_dca_header(&too_small), Err(VoiceError::InputFormat));

    let mut negative = b"DCA1".to_vec();
    negative.extend_from_slice(&(-5i32).to_le_bytes());
    assert_eq!(parse_dca_header(&negative), Err(VoiceError::InputFormat));

    assert_eq!(parse_dca_header(b"DCA1"), Err(VoiceError::InputIo));
}

#[test]
fn unsigned_parsing() {
    assert_eq!(parse_u64("123"), Some(123));
    assert_eq!(parse_u64("0"), Some(0));
    assert_eq!(parse_u64(""), None);
    assert_eq!(parse_u64("12a"), None);
    assert_eq!(parse_u64("18446744073709551615"), Some(u64::MAX));
    assert_eq!(parse_u64("18446744073709551616"), None);
}

#[test]
fn seconds_parsing() {
    assert_eq!(parse_seconds_ms("123"), Some(123_000));
    assert_eq!(parse_seconds_ms("123.456"), Some(123_456));
    assert_eq!(parse_seconds_ms("1.5"), Some(1_500));
    assert_eq!(parse_seconds_ms("0.75"), Some(750));
    assert_eq!(parse_seconds_ms("1.2345"), Some(1_234));
    assert_eq!(parse_seconds_ms("1."), Some(1_000));
    assert_eq!(parse_seconds_ms(".5"), None);
    assert_eq!(parse_seconds_ms("1.2x"), None);
    assert_eq!(parse_seconds_ms("x.2"), None);
}

fn probe() -> ProbeOutput {
    ProbeOutput {
        format: Some(ProbeFormat {
            duration: Some("123.456".to_string()),
            start_time: Some("0.5".to_string()),
            title: Some("A Title".to_string()),
            artist: Some("An Artist".to_string()),
            date: Some("2020".to_string()),
        }),
        streams: vec![
            ProbeStream {
                codec_type: "video".to_string(),
                channels: None,
                sample_rate: None,
            },
            ProbeStream {
                codec_type: "audio".to_string(),
                channels: Some(2),
                sample_rate: Some("48000".to_string()),
            },
        ],
    }
}

#[test]
fn metadata_from_probe() {
    let m = Metadata::from_ffprobe_json(&probe());
    assert_eq!(m.title.as_deref(), Some("A Title"));
    assert_eq!(m.artist.as_deref(), Some("An Artist"));
    assert_eq!(m.date.as_deref(), Some("2020"));
    assert_eq!(m.duration_ms, Some(123_456));
    assert_eq!(m.start_time_ms, Some(500));
    assert_eq!(m.channels, Some(2));
    assert_eq!(m.sample_rate, Some(48_000));
}

#[test]
fn metadata_from_empty_probe() {
    let m = Metadata::from_ffprobe_json(&ProbeOutput { format: None, streams: Vec::new() });
    assert_eq!(m, Metadata::default());
}

#[test]
fn metadata_take_moves_everything() {
    let mut m = Metadata::from_ffprobe_json(&probe());
    let taken = m.take();
    assert_eq!(taken.title.as_deref(), Some("A Title"));
    assert_eq!(taken.channels, Some(2));
    assert_eq!(m, Metadata::default());
}

#[test]
fn downloader_report_prefers_track_and_release_date() {
    let info = YtdlInfo {
        track: Some("Track".to_string()),
        title: Some("Title".to_string()),
        artist: Some("Artist".to_string()),
        release_date: None,
        upload_date: Some("20200102".to_string()),
        duration_ms: Some(215_000),
    };
    let m = Metadata::from_ytdl_info(&info);
    assert_eq!(m.title.as_deref(), Some("Track"));
    assert_eq!(m.date.as_deref(), Some("20200102"));
    assert_eq!(m.channels, Some(2));
    assert_eq!(m.sample_rate, Some(48_000));
    assert_eq!(m.duration_ms, Some(215_000));

    let info = YtdlInfo { track: None, release_date: Some("2019".to_string()), ..info };
    let m = Metadata::from_ytdl_info(&info);
    assert_eq!(m.title.as_deref(), Some("Title"));
    assert_eq!(m.date.as_deref(), Some("2019"));
}

#[test]
fn error_descriptions_are_distinct_for_input_errors() {
    assert_ne!(
        VoiceError::InputFormat.describe(),
        VoiceError::InputIo.describe()
    );
    assert!(!VoiceError::CryptoModeUnavailable.describe().is_empty());
}

#[test]
fn timestamp_byte_conversions() {
    assert_eq!(timestamp_to_byte_count(20, true), 1920);
    assert_eq!(timestamp_to_byte_count(20, false), 960);
    assert_eq!(byte_count_to_timestamp(1920, true), 20);
    assert_eq!(byte_count_to_timestamp(960, false), 20);
    // the two are inverse on frame boundaries
    let ms = 2540u64;
    assert_eq!(byte_count_to_timestamp(timestamp_to_byte_count(ms, true), true), ms);
}

#[test]
fn track_commands_apply_in_order() {
    let mut t = TrackState::new();
    assert!(t.should_mix());
    t.apply_command(TrackCommand::Pause);
    assert_eq!(t.play_mode, PlayMode::Pause);
    assert!(!t.should_mix());
    t.apply_command(TrackCommand::Seek(5000));
    assert_eq!(t.position_ms, 5000);
    assert!(t.position_modified);
    let cmds = vec![TrackCommand::Play, TrackCommand::Stop];
    t.process_commands(&cmds, false);
    assert_eq!(t.play_mode, PlayMode::Stop);
    assert!(t.finished);
}

#[test]
fn orphaned_paused_track_is_finished() {
    let mut t = TrackState::new();
    t.apply_command(TrackCommand::Pause);
    t.process_commands(&Vec::new(), true);
    assert!(t.finished);

    let mut t = TrackState::new();
    t.process_commands(&Vec::new(), true);
    assert!(!t.finished, "a playing track outlives its handles");
}

#[test]
fn step_frame_advances_twenty_ms() {
    let mut t = TrackState::new();
    t.apply_command(TrackCommand::Seek(100));
    t.step_frame();
    assert_eq!(t.position_ms, 120);
    assert_eq!(t.play_time_ms, 20);
    assert!(!t.position_modified);
}

#[test]
fn loop_modes_count_down() {
    let mut t = TrackState::new();
    t.apply_command(TrackCommand::SetLoops(LoopMode::Finite(2)));
    assert!(t.on_source_exhausted());
    assert_eq!(t.loop_mode, LoopMode::Finite(1));
    assert!(t.on_source_exhausted());
    assert!(!t.on_source_exhausted());
    assert!(t.finished);

    let mut t = TrackState::new();
    t.apply_command(TrackCommand::SetLoops(LoopMode::Infinite));
    for _ in 0..3 {
        assert!(t.on_source_exhausted());
    }
    assert!(!t.finished);
}
