use jalwa::engine::{
    choose_streams, decoder_step, video_step, ControlCommand, DecoderAction, DecoderCommand, DecoderInput, DecoderState,
    DisplayFrame, EngineConfig, EngineControl, EngineEvent, EngineStep, StreamKind, VideoAction, VideoInput, VideoState,
    VideoStreams, video_container, video_demuxer_for, VideoContainer,
};
use jalwa::errors::JalwaError;
use jalwa::media::ContainerFormat;
use jalwa::status::PlaybackState;
use std::time::Duration;

#[test]
fn engine_config_default() {
    let config = EngineConfig::default();
    assert_eq!(config.buffer_size, 4096);
    assert_eq!(config.sample_rate, 48000);
    assert_eq!(config.channels, 2);
}

#[test]
fn engine_new() {
    let engine = EngineControl::new();
    assert_eq!(engine.state, PlaybackState::Stopped);
    assert!(!engine.muted);
    assert_eq!(engine.position_ns, 0);
    assert!(engine.current_path.is_none());
}

#[test]
fn play_without_file() {
    let mut engine = EngineControl::new();
    match engine.play() {
        Err(JalwaError::Playback(msg)) => assert_eq!(msg, "no file loaded"),
        other => panic!("unexpected result {:?}", other),
    }
}

#[test]
fn mute_toggle() {
    let mut engine = EngineControl::new();
    assert!(!engine.muted);
    engine.toggle_mute();
    assert!(engine.muted);
    engine.toggle_mute();
    assert!(!engine.muted);
}

#[test]
fn pause_when_stopped() {
    let mut engine = EngineControl::new();
    assert_eq!(engine.pause(), EngineStep::Nothing);
    assert_eq!(engine.state, PlaybackState::Stopped);
}

#[test]
fn stop_when_stopped() {
    let mut engine = EngineControl::new();
    assert_eq!(engine.stop(), EngineStep::Nothing);
    assert_eq!(engine.state, PlaybackState::Stopped);
}

#[test]
fn toggle_without_file() {
    let mut engine = EngineControl::new();
    assert!(engine.toggle().is_err());
}

#[test]
fn duration_none_before_open() {
    let engine = EngineControl::new();
    assert!(engine.duration_ns.is_none());
}

#[test]
fn eq_defaults() {
    let engine = EngineControl::new();
    assert!(!engine.eq_enabled);
    assert!(!engine.normalize_enabled);
}

#[test]
fn toggle_eq() {
    let mut engine = EngineControl::new();
    engine.toggle_eq();
    assert!(engine.eq_enabled);
    engine.toggle_eq();
    assert!(!engine.eq_enabled);
}

#[test]
fn toggle_normalize() {
    let mut engine = EngineControl::new();
    engine.toggle_normalize();
    assert!(engine.normalize_enabled);
    engine.toggle_normalize();
    assert!(!engine.normalize_enabled);
}

#[test]
fn open_play_pause_resume_stop() {
    let mut engine = EngineControl::new();
    assert_eq!(engine.open("/music/a.flac".to_string(), Some(5_000_000_000)), EngineStep::Nothing);
    assert_eq!(engine.current_path.as_deref(), Some("/music/a.flac"));
    assert_eq!(engine.duration_ns, Some(5_000_000_000));
    assert_eq!(engine.play().unwrap(), EngineStep::StartDecoding);
    engine.decoding_started();
    assert_eq!(engine.state, PlaybackState::Playing);
    assert_eq!(engine.pause(), EngineStep::Send(ControlCommand::Pause));
    assert_eq!(engine.state, PlaybackState::Paused);
    assert_eq!(engine.toggle().unwrap(), EngineStep::Send(ControlCommand::Resume));
    assert_eq!(engine.state, PlaybackState::Playing);
    assert_eq!(engine.toggle_mute(), EngineStep::Send(ControlCommand::Mute(true)));
    assert_eq!(engine.toggle_normalize(), EngineStep::Send(ControlCommand::Normalize(true)));
    assert_eq!(engine.toggle_eq(), EngineStep::SendEqUpdate);
    assert_eq!(engine.stop(), EngineStep::Send(ControlCommand::Stop));
    assert_eq!(engine.state, PlaybackState::Stopped);
    assert!(!engine.decoding);
}

#[test]
fn seek_beyond_end_is_refused() {
    let mut engine = EngineControl::new();
    engine.open("/music/a.flac".to_string(), Some(1_000));
    match engine.seek(1_001) {
        Err(JalwaError::Playback(msg)) => assert_eq!(msg, "seek beyond end"),
        other => panic!("unexpected result {:?}", other),
    }
    assert_eq!(engine.seek(1_000).unwrap(), EngineStep::Nothing);
    assert_eq!(engine.position_ns, 1_000);
}

#[test]
fn events_update_state() {
    let mut engine = EngineControl::new();
    engine.on_event(&EngineEvent::StateChanged(PlaybackState::Playing));
    assert_eq!(engine.state, PlaybackState::Playing);
    engine.on_event(&EngineEvent::PositionUpdate(Duration::from_secs(3)));
    assert_eq!(engine.state, PlaybackState::Playing);
    engine.on_event(&EngineEvent::TrackFinished);
    assert_eq!(engine.state, PlaybackState::Stopped);
}

#[test]
fn engine_event_clone() {
    let ev = EngineEvent::TrackFinished;
    let cloned = ev.clone();
    assert!(matches!(cloned, EngineEvent::TrackFinished));
}

#[test]
fn display_frame_creation() {
    let frame = DisplayFrame { data: vec![255; 640 * 480 * 3], width: 640, height: 480, pts: Duration::from_millis(100) };
    assert_eq!(frame.data.len(), 640 * 480 * 3);
    assert_eq!(frame.width, 640);
    assert_eq!(frame.height, 480);
    assert_eq!(frame.pts, Duration::from_millis(100));
}

#[test]
fn display_frame_clone() {
    let frame = DisplayFrame { data: vec![128; 320 * 240 * 3], width: 320, height: 240, pts: Duration::from_millis(33) };
    let cloned = frame.clone();
    assert_eq!(cloned.width, frame.width);
    assert_eq!(cloned.height, frame.height);
    assert_eq!(cloned.pts, frame.pts);
    assert_eq!(cloned.data.len(), frame.data.len());
}

#[test]
fn display_frame_debug() {
    let frame = DisplayFrame { data: vec![0; 12], width: 2, height: 2, pts: Duration::ZERO };
    let debug = format!("{:?}", frame);
    assert!(debug.contains("DisplayFrame"));
}

#[test]
fn display_frame_zero_size() {
    let frame = DisplayFrame { data: Vec::new(), width: 0, height: 0, pts: Duration::ZERO };
    assert!(frame.data.is_empty());
}

#[test]
fn decoder_stop_flushes_reports_and_exits() {
    let mut st = DecoderState::new(false, false);
    let acts = decoder_step(&mut st, DecoderInput::Command(DecoderCommand::Stop), None);
    assert_eq!(acts.len(), 3);
    assert!(matches!(acts[0], DecoderAction::FlushAndClose));
    assert!(matches!(acts[1], DecoderAction::Report(EngineEvent::StateChanged(PlaybackState::Stopped))));
    assert!(matches!(acts[2], DecoderAction::Exit));
}

#[test]
fn decoder_pause_and_resume() {
    let mut st = DecoderState::new(false, false);
    let acts = decoder_step(&mut st, DecoderInput::Command(DecoderCommand::Pause), None);
    assert!(st.paused);
    assert!(matches!(acts[0], DecoderAction::Report(EngineEvent::StateChanged(PlaybackState::Paused))));
    assert!(matches!(acts[1], DecoderAction::MarkPaused));
    let acts = decoder_step(&mut st, DecoderInput::Command(DecoderCommand::Resume), None);
    assert!(!st.paused);
    assert!(matches!(acts[1], DecoderAction::DecodeNext));
}

#[test]
fn decoder_seek_resets_equalizer() {
    let mut st = DecoderState::new(false, false);
    let acts = decoder_step(&mut st, DecoderInput::Command(DecoderCommand::Seek(5)), None);
    assert!(matches!(acts[0], DecoderAction::SeekTo(5)));
    assert!(matches!(acts[1], DecoderAction::ResetEq));
    assert!(matches!(acts[2], DecoderAction::DecodeNext));
}

#[test]
fn decoder_near_end_sent_once() {
    let mut st = DecoderState::new(false, false);
    let dur = Some(10_000_000_000u128);
    assert!(decoder_step(&mut st, DecoderInput::Decoded { pos_ns: 7_000_000_000 }, dur).is_empty());
    let acts = decoder_step(&mut st, DecoderInput::Decoded { pos_ns: 8_500_000_000 }, dur);
    assert!(matches!(acts[0], DecoderAction::Report(EngineEvent::NearEnd)));
    assert!(st.near_end_sent);
    assert!(decoder_step(&mut st, DecoderInput::Decoded { pos_ns: 9_000_000_000 }, dur).is_empty());
    assert!(decoder_step(&mut DecoderState::new(false, false), DecoderInput::Decoded { pos_ns: 9_900_000_000 }, None).is_empty());
}

#[test]
fn decoder_gapless_switch_or_finish() {
    let mut st = DecoderState::new(false, false);
    let acts = decoder_step(&mut st, DecoderInput::Command(DecoderCommand::PrepareNext), None);
    assert!(matches!(acts[0], DecoderAction::OpenNext));
    decoder_step(&mut st, DecoderInput::NextOpened, None);
    st.near_end_sent = true;
    let acts = decoder_step(&mut st, DecoderInput::EndOfStream, None);
    assert!(matches!(acts[0], DecoderAction::SwitchToNext));
    assert!(matches!(acts[1], DecoderAction::ResetEq));
    assert!(matches!(acts[2], DecoderAction::Report(EngineEvent::TrackChanged)));
    assert!(!st.next_ready && !st.near_end_sent);
    let acts = decoder_step(&mut st, DecoderInput::EndOfStream, None);
    assert!(matches!(acts[1], DecoderAction::Report(EngineEvent::TrackFinished)));
    assert!(matches!(acts[2], DecoderAction::Exit));
}

#[test]
fn decoder_mute_normalize_and_errors() {
    let mut st = DecoderState::new(false, false);
    assert!(decoder_step(&mut st, DecoderInput::Command(DecoderCommand::Mute(true)), None).is_empty());
    assert!(decoder_step(&mut st, DecoderInput::Command(DecoderCommand::Normalize(true)), None).is_empty());
    assert!(st.muted && st.normalize);
    let acts = decoder_step(&mut st, DecoderInput::DecodeFailed("decode: bad".to_string()), None);
    assert!(matches!(&acts[0], DecoderAction::Report(EngineEvent::Error(m)) if m == "decode: bad"));
    assert!(matches!(acts[2], DecoderAction::Exit));
    let acts = decoder_step(&mut st, DecoderInput::OutputFailed("out".to_string()), None);
    assert!(matches!(acts[1], DecoderAction::Close));
}

#[test]
fn video_streams_chosen_first_of_each_kind() {
    let kinds = vec![StreamKind::Audio, StreamKind::Other, StreamKind::Video, StreamKind::Audio, StreamKind::Video];
    assert_eq!(choose_streams(&kinds), Some(VideoStreams { video: 2, audio: Some(0) }));
    assert_eq!(choose_streams(&vec![StreamKind::Video]), Some(VideoStreams { video: 0, audio: None }));
    assert_eq!(choose_streams(&vec![StreamKind::Audio]), None);
}

#[test]
fn video_packets_routed_and_end_drains() {
    let streams = VideoStreams { video: 1, audio: Some(0) };
    let mut st = VideoState { paused: false, muted: false };
    assert!(matches!(video_step(&mut st, streams, VideoInput::Packet { stream: 1 })[0], VideoAction::DecodeVideo));
    assert!(matches!(video_step(&mut st, streams, VideoInput::Packet { stream: 0 })[0], VideoAction::WriteAudio));
    assert!(video_step(&mut st, streams, VideoInput::Packet { stream: 2 }).is_empty());
    assert!(video_step(&mut st, streams, VideoInput::Command(DecoderCommand::EqUpdate)).is_empty());
    let acts = video_step(&mut st, streams, VideoInput::EndOfStream);
    assert_eq!(acts.len(), 4);
    assert!(matches!(acts[0], VideoAction::DrainVideo));
    assert!(matches!(acts[2], VideoAction::Report(EngineEvent::TrackFinished)));
}

#[test]
fn video_container_from_header() {
    let mp4 = b"\x00\x00\x00\x20ftypisom\x00\x00\x02\x00";
    assert_eq!(video_container(mp4), Ok(VideoContainer::Mp4));
    let mkv = b"\x1A\x45\xDF\xA3\x9f\x42\x86\x81\x01\x42\xf7\x81";
    assert_eq!(video_container(mkv), Ok(VideoContainer::Mkv));
    let wav = b"RIFF\x00\x00\x00\x00WAVE\x00\x00";
    assert_eq!(video_container(wav), Err("unsupported video container: Wav".to_string()));
    let junk = b"not a media file";
    assert_eq!(video_container(junk), Err("detect format: unsupported container format: unknown format".to_string()));
}

#[test]
fn video_demuxer_for_each_result() {
    assert_eq!(video_demuxer_for(Ok(ContainerFormat::Mkv)), Ok(VideoContainer::Mkv));
    assert_eq!(video_demuxer_for(Ok(ContainerFormat::WebM)), Err("unsupported video container: WebM".to_string()));
    assert_eq!(video_demuxer_for(Err("bad".to_string())), Err("detect format: bad".to_string()));
}
