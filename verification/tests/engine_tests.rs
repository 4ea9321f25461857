use bird_player::engine::{AudioCommand, Engine, PlayerState, Session, SinkFormat, UiCommand};
use bird_player::loader::{
    first_supported_track, make_session, resolve_seek, select_track, track_duration,
    verification_code, SeekOutcome, TrackInfo,
};

fn loaded_engine() -> Engine {
    let mut e = Engine::new();
    e.apply_command(AudioCommand::LoadFile("track.mp3".to_string()));
    let sess = Session { track_id: 7, seek_ts: 0, duration: 180_000 };
    e.step_loaded(Some(sess));
    e
}

#[test]
fn stop_while_unstarted_is_a_noop() {
    let mut e = Engine::new();
    e.apply_command(AudioCommand::Stop);
    assert!(matches!(e.state, PlayerState::Unstarted));
    assert!(e.session.is_none());
    assert!(e.current_track_path.is_none());
}

#[test]
fn pause_toggles_back_to_playing() {
    let mut e = loaded_engine();
    assert!(matches!(e.state, PlayerState::Playing));
    e.apply_command(AudioCommand::Pause);
    assert!(matches!(e.state, PlayerState::Paused));
    e.apply_command(AudioCommand::Pause);
    assert!(matches!(e.state, PlayerState::Playing));
}

#[test]
fn play_without_a_session_stays_idle() {
    let mut e = Engine::new();
    e.apply_command(AudioCommand::Play);
    assert!(matches!(e.state, PlayerState::Unstarted));
}

#[test]
fn set_volume_and_select_track_number() {
    let mut e = Engine::new();
    e.apply_command(AudioCommand::SetVolume(400));
    assert_eq!(e.volume, 400);
    e.apply_command(AudioCommand::Select(3));
    assert_eq!(e.track_num, Some(3));
}

#[test]
fn load_then_play_opens_one_sink_with_the_first_format() {
    let mut e = loaded_engine();
    e.apply_command(AudioCommand::Play);
    assert!(e.sink.is_none());
    let fmt = SinkFormat { channels: 2, rate: 44100 };
    let rendered = e.on_decoded(fmt, 0);
    assert!(rendered);
    assert_eq!(e.sink, Some(fmt));
    assert_eq!(e.sinks_opened, 1);
    // A later buffer, even of another format, reuses the open sink.
    let other = SinkFormat { channels: 2, rate: 48000 };
    e.on_decoded(other, 10);
    assert_eq!(e.sink, Some(fmt));
    assert_eq!(e.sinks_opened, 1);
}

#[test]
fn load_failure_leaves_the_engine_idle() {
    let mut e = Engine::new();
    e.apply_command(AudioCommand::LoadFile("broken.bin".to_string()));
    let out = e.step_loaded(None);
    assert!(out.is_empty());
    assert!(matches!(e.state, PlayerState::Unstarted));
    assert!(e.session.is_none());
}

#[test]
fn seek_trims_packets_before_the_achieved_offset() {
    let mut e = loaded_engine();
    e.apply_command(AudioCommand::Seek(5000));
    assert!(matches!(e.state, PlayerState::SeekTo(5000)));
    let sess = Session { track_id: 7, seek_ts: 4800, duration: 180_000 };
    let out = e.step_seek(Some(sess));
    assert_eq!(out, vec![UiCommand::PlaybackStateChanged(true)]);
    assert!(matches!(e.state, PlayerState::Playing));
    let fmt = SinkFormat { channels: 2, rate: 44100 };
    assert!(!e.on_decoded(fmt, 4700));
    assert!(e.on_decoded(fmt, 4800));
    assert!(e.on_decoded(fmt, 9000));
}

#[test]
fn end_to_end_playback_walk() {
    let mut e = Engine::new();
    e.apply_command(AudioCommand::LoadFile("track.mp3".to_string()));
    assert!(matches!(e.state, PlayerState::LoadFile(_)));
    let sess = Session { track_id: 7, seek_ts: 0, duration: 180_000 };
    let out = e.step_loaded(Some(sess));
    assert_eq!(out, vec![UiCommand::TotalTrackDuration(180_000)]);
    assert!(matches!(e.state, PlayerState::Playing));

    // First packet decodes and renders; no position report yet.
    let (decode, ev) = e.on_packet(7, 0, 0);
    assert!(decode);
    assert!(ev.is_none());
    let fmt = SinkFormat { channels: 2, rate: 44100 };
    assert!(e.on_decoded(fmt, 0));
    assert_eq!(e.sinks_opened, 1);

    // A packet of another track is skipped.
    let (decode, ev) = e.on_packet(9, 50, 0);
    assert!(!decode);
    assert!(ev.is_none());

    // After a second of playback the position is reported once.
    let (decode, ev) = e.on_packet(7, 1500, 1001);
    assert!(decode);
    assert_eq!(ev, Some(UiCommand::CurrentTimestamp(1500)));
    assert_eq!(e.last_ts, 1500);
    // ... and not again for a nearby timestamp.
    let (_, ev) = e.on_packet(7, 1600, 1001);
    assert!(ev.is_none());

    // The stream ends: exactly one finished notice, engine stopped.
    let fin = e.on_end_of_stream();
    assert_eq!(fin, UiCommand::AudioFinished);
    assert!(matches!(e.state, PlayerState::Stopped));

    // Stopped settles into Unstarted with a fresh session at offset zero.
    let out = e.step_stopped(Some(Session { track_id: 7, seek_ts: 0, duration: 180_000 }));
    assert_eq!(out, vec![UiCommand::CurrentTimestamp(0)]);
    assert!(matches!(e.state, PlayerState::Unstarted));
    assert!(e.sink.is_none());
}

#[test]
fn first_supported_track_skips_null_codecs() {
    let tracks = vec![
        TrackInfo { id: 1, codec: 0, start_ts: 0, n_frames: None },
        TrackInfo { id: 2, codec: 0x1001, start_ts: 0, n_frames: Some(10) },
    ];
    assert_eq!(first_supported_track(&tracks), Some(1));
    let none = vec![TrackInfo { id: 1, codec: 0, start_ts: 0, n_frames: None }];
    assert_eq!(first_supported_track(&none), None);
    assert_eq!(first_supported_track(&Vec::new()), None);
}

#[test]
fn select_track_prefers_the_explicit_index() {
    let tracks = vec![
        TrackInfo { id: 1, codec: 0, start_ts: 0, n_frames: None },
        TrackInfo { id: 2, codec: 0x1001, start_ts: 0, n_frames: None },
    ];
    assert_eq!(select_track(Some(0), &tracks), Some(0));
    assert_eq!(select_track(Some(5), &tracks), Some(1));
    assert_eq!(select_track(None, &tracks), Some(1));
}

#[test]
fn seek_resolution_keeps_or_resets_the_track() {
    let tracks = vec![
        TrackInfo { id: 1, codec: 0, start_ts: 0, n_frames: None },
        TrackInfo { id: 2, codec: 0x1001, start_ts: 0, n_frames: None },
    ];
    assert_eq!(resolve_seek(SeekOutcome::SeekedTo(4800), 2, &tracks), (2, 4800));
    // A reset falls back to the first supported track at offset zero.
    assert_eq!(resolve_seek(SeekOutcome::ResetRequired, 2, &tracks), (2, 0));
    assert_eq!(resolve_seek(SeekOutcome::Failed, 2, &tracks), (2, 0));
}

#[test]
fn duration_is_frames_plus_start_or_zero() {
    let known = TrackInfo { id: 1, codec: 1, start_ts: 100, n_frames: Some(400) };
    assert_eq!(track_duration(&known), 500);
    let unknown = TrackInfo { id: 1, codec: 1, start_ts: 100, n_frames: None };
    assert_eq!(track_duration(&unknown), 0);
    let s = make_session(&known, 1, 250);
    assert_eq!(s.track_id, 1);
    assert_eq!(s.seek_ts, 250);
    assert_eq!(s.duration, 500);
}

#[test]
fn verification_codes() {
    assert_eq!(verification_code(Some(true)), 0);
    assert_eq!(verification_code(Some(false)), 1);
    assert_eq!(verification_code(None), 0);
}
