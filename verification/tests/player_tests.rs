use bird_player::engine::AudioCommand;
use bird_player::library::{LibraryItem, LibraryPathId};
use bird_player::player::{restore_player_state, PlaybackMode, Player, TrackState};
use bird_player::playlist::Playlist;

fn three_track_playlist() -> Playlist {
    let mut playlist = Playlist::new();
    for n in 0..3 {
        let mut t = LibraryItem::new(format!("song{}.mp3", n), LibraryPathId::new(n));
        t.set_key(n);
        playlist.add(t);
    }
    playlist
}

fn player_on(playlist: &Playlist, pos: usize) -> Player {
    let mut player = Player::new();
    player.select_track(Some(playlist.tracks[pos].clone()));
    player.play();
    player
}

#[test]
fn stop_without_playback_is_a_noop() {
    let mut player = Player::new();
    assert_eq!(player.stop(), None);
    assert_eq!(player.track_state, TrackState::Unstarted);
}

#[test]
fn pause_is_a_toggle() {
    let playlist = three_track_playlist();
    let mut player = player_on(&playlist, 0);
    assert_eq!(player.track_state, TrackState::Playing);
    assert_eq!(player.pause(), Some(AudioCommand::Pause));
    assert_eq!(player.track_state, TrackState::Paused);
    assert_eq!(player.pause(), Some(AudioCommand::Play));
    assert_eq!(player.track_state, TrackState::Playing);
}

#[test]
fn play_needs_a_selected_track() {
    let mut player = Player::new();
    assert_eq!(player.play(), None);
    assert_eq!(player.track_state, TrackState::Unstarted);
}

#[test]
fn stop_while_playing_sends_stop() {
    let playlist = three_track_playlist();
    let mut player = player_on(&playlist, 0);
    assert_eq!(player.stop(), Some(AudioCommand::Stop));
    assert!(player.is_stopped());
}

#[test]
fn playback_modes_cycle() {
    let mut player = Player::new();
    assert_eq!(player.playback_mode, PlaybackMode::Normal);
    player.toggle_playback_mode();
    assert_eq!(player.playback_mode, PlaybackMode::Repeat);
    player.toggle_playback_mode();
    assert_eq!(player.playback_mode, PlaybackMode::RepeatOne);
    player.toggle_playback_mode();
    assert_eq!(player.playback_mode, PlaybackMode::Shuffle);
    player.toggle_playback_mode();
    assert_eq!(player.playback_mode, PlaybackMode::Normal);
}

#[test]
fn next_in_normal_mode_steps_forward_and_stops_at_the_end() {
    let playlist = three_track_playlist();
    let mut player = player_on(&playlist, 1);
    let cmds = player.next(&playlist);
    assert_eq!(cmds.len(), 2);
    assert!(matches!(&cmds[0], AudioCommand::LoadFile(p) if p == "song2.mp3"));
    assert!(matches!(cmds[1], AudioCommand::Play));
    // From the last track, normal mode goes nowhere.
    let cmds = player.next(&playlist);
    assert!(cmds.is_empty());
}

#[test]
fn next_in_repeat_mode_wraps_around() {
    let playlist = three_track_playlist();
    let mut player = player_on(&playlist, 2);
    player.toggle_playback_mode(); // Repeat
    let cmds = player.next(&playlist);
    assert_eq!(cmds.len(), 2);
    assert!(matches!(&cmds[0], AudioCommand::LoadFile(p) if p == "song0.mp3"));
}

#[test]
fn next_in_repeat_one_mode_restarts_the_track() {
    let playlist = three_track_playlist();
    let mut player = player_on(&playlist, 1);
    player.toggle_playback_mode();
    player.toggle_playback_mode(); // RepeatOne
    let cmds = player.next(&playlist);
    assert_eq!(cmds, vec![AudioCommand::Seek(0), AudioCommand::Play]);
    assert_eq!(player.seek_to_timestamp, 0);
    assert_eq!(
        player.selected_track.as_ref().unwrap().path(),
        "song1.mp3"
    );
}

#[test]
fn next_in_shuffle_mode_picks_another_track() {
    let playlist = three_track_playlist();
    for _ in 0..20 {
        let mut player = player_on(&playlist, 1);
        player.toggle_playback_mode();
        player.toggle_playback_mode();
        player.toggle_playback_mode(); // Shuffle
        let cmds = player.next(&playlist);
        assert_eq!(cmds.len(), 2);
        let picked = player.selected_track.as_ref().unwrap().path();
        assert!(picked == "song0.mp3" || picked == "song2.mp3");
    }
}

#[test]
fn previous_steps_back_only_when_possible() {
    let playlist = three_track_playlist();
    let mut player = player_on(&playlist, 1);
    let cmds = player.previous(&playlist);
    assert_eq!(cmds.len(), 2);
    assert!(matches!(&cmds[0], AudioCommand::LoadFile(p) if p == "song0.mp3"));
    // Now at the first track: nowhere further back.
    let cmds = player.previous(&playlist);
    assert!(cmds.is_empty());
}

#[test]
fn seek_and_volume_forward_to_the_engine() {
    let mut player = Player::new();
    assert_eq!(player.seek_to(2500), AudioCommand::Seek(2500));
    assert_eq!(player.seek_to_timestamp, 2500);
    assert_eq!(player.set_volume(700), AudioCommand::SetVolume(700));
    assert_eq!(player.volume, 700);
    player.set_seek_to_timestamp(9);
    assert_eq!(player.seek_to_timestamp, 9);
    player.set_duration(333);
    assert_eq!(player.duration, 333);
}

#[test]
fn restore_picks_up_where_playback_left_off() {
    let playlist = three_track_playlist();
    let mut player = Player::new();
    let cmds = restore_player_state(
        &mut player,
        &playlist,
        Some(String::from("song1.mp3")),
        Some(42_000),
        Some(PlaybackMode::Repeat),
        Some(650),
        Some(true),
    );
    assert_eq!(player.volume, 650);
    assert_eq!(player.playback_mode, PlaybackMode::Repeat);
    assert_eq!(player.seek_to_timestamp, 42_000);
    assert_eq!(player.track_state, TrackState::Playing);
    assert_eq!(player.selected_track.as_ref().unwrap().path(), "song1.mp3");
    assert_eq!(cmds.len(), 4);
    assert!(matches!(cmds[0], AudioCommand::SetVolume(650)));
    assert!(matches!(&cmds[1], AudioCommand::LoadFile(p) if p == "song1.mp3"));
    assert!(matches!(cmds[2], AudioCommand::Seek(42_000)));
    assert!(matches!(cmds[3], AudioCommand::Play));
}

#[test]
fn restore_with_an_unknown_track_only_sets_the_volume() {
    let playlist = three_track_playlist();
    let mut player = Player::new();
    let cmds = restore_player_state(
        &mut player,
        &playlist,
        Some(String::from("missing.mp3")),
        Some(42_000),
        None,
        Some(650),
        Some(true),
    );
    assert_eq!(cmds.len(), 1);
    assert!(matches!(cmds[0], AudioCommand::SetVolume(650)));
    assert_eq!(player.selected_track, None);
    assert_eq!(player.track_state, TrackState::Unstarted);
    assert_eq!(player.seek_to_timestamp, 0);
}

#[test]
fn track_state_labels() {
    assert_eq!(TrackState::Unstarted.label(), "Unstarted");
    assert_eq!(TrackState::Stopped.label(), "Stopped");
    assert_eq!(TrackState::Playing.label(), "Playing");
    assert_eq!(TrackState::Paused.label(), "Paused");
}
