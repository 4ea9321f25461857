use bird_player::engine::AudioCommand;
use bird_player::library::{LibraryItem, LibraryPathId};
use bird_player::playlist::Playlist;

#[test]
fn create_playlist() {
    let playlist = Playlist::new();

    assert_eq!(playlist.name, None);
    assert_eq!(playlist.tracks.len(), 0);
    assert_eq!(playlist.selected, None);
}

#[test]
fn set_name() {
    let mut playlist = Playlist::new();
    playlist.set_name("Test".to_string());

    assert_eq!(playlist.name, playlist.get_name());
    assert_eq!(playlist.tracks.len(), 0);
    assert_eq!(playlist.selected, None);
}

#[test]
fn add_track_to_playlist() {
    let track = LibraryItem::new(String::from(r"C:\music\song.mp3"), LibraryPathId::new(0));

    let mut playlist = Playlist::new();
    playlist.add(track);

    assert_eq!(playlist.tracks.len(), 1);
}

#[test]
fn remove_track_from_playlist() {
    let path1 = String::from(r"C:\music\song1.mp3");
    let path2 = String::from(r"C:\music\song2.mp3");
    let path3 = String::from(r"C:\music\song3.mp3");

    let mut playlist = Playlist {
        id: None,
        name: Some("test".to_string()),
        tracks: vec![
            LibraryItem::new(path1.clone(), LibraryPathId::new(0)),
            LibraryItem::new(path2.clone(), LibraryPathId::new(1)),
            LibraryItem::new(path3.clone(), LibraryPathId::new(2)),
        ],
        selected: None,
        selected_indices: Vec::new(),
    };

    assert_eq!(playlist.tracks.len(), 3);

    playlist.remove(1);

    assert_eq!(playlist.tracks.len(), 2);
    assert_eq!(playlist.tracks.first().unwrap().path(), path1);
    assert_eq!(playlist.tracks.last().unwrap().path(), path3);
}

#[test]
fn reorder_track_in_playlist() {
    let path1 = String::from(r"C:\music\song1.mp3");
    let path2 = String::from(r"C:\music\song2.mp3");
    let path3 = String::from(r"C:\music\song3.mp3");

    let mut playlist = Playlist {
        id: None,
        name: Some("test".to_string()),
        tracks: vec![
            LibraryItem::new(path1.clone(), LibraryPathId::new(0)),
            LibraryItem::new(path2.clone(), LibraryPathId::new(1)),
            LibraryItem::new(path3.clone(), LibraryPathId::new(2)),
        ],
        selected: None,
        selected_indices: Vec::new(),
    };

    assert_eq!(playlist.tracks.len(), 3);

    playlist.reorder(0, 2);

    assert_eq!(playlist.tracks.len(), 3);
    assert_eq!(playlist.tracks[0].path(), path2);
    assert_eq!(playlist.tracks[1].path(), path3);
    assert_eq!(playlist.tracks[2].path(), path1);
}

#[test]
fn marks_follow_tracks_on_remove() {
    let mut playlist = Playlist::new();
    for n in 0..4 {
        playlist.add(LibraryItem::new(format!("song{}.mp3", n), LibraryPathId::new(n)));
    }
    playlist.toggle_selection(1);
    playlist.toggle_selection(3);
    playlist.remove(1);
    assert!(!playlist.is_selected(1));
    assert!(playlist.is_selected(2));
    assert!(!playlist.is_selected(3));
}

#[test]
fn marks_follow_tracks_on_reorder() {
    let mut playlist = Playlist::new();
    for n in 0..3 {
        playlist.add(LibraryItem::new(format!("song{}.mp3", n), LibraryPathId::new(n)));
    }
    playlist.toggle_selection(0);
    playlist.reorder(0, 2);
    assert!(!playlist.is_selected(0));
    assert!(!playlist.is_selected(1));
    assert!(playlist.is_selected(2));
}

#[test]
fn selection_toggle_and_clear() {
    let mut playlist = Playlist::new();
    for n in 0..3 {
        playlist.add(LibraryItem::new(format!("song{}.mp3", n), LibraryPathId::new(n)));
    }
    playlist.toggle_selection(2);
    assert!(playlist.is_selected(2));
    playlist.toggle_selection(2);
    assert!(!playlist.is_selected(2));
    playlist.select_all();
    assert!(playlist.is_selected(0));
    assert!(playlist.is_selected(1));
    assert!(playlist.is_selected(2));
    assert!(!playlist.is_selected(3));
    playlist.clear_selection();
    assert!(!playlist.is_selected(0));
}

#[test]
fn select_track_for_playback() {
    let mut playlist = Playlist::new();
    playlist.add(LibraryItem::new(String::from("a.mp3"), LibraryPathId::new(0)));
    playlist.add(LibraryItem::new(String::from("b.mp3"), LibraryPathId::new(1)));
    let cmd = playlist.select(1);
    assert!(matches!(cmd, AudioCommand::LoadFile(p) if p == "b.mp3"));
    assert_eq!(playlist.selected.as_ref().unwrap().path(), "b.mp3");
}

#[test]
fn get_pos_finds_first_equal_track() {
    let mut playlist = Playlist::new();
    let mut a = LibraryItem::new(String::from("a.mp3"), LibraryPathId::new(0));
    a.set_key(11);
    let mut b = LibraryItem::new(String::from("b.mp3"), LibraryPathId::new(0));
    b.set_key(22);
    playlist.add(a.clone());
    playlist.add(b.clone());
    assert_eq!(playlist.get_pos(&b), Some(1));
    let mut c = LibraryItem::new(String::from("c.mp3"), LibraryPathId::new(0));
    c.set_key(33);
    assert_eq!(playlist.get_pos(&c), None);
}
