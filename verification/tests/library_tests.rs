use bird_player::library::{
    display_name_from_path, Library, LibraryItem, LibraryItemContainer, LibraryPathId,
    LibraryPathStatus, LibraryView, Picture, ViewType,
};

#[test]
fn folder_display_names_come_from_the_last_component() {
    assert_eq!(display_name_from_path(&String::from("music/rock")), "rock");
    assert_eq!(display_name_from_path(&String::from(r"C:\music\pop")), "pop");
    assert_eq!(display_name_from_path(&String::from("flat")), "flat");
    assert_eq!(display_name_from_path(&String::from("music/")), "Unknown Folder");
    assert_eq!(display_name_from_path(&String::from("")), "Unknown Folder");
}

#[test]
fn adding_a_watched_folder_twice_is_refused() {
    let mut lib = Library::new();
    assert!(lib.add_path(String::from("music/rock")));
    assert!(lib.add_path(String::from("music/pop")));
    assert!(!lib.add_path(String::from("music/rock")));
    assert_eq!(lib.paths().len(), 2);
    assert_eq!(lib.paths()[0].status(), LibraryPathStatus::NotImported);
    assert_eq!(lib.paths()[0].display_name(), "rock");
}

#[test]
fn import_status_is_per_folder()
{
    let mut lib = Library::new();
    lib.add_path(String::from("a"));
    lib.add_path(String::from("b"));
    let id_a = lib.paths()[0].id();
    lib.set_path_to_imported(id_a);
    assert_eq!(lib.paths()[0].status(), LibraryPathStatus::Imported);
    assert_eq!(lib.paths()[1].status(), LibraryPathStatus::NotImported);
    lib.set_path_to_not_imported(id_a);
    assert_eq!(lib.paths()[0].status(), LibraryPathStatus::NotImported);
}

#[test]
fn removing_a_folder_removes_its_tracks_and_empty_groups() {
    let mut lib = Library::new();
    let keep = LibraryPathId::new(1);
    let gone = LibraryPathId::new(2);
    let kept_track = LibraryItem::new(String::from("a/keep.mp3"), keep);
    let gone_track = LibraryItem::new(String::from("b/gone.mp3"), gone);
    lib.add_item(kept_track.clone());
    lib.add_item(gone_track.clone());
    lib.add_view(LibraryView {
        view_type: ViewType::Album,
        containers: vec![
            LibraryItemContainer { name: String::from("Mixed"), items: vec![kept_track, gone_track.clone()] },
            LibraryItemContainer { name: String::from("Only gone"), items: vec![gone_track] },
        ],
    });

    lib.remove_path(gone);

    assert_eq!(lib.items().len(), 1);
    assert_eq!(lib.items()[0].path(), "a/keep.mp3");
    assert_eq!(lib.view().containers.len(), 1);
    assert_eq!(lib.view().containers[0].name, "Mixed");
    assert_eq!(lib.view().containers[0].items.len(), 1);
}

#[test]
fn adding_a_known_path_replaces_but_keeps_the_key() {
    let mut lib = Library::new();
    let id = LibraryPathId::new(1);
    let mut first = LibraryItem::new(String::from("a/song.mp3"), id);
    first.set_key(42);
    first.set_title(Some("Old"));
    lib.add_item(first);

    let mut second = LibraryItem::new(String::from("a/song.mp3"), id);
    second.set_key(99);
    second.set_title(Some("New"));
    lib.add_item(second);

    assert_eq!(lib.items().len(), 1);
    assert_eq!(lib.items()[0].key(), 42);
    assert_eq!(lib.items()[0].title(), Some(String::from("New")));

    let other = LibraryItem::new(String::from("b/other.mp3"), id);
    lib.add_item(other);
    assert_eq!(lib.items().len(), 2);
}

#[test]
fn track_metadata_setters_and_getters() {
    let mut item = LibraryItem::new(String::from("x.mp3"), LibraryPathId::new(5));
    assert_eq!(item.library_id(), LibraryPathId::new(5));
    assert_eq!(item.title(), None);

    item.set_title(Some("Title"));
    item.set_artist(Some("Artist"));
    item.set_album(Some("Album"));
    item.set_year(Some(2001));
    item.set_genre(Some("Genre"));
    item.set_track_number(Some(3));
    item.set_lyrics(Some("La la"));

    assert_eq!(item.title(), Some(String::from("Title")));
    assert_eq!(item.artist(), Some(String::from("Artist")));
    assert_eq!(item.album(), Some(String::from("Album")));
    assert_eq!(item.year(), Some(2001));
    assert_eq!(item.genre(), Some(String::from("Genre")));
    assert_eq!(item.track_number(), Some(3));
    assert_eq!(item.lyrics(), Some(String::from("La la")));

    // Setting nothing changes nothing.
    item.set_title(None);
    assert_eq!(item.title(), Some(String::from("Title")));

    // The setters hand back the updated track.
    let copy = item.set_genre(Some("Other"));
    assert_eq!(copy.genre(), Some(String::from("Other")));
    assert_eq!(item.genre(), Some(String::from("Other")));
    assert_eq!(copy, item);
}

#[test]
fn pictures_attach_and_clear() {
    let mut item = LibraryItem::new(String::from("x.mp3"), LibraryPathId::new(5));
    let pic = Picture::new(
        String::from("image/png"),
        3,
        String::from("front cover"),
        String::from("art/cover.png"),
    );
    item.add_picture(pic.clone());
    assert_eq!(item.pictures().len(), 1);
    assert_eq!(item.pictures()[0], pic);
    item.clear_pictures();
    assert_eq!(item.pictures().len(), 0);
}
