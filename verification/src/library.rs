//! The music library: folders under watch, the tracks found in them, and the
//! album view built from the tracks.
//!
//! Tracks and folders carry string metadata, so every type here has a view —
//! a ghost image over character sequences — and the contracts speak in those
//! views.  Identifiers are drawn at random; nothing is assumed of their
//! values.

use vstd::prelude::*;
use vstd::seq_lib::*;

verus! {

/// Relies on rand::Rng::gen over rand::thread_rng: a fresh random
/// identifier.  Nothing is assumed of the value.
#[verifier::external_body]
fn random_usize() -> usize {
    rand::Rng::gen(&mut rand::thread_rng())
}

/// Is this character a path separator?
pub open spec fn is_separator(c: char) -> bool {
    c == '/' || c == '\\'
}

/// The characters after the last path separator: the file name.
pub open spec fn file_name_of(s: Seq<char>) -> Seq<char>
    decreases s.len(),
{
    if s.len() == 0 {
        s
    } else if is_separator(s[s.len() - 1]) {
        Seq::empty()
    } else {
        file_name_of(s.drop_last()).push(s[s.len() - 1])
    }
}

/// With no separator at or after `cut`, and a separator (or nothing) just
/// before it, the file name is exactly the tail from `cut`.
proof fn lemma_file_name_is_tail(s: Seq<char>, cut: int)
    requires
        0 <= cut <= s.len(),
        forall|j: int| cut <= j < s.len() ==> !is_separator(#[trigger] s[j]),
        cut == 0 || is_separator(s[cut - 1]),
    ensures
        file_name_of(s) == s.subrange(cut, s.len() as int),
    decreases s.len(),
{
    if cut == s.len() {
        if s.len() == 0 {
            assert(file_name_of(s) =~= s.subrange(cut, s.len() as int));
        } else {
            assert(file_name_of(s) =~= s.subrange(cut, s.len() as int));
        }
    } else {
        lemma_file_name_is_tail(s.drop_last(), cut);
        assert(s.drop_last().subrange(cut, s.len() - 1) =~= s.subrange(cut, s.len() - 1));
        assert(file_name_of(s) =~= s.subrange(cut, s.len() as int));
    }
}

/// The name a folder is shown under: its file name, or a placeholder when
/// the path yields none.
pub open spec fn display_name_of(path: Seq<char>) -> Seq<char> {
    if file_name_of(path).len() == 0 {
        "Unknown Folder"@
    } else {
        file_name_of(path)
    }
}

/// Extract the folder display name from a path.
pub fn display_name_from_path(path: &String) -> (r: String)
    ensures
        r@ == display_name_of(path@),
{
    let s = path.as_str();
    let len = s.unicode_len();
    let mut cut: usize = len;
    while cut > 0
        invariant
            cut <= len,
            len == s@.len(),
            forall|j: int| cut <= j < len ==> !is_separator(#[trigger] s@[j]),
        ensures
            cut <= len,
            len == s@.len(),
            forall|j: int| cut <= j < len ==> !is_separator(#[trigger] s@[j]),
            cut == 0 || is_separator(s@[cut - 1]),
        decreases cut,
    {
        let c = s.get_char(cut - 1);
        if c == '/' || c == '\\' {
            break ;
        }
        cut = cut - 1;
    }
    proof {
        lemma_file_name_is_tail(s@, cut as int);
    }
    let name = s.substring_char(cut, len);
    if name.unicode_len() == 0 {
        String::from_str("Unknown Folder")
    } else {
        name.to_owned()
    }
}

/// Whether a watched folder's contents have been imported yet.
#[derive(Clone, Copy, PartialEq, Eq, Structural, Debug)]
pub enum LibraryPathStatus {
    NotImported,
    Imported,
}

/// The identifier of a watched folder.
#[derive(Clone, Copy, PartialEq, Eq, Structural, Debug, Hash)]
pub struct LibraryPathId(pub usize);

impl LibraryPathId {
    pub fn new(id: usize) -> (r: LibraryPathId)
        ensures
            r.0 == id,
    {
        LibraryPathId(id)
    }
}

/// The ghost image of a watched folder.
pub struct LibraryPathV {
    pub id: int,
    pub path: Seq<char>,
    pub status: LibraryPathStatus,
    pub display_name: Seq<char>,
}

/// A folder the library watches.
#[derive(Debug)]
pub struct LibraryPath {
    pub id: LibraryPathId,
    pub path: String,
    pub status: LibraryPathStatus,
    pub display_name: String,
}

impl View for LibraryPath {
    type V = LibraryPathV;

    open spec fn view(&self) -> LibraryPathV {
        LibraryPathV {
            id: self.id.0 as int,
            path: self.path@,
            status: self.status,
            display_name: self.display_name@,
        }
    }
}

impl LibraryPath {
    /// A freshly watched folder: not imported yet, under a random
    /// identifier, shown by its file name.
    pub fn new(path: String) -> (r: LibraryPath)
        ensures
            r.path@ == path@,
            r.status == LibraryPathStatus::NotImported,
            r.display_name@ == display_name_of(path@),
    {
        let display_name = display_name_from_path(&path);
        LibraryPath {
            path,
            status: LibraryPathStatus::NotImported,
            id: LibraryPathId::new(random_usize()),
            display_name,
        }
    }

    pub fn id(&self) -> (r: LibraryPathId)
        ensures
            r == self.id,
    {
        self.id
    }

    pub fn path(&self) -> (r: &String)
        ensures
            r == &self.path,
    {
        &self.path
    }

    pub fn status(&self) -> (r: LibraryPathStatus)
        ensures
            r == self.status,
    {
        self.status
    }

    pub fn set_status(&mut self, status: LibraryPathStatus)
        ensures
            *final(self) == (LibraryPath { status, ..*old(self) }),
    {
        self.status = status;
    }

    pub fn display_name(&self) -> (r: &str)
        ensures
            r@ == self.display_name@,
    {
        self.display_name.as_str()
    }
}

/// The ghost image of a piece of attached artwork.
pub struct PictureV {
    pub mime_type: Seq<char>,
    pub picture_type: u8,
    pub description: Seq<char>,
    pub file_path: Seq<char>,
}

/// A piece of artwork attached to a track.
#[derive(Debug)]
pub struct Picture {
    pub mime_type: String,
    pub picture_type: u8,
    pub description: String,
    pub file_path: String,
}

impl View for Picture {
    type V = PictureV;

    open spec fn view(&self) -> PictureV {
        PictureV {
            mime_type: self.mime_type@,
            picture_type: self.picture_type,
            description: self.description@,
            file_path: self.file_path@,
        }
    }
}

impl Picture {
    pub fn new(mime_type: String, picture_type: u8, description: String, file_path: String) -> (r:
        Picture)
        ensures
            r.mime_type@ == mime_type@,
            r.picture_type == picture_type,
            r.description@ == description@,
            r.file_path@ == file_path@,
    {
        Picture { mime_type, picture_type, description, file_path }
    }
}

impl Clone for Picture {
    fn clone(&self) -> (r: Picture)
        ensures
            r@ == self@,
    {
        Picture {
            mime_type: self.mime_type.clone(),
            picture_type: self.picture_type,
            description: self.description.clone(),
            file_path: self.file_path.clone(),
        }
    }
}

impl PartialEq for Picture {
    fn eq(&self, other: &Picture) -> (r: bool) {
        self.mime_type == other.mime_type && self.picture_type == other.picture_type
            && self.description == other.description && self.file_path == other.file_path
    }
}

impl vstd::std_specs::cmp::PartialEqSpecImpl for Picture {
    open spec fn obeys_eq_spec() -> bool {
        true
    }

    open spec fn eq_spec(&self, other: &Picture) -> bool {
        self@ == other@
    }
}

/// The view of an optional string.
pub open spec fn opt_str_view(s: Option<String>) -> Option<Seq<char>> {
    match s {
        Some(x) => Some(x@),
        None => None,
    }
}

/// Clone an optional string, view for view.
fn clone_opt_string(s: &Option<String>) -> (r: Option<String>)
    ensures
        opt_str_view(r) == opt_str_view(*s),
{
    match s {
        Some(x) => Some(x.clone()),
        None => None,
    }
}

/// Compare two optional strings by their views.
fn opt_str_eq(a: &Option<String>, b: &Option<String>) -> (r: bool)
    ensures
        r == (opt_str_view(*a) == opt_str_view(*b)),
{
    match (a, b) {
        (Some(x), Some(y)) => *x == *y,
        (None, None) => true,
        _ => false,
    }
}

/// The view of a list of pictures.
pub open spec fn pictures_view(v: Seq<Picture>) -> Seq<PictureV> {
    v.map_values(|p: Picture| p@)
}

/// Clone a list of pictures, view for view.
fn clone_pictures(v: &Vec<Picture>) -> (r: Vec<Picture>)
    ensures
        pictures_view(r@) == pictures_view(v@),
{
    let mut out: Vec<Picture> = Vec::new();
    let mut i: usize = 0;
    while i < v.len()
        invariant
            i <= v@.len(),
            out@.len() == i,
            forall|j: int| 0 <= j < i ==> #[trigger] out@[j]@ == v@[j]@,
        decreases v@.len() - i,
    {
        out.push(v[i].clone());
        i = i + 1;
    }
    proof {
        assert(pictures_view(out@) =~= pictures_view(v@));
    }
    out
}

/// Compare two lists of pictures by their views.
fn pictures_eq(a: &Vec<Picture>, b: &Vec<Picture>) -> (r: bool)
    ensures
        r == (pictures_view(a@) == pictures_view(b@)),
{
    if a.len() != b.len() {
        proof {
            assert(pictures_view(a@).len() != pictures_view(b@).len());
        }
        return false;
    }
    let mut i: usize = 0;
    while i < a.len()
        invariant
            i <= a@.len(),
            a@.len() == b@.len(),
            forall|j: int| 0 <= j < i ==> #[trigger] a@[j]@ == b@[j]@,
        decreases a@.len() - i,
    {
        if !(a[i] == b[i]) {
            proof {
                assert(pictures_view(a@)[i as int] != pictures_view(b@)[i as int]);
            }
            return false;
        }
        i = i + 1;
    }
    proof {
        assert(pictures_view(a@) =~= pictures_view(b@));
    }
    true
}

/// The ghost image of a track.
pub struct LibraryItemV {
    pub library_id: int,
    pub path: Seq<char>,
    pub title: Option<Seq<char>>,
    pub artist: Option<Seq<char>>,
    pub album: Option<Seq<char>>,
    pub year: Option<i32>,
    pub genre: Option<Seq<char>>,
    pub track_number: Option<u32>,
    pub key: int,
    pub pictures: Seq<PictureV>,
    pub lyrics: Option<Seq<char>>,
}

/// One track of the library: where it lives, its tag metadata, its artwork,
/// and the key it is stored under.
#[derive(Debug)]
pub struct LibraryItem {
    pub library_id: LibraryPathId,
    pub path: String,
    pub title: Option<String>,
    pub artist: Option<String>,
    pub album: Option<String>,
    pub year: Option<i32>,
    pub genre: Option<String>,
    pub track_number: Option<u32>,
    pub key: usize,
    pub pictures: Vec<Picture>,
    pub lyrics: Option<String>,
}

impl View for LibraryItem {
    type V = LibraryItemV;

    open spec fn view(&self) -> LibraryItemV {
        LibraryItemV {
            library_id: self.library_id.0 as int,
            path: self.path@,
            title: opt_str_view(self.title),
            artist: opt_str_view(self.artist),
            album: opt_str_view(self.album),
            year: self.year,
            genre: opt_str_view(self.genre),
            track_number: self.track_number,
            key: self.key as int,
            pictures: pictures_view(self.pictures@),
            lyrics: opt_str_view(self.lyrics),
        }
    }
}

impl LibraryItem {
    /// A fresh track at a path, filed under the folder it came from, with no
    /// metadata yet and a random key.
    pub fn new(path: String, library_id: LibraryPathId) -> (r: LibraryItem)
        ensures
            r.library_id == library_id,
            r.path@ == path@,
            r.title is None,
            r.artist is None,
            r.album is None,
            r.year is None,
            r.genre is None,
            r.track_number is None,
            r.pictures@.len() == 0,
            r.lyrics is None,
    {
        LibraryItem {
            library_id,
            path,
            title: None,
            artist: None,
            album: None,
            year: None,
            genre: None,
            track_number: None,
            key: random_usize(),
            pictures: Vec::new(),
            lyrics: None,
        }
    }

    pub fn library_id(&self) -> (r: LibraryPathId)
        ensures
            r == self.library_id,
    {
        self.library_id
    }

    pub fn path(&self) -> (r: String)
        ensures
            r@ == self.path@,
    {
        self.path.clone()
    }

    pub fn key(&self) -> (r: usize)
        ensures
            r == self.key,
    {
        self.key
    }

    pub fn set_key(&mut self, key: usize)
        ensures
            *final(self) == (LibraryItem { key, ..*old(self) }),
    {
        self.key = key;
    }

    /// Set the title when one is given; a missing title changes nothing.
    /// Returns the updated track, as every setter does.
    pub fn set_title(&mut self, title: Option<&str>) -> (r: LibraryItem)
        ensures
            opt_str_view(final(self).title) == (match title {
                Some(t) => Some(t@),
                None => opt_str_view(old(self).title),
            }),
            *final(self) == (LibraryItem { title: final(self).title, ..*old(self) }),
            r@ == final(self)@,
    {
        if let Some(t) = title {
            self.title = Some(t.to_owned());
        }
        self.clone()
    }

    pub fn title(&self) -> (r: Option<String>)
        ensures
            opt_str_view(r) == opt_str_view(self.title),
    {
        clone_opt_string(&self.title)
    }

    /// Set the artist when one is given; a missing artist changes nothing.
    pub fn set_artist(&mut self, artist: Option<&str>) -> (r: LibraryItem)
        ensures
            opt_str_view(final(self).artist) == (match artist {
                Some(t) => Some(t@),
                None => opt_str_view(old(self).artist),
            }),
            *final(self) == (LibraryItem { artist: final(self).artist, ..*old(self) }),
            r@ == final(self)@,
    {
        if let Some(t) = artist {
            self.artist = Some(t.to_owned());
        }
        self.clone()
    }

    pub fn artist(&self) -> (r: Option<String>)
        ensures
            opt_str_view(r) == opt_str_view(self.artist),
    {
        clone_opt_string(&self.artist)
    }

    /// Set the album when one is given; a missing album changes nothing.
    pub fn set_album(&mut self, album: Option<&str>) -> (r: LibraryItem)
        ensures
            opt_str_view(final(self).album) == (match album {
                Some(t) => Some(t@),
                None => opt_str_view(old(self).album),
            }),
            *final(self) == (LibraryItem { album: final(self).album, ..*old(self) }),
            r@ == final(self)@,
    {
        if let Some(t) = album {
            self.album = Some(t.to_owned());
        }
        self.clone()
    }

    pub fn album(&self) -> (r: Option<String>)
        ensures
            opt_str_view(r) == opt_str_view(self.album),
    {
        clone_opt_string(&self.album)
    }

    /// Set or clear the year.
    pub fn set_year(&mut self, year: Option<i32>) -> (r: LibraryItem)
        ensures
            *final(self) == (LibraryItem { year, ..*old(self) }),
            r@ == final(self)@,
    {
        self.year = year;
        self.clone()
    }

    pub fn year(&self) -> (r: Option<i32>)
        ensures
            r == self.year,
    {
        self.year
    }

    /// Set the genre when one is given; a missing genre changes nothing.
    pub fn set_genre(&mut self, genre: Option<&str>) -> (r: LibraryItem)
        ensures
            opt_str_view(final(self).genre) == (match genre {
                Some(t) => Some(t@),
                None => opt_str_view(old(self).genre),
            }),
            *final(self) == (LibraryItem { genre: final(self).genre, ..*old(self) }),
            r@ == final(self)@,
    {
        if let Some(t) = genre {
            self.genre = Some(t.to_owned());
        }
        self.clone()
    }

    pub fn genre(&self) -> (r: Option<String>)
        ensures
            opt_str_view(r) == opt_str_view(self.genre),
    {
        clone_opt_string(&self.genre)
    }

    /// Set or clear the track number.
    pub fn set_track_number(&mut self, track_number: Option<u32>) -> (r: LibraryItem)
        ensures
            *final(self) == (LibraryItem { track_number, ..*old(self) }),
            r@ == final(self)@,
    {
        self.track_number = track_number;
        self.clone()
    }

    pub fn track_number(&self) -> (r: Option<u32>)
        ensures
            r == self.track_number,
    {
        self.track_number
    }

    pub fn pictures(&self) -> (r: &Vec<Picture>)
        ensures
            r == &self.pictures,
    {
        &self.pictures
    }

    pub fn add_picture(&mut self, picture: Picture)
        ensures
            final(self).pictures@ == old(self).pictures@.push(picture),
            *final(self) == (LibraryItem { pictures: final(self).pictures, ..*old(self) }),
    {
        self.pictures.push(picture);
    }

    pub fn clear_pictures(&mut self)
        ensures
            final(self).pictures@.len() == 0,
            *final(self) == (LibraryItem { pictures: final(self).pictures, ..*old(self) }),
    {
        self.pictures.clear();
    }

    /// Set the lyrics when some are given; missing lyrics change nothing.
    pub fn set_lyrics(&mut self, lyrics: Option<&str>) -> (r: LibraryItem)
        ensures
            opt_str_view(final(self).lyrics) == (match lyrics {
                Some(t) => Some(t@),
                None => opt_str_view(old(self).lyrics),
            }),
            *final(self) == (LibraryItem { lyrics: final(self).lyrics, ..*old(self) }),
            r@ == final(self)@,
    {
        if let Some(t) = lyrics {
            self.lyrics = Some(t.to_owned());
        }
        self.clone()
    }

    pub fn lyrics(&self) -> (r: Option<String>)
        ensures
            opt_str_view(r) == opt_str_view(self.lyrics),
    {
        clone_opt_string(&self.lyrics)
    }
}

impl Clone for LibraryItem {
    fn clone(&self) -> (r: LibraryItem)
        ensures
            r@ == self@,
    {
        LibraryItem {
            library_id: self.library_id,
            path: self.path.clone(),
            title: clone_opt_string(&self.title),
            artist: clone_opt_string(&self.artist),
            album: clone_opt_string(&self.album),
            year: self.year,
            genre: clone_opt_string(&self.genre),
            track_number: self.track_number,
            key: self.key,
            pictures: clone_pictures(&self.pictures),
            lyrics: clone_opt_string(&self.lyrics),
        }
    }
}

impl PartialEq for LibraryItem {
    fn eq(&self, other: &LibraryItem) -> (r: bool) {
        self.library_id.0 == other.library_id.0 && self.path == other.path && opt_str_eq(
            &self.title,
            &other.title,
        ) && opt_str_eq(&self.artist, &other.artist) && opt_str_eq(&self.album, &other.album)
            && opt_i32_eq(self.year, other.year) && opt_str_eq(&self.genre, &other.genre)
            && opt_u32_eq(self.track_number, other.track_number) && self.key == other.key
            && pictures_eq(&self.pictures, &other.pictures) && opt_str_eq(
            &self.lyrics,
            &other.lyrics,
        )
    }
}

impl vstd::std_specs::cmp::PartialEqSpecImpl for LibraryItem {
    open spec fn obeys_eq_spec() -> bool {
        true
    }

    open spec fn eq_spec(&self, other: &LibraryItem) -> bool {
        self@ == other@
    }
}

/// Compare two optional years.
fn opt_i32_eq(a: Option<i32>, b: Option<i32>) -> (r: bool)
    ensures
        r == (a == b),
{
    match (a, b) {
        (Some(x), Some(y)) => x == y,
        (None, None) => true,
        _ => false,
    }
}

/// Compare two optional track numbers.
fn opt_u32_eq(a: Option<u32>, b: Option<u32>) -> (r: bool)
    ensures
        r == (a == b),
{
    match (a, b) {
        (Some(x), Some(y)) => x == y,
        (None, None) => true,
        _ => false,
    }
}

/// How the library view groups its tracks.
#[derive(Clone, Copy, PartialEq, Eq, Structural, Debug)]
pub enum ViewType {
    Album,
    Artist,
    Genre,
}

/// The view of a list of tracks.
pub open spec fn items_view(v: Seq<LibraryItem>) -> Seq<LibraryItemV> {
    v.map_values(|it: LibraryItem| it@)
}

/// The view of a list of watched folders.
pub open spec fn paths_view(v: Seq<LibraryPath>) -> Seq<LibraryPathV> {
    v.map_values(|p: LibraryPath| p@)
}

/// The ghost image of one group of the library view.
pub struct LibraryItemContainerV {
    pub name: Seq<char>,
    pub items: Seq<LibraryItemV>,
}

/// One group of the library view: a name and the tracks filed under it.
#[derive(Debug)]
pub struct LibraryItemContainer {
    pub name: String,
    pub items: Vec<LibraryItem>,
}

impl View for LibraryItemContainer {
    type V = LibraryItemContainerV;

    open spec fn view(&self) -> LibraryItemContainerV {
        LibraryItemContainerV { name: self.name@, items: items_view(self.items@) }
    }
}

/// The view of a list of groups.
pub open spec fn containers_view(v: Seq<LibraryItemContainer>) -> Seq<LibraryItemContainerV> {
    v.map_values(|c: LibraryItemContainer| c@)
}

/// The ghost image of the library view.
pub struct LibraryViewV {
    pub view_type: ViewType,
    pub containers: Seq<LibraryItemContainerV>,
}

/// How the library presents its tracks: a grouping and the groups.
#[derive(Debug)]
pub struct LibraryView {
    pub view_type: ViewType,
    pub containers: Vec<LibraryItemContainer>,
}

impl View for LibraryView {
    type V = LibraryViewV;

    open spec fn view(&self) -> LibraryViewV {
        LibraryViewV { view_type: self.view_type, containers: containers_view(self.containers@) }
    }
}

/// The predicate keeping folders that are not under the given identifier.
pub open spec fn keeps_path(id: int) -> spec_fn(LibraryPathV) -> bool {
    |p: LibraryPathV| p.id != id
}

/// The predicate keeping tracks that do not come from the given folder.
pub open spec fn keeps_item(id: int) -> spec_fn(LibraryItemV) -> bool {
    |it: LibraryItemV| it.library_id != id
}

/// The map taking every group to the same group without the folder's tracks.
pub open spec fn strips_container(id: int) -> spec_fn(LibraryItemContainerV) -> LibraryItemContainerV {
    |c: LibraryItemContainerV| container_without(c, id)
}

/// The predicate keeping groups that still hold a track.
pub open spec fn container_nonempty() -> spec_fn(LibraryItemContainerV) -> bool {
    |c: LibraryItemContainerV| c.items.len() > 0
}

/// One group with every track of a given folder taken out.
pub open spec fn container_without(c: LibraryItemContainerV, id: int) -> LibraryItemContainerV {
    LibraryItemContainerV {
        name: c.name,
        items: c.items.filter(keeps_item(id)),
    }
}

/// The music library: the folders under watch, every track found in them,
/// and the grouped view of those tracks.
#[derive(Debug)]
pub struct Library {
    pub paths: Vec<LibraryPath>,
    pub items: Vec<LibraryItem>,
    pub library_view: LibraryView,
}

impl Library {
    /// An empty library, grouped by album.
    pub fn new() -> (r: Library)
        ensures
            r.paths@.len() == 0,
            r.items@.len() == 0,
            r.library_view.view_type == ViewType::Album,
            r.library_view.containers@.len() == 0,
    {
        Library {
            paths: Vec::new(),
            items: Vec::new(),
            library_view: LibraryView { view_type: ViewType::Album, containers: Vec::new() },
        }
    }

    pub fn paths(&self) -> (r: &Vec<LibraryPath>)
        ensures
            r == &self.paths,
    {
        &self.paths
    }

    /// Put a folder under watch.  A path already watched is refused; a new
    /// one is appended, not yet imported, named after its last component.
    pub fn add_path(&mut self, path: String) -> (r: bool)
        ensures
            r == !(exists|i: int|
                0 <= i < old(self).paths@.len() && (#[trigger] old(self).paths@[i]).path@
                    == path@),
            !r ==> *final(self) == *old(self),
            r ==> {
                &&& final(self).paths@.len() == old(self).paths@.len() + 1
                &&& final(self).paths@.subrange(0, old(self).paths@.len() as int) == old(
                    self,
                ).paths@
                &&& final(self).paths@.last().path@ == path@
                &&& final(self).paths@.last().status == LibraryPathStatus::NotImported
                &&& final(self).paths@.last().display_name@ == display_name_of(path@)
                &&& final(self).items == old(self).items
                &&& final(self).library_view == old(self).library_view
            },
    {
        let mut i: usize = 0;
        while i < self.paths.len()
            invariant
                i <= self.paths@.len(),
                forall|j: int|
                    0 <= j < i ==> (#[trigger] self.paths@[j]).path@ != path@,
            decreases self.paths@.len() - i,
        {
            if *self.paths[i].path() == path {
                return false;
            }
            i = i + 1;
        }
        let new_path = LibraryPath::new(path);
        let ghost before = self.paths@;
        self.paths.push(new_path);
        proof {
            assert(self.paths@.subrange(0, before.len() as int) =~= before);
        }
        true
    }

    /// Stop watching a folder: its entry leaves the path list, its tracks
    /// leave the library and every view group, and groups left empty vanish.
    /// Everything else keeps its order.
    pub fn remove_path(&mut self, path_id: LibraryPathId)
        ensures
            paths_view(final(self).paths@) == paths_view(old(self).paths@).filter(
                keeps_path(path_id.0 as int),
            ),
            items_view(final(self).items@) == items_view(old(self).items@).filter(
                keeps_item(path_id.0 as int),
            ),
            final(self).library_view.view_type == old(self).library_view.view_type,
            containers_view(final(self).library_view.containers@) == containers_view(
                old(self).library_view.containers@,
            ).map_values(strips_container(path_id.0 as int)).filter(container_nonempty()),
    {
        // The watched-folder list.
        let mut kept_paths: Vec<LibraryPath> = Vec::new();
        let mut i: usize = 0;
        while i < self.paths.len()
            invariant
                i <= self.paths@.len(),
                paths_view(kept_paths@) == paths_view(self.paths@.subrange(0, i as int)).filter(
                    keeps_path(path_id.0 as int),
                ),
            decreases self.paths@.len() - i,
        {
            let ghost prefix = paths_view(self.paths@.subrange(0, i as int));
            let ghost pred = keeps_path(path_id.0 as int);
            if self.paths[i].id.0 != path_id.0 {
                let kept = LibraryPath {
                    id: self.paths[i].id,
                    path: self.paths[i].path.clone(),
                    status: self.paths[i].status,
                    display_name: self.paths[i].display_name.clone(),
                };
                kept_paths.push(kept);
            }
            proof {
                assert(self.paths@.subrange(0, i + 1) =~= self.paths@.subrange(0, i as int).push(
                    self.paths@[i as int],
                ));
                assert(paths_view(self.paths@.subrange(0, i + 1)) =~= prefix.push(
                    self.paths@[i as int]@,
                ));
                assert(prefix.push(self.paths@[i as int]@).drop_last() =~= prefix);
                reveal(Seq::filter);
                assert(paths_view(kept_paths@) =~= paths_view(
                    self.paths@.subrange(0, i + 1),
                ).filter(pred));
            }
            i = i + 1;
        }
        proof {
            assert(self.paths@.subrange(0, self.paths@.len() as int) =~= self.paths@);
        }
        self.paths = kept_paths;
        // The tracks.
        let mut kept_items: Vec<LibraryItem> = Vec::new();
        let mut j: usize = 0;
        while j < self.items.len()
            invariant
                j <= self.items@.len(),
                items_view(kept_items@) == items_view(self.items@.subrange(0, j as int)).filter(
                    keeps_item(path_id.0 as int),
                ),
            decreases self.items@.len() - j,
        {
            let ghost prefix = items_view(self.items@.subrange(0, j as int));
            let ghost pred = keeps_item(path_id.0 as int);
            if self.items[j].library_id.0 != path_id.0 {
                let kept = self.items[j].clone();
                kept_items.push(kept);
            }
            proof {
                assert(self.items@.subrange(0, j + 1) =~= self.items@.subrange(0, j as int).push(
                    self.items@[j as int],
                ));
                assert(items_view(self.items@.subrange(0, j + 1)) =~= prefix.push(
                    self.items@[j as int]@,
                ));
                assert(prefix.push(self.items@[j as int]@).drop_last() =~= prefix);
                reveal(Seq::filter);
                assert(items_view(kept_items@) =~= items_view(
                    self.items@.subrange(0, j + 1),
                ).filter(pred));
            }
            j = j + 1;
        }
        proof {
            assert(self.items@.subrange(0, self.items@.len() as int) =~= self.items@);
        }
        self.items = kept_items;
        // The view groups.
        let mut kept_containers: Vec<LibraryItemContainer> = Vec::new();
        let mut c: usize = 0;
        while c < self.library_view.containers.len()
            invariant
                c <= self.library_view.containers@.len(),
                containers_view(kept_containers@) == containers_view(
                    self.library_view.containers@.subrange(0, c as int),
                ).map_values(strips_container(path_id.0 as int)).filter(container_nonempty()),
            decreases self.library_view.containers@.len() - c,
        {
            let ghost strip = strips_container(path_id.0 as int);
            let ghost nonempty = container_nonempty();
            let ghost prefix = containers_view(
                self.library_view.containers@.subrange(0, c as int),
            ).map_values(strip);
            // Filter this group's tracks.
            let group = &self.library_view.containers[c];
            let mut kept: Vec<LibraryItem> = Vec::new();
            let mut k: usize = 0;
            while k < group.items.len()
                invariant
                    k <= group.items@.len(),
                    items_view(kept@) == items_view(group.items@.subrange(0, k as int)).filter(
                        keeps_item(path_id.0 as int),
                    ),
                decreases group.items@.len() - k,
            {
                let ghost iprefix = items_view(group.items@.subrange(0, k as int));
                let ghost ipred = keeps_item(path_id.0 as int);
                if group.items[k].library_id.0 != path_id.0 {
                    kept.push(group.items[k].clone());
                }
                proof {
                    assert(group.items@.subrange(0, k + 1) =~= group.items@.subrange(
                        0,
                        k as int,
                    ).push(group.items@[k as int]));
                    assert(items_view(group.items@.subrange(0, k + 1)) =~= iprefix.push(
                        group.items@[k as int]@,
                    ));
                    assert(iprefix.push(group.items@[k as int]@).drop_last() =~= iprefix);
                    reveal(Seq::filter);
                    assert(items_view(kept@) =~= items_view(
                        group.items@.subrange(0, k + 1),
                    ).filter(ipred));
                }
                k = k + 1;
            }
            proof {
                assert(group.items@.subrange(0, group.items@.len() as int) =~= group.items@);
                assert(items_view(kept@) == items_view(group.items@).filter(
                    keeps_item(path_id.0 as int),
                ));
            }
            let stripped = LibraryItemContainer { name: group.name.clone(), items: kept };
            proof {
                assert(stripped@ == container_without(group@, path_id.0 as int));
            }
            if stripped.items.len() > 0 {
                kept_containers.push(stripped);
            }
            proof {
                let full = self.library_view.containers@;
                assert(full.subrange(0, c + 1) =~= full.subrange(0, c as int).push(
                    full[c as int],
                ));
                assert(containers_view(full.subrange(0, c + 1)) =~= containers_view(
                    full.subrange(0, c as int),
                ).push(full[c as int]@));
                assert(containers_view(full.subrange(0, c + 1)).map_values(strip) =~= prefix.push(
                    strip(full[c as int]@),
                ));
                assert(prefix.push(strip(full[c as int]@)).drop_last() =~= prefix);
                reveal(Seq::filter);
                assert(containers_view(kept_containers@) =~= containers_view(
                    full.subrange(0, c + 1),
                ).map_values(strip).filter(nonempty));
            }
            c = c + 1;
        }
        proof {
            let full = self.library_view.containers@;
            assert(full.subrange(0, full.len() as int) =~= full);
        }
        self.library_view.containers = kept_containers;
    }

    /// Mark a watched folder as imported; folders under other identifiers
    /// are untouched.
    pub fn set_path_to_imported(&mut self, id: LibraryPathId)
        ensures
            final(self).paths@.len() == old(self).paths@.len(),
            forall|i: int|
                0 <= i < old(self).paths@.len() ==> #[trigger] final(self).paths@[i] == (
                LibraryPath {
                    status: if old(self).paths@[i].id.0 == id.0 {
                        LibraryPathStatus::Imported
                    } else {
                        old(self).paths@[i].status
                    },
                    ..old(self).paths@[i]
                }),
            final(self).items == old(self).items,
            final(self).library_view == old(self).library_view,
    {
        let mut i: usize = 0;
        while i < self.paths.len()
            invariant
                i <= self.paths@.len(),
                self.paths@.len() == old(self).paths@.len(),
                forall|j: int|
                    0 <= j < i ==> #[trigger] self.paths@[j] == (LibraryPath {
                        status: if old(self).paths@[j].id.0 == id.0 {
                            LibraryPathStatus::Imported
                        } else {
                            old(self).paths@[j].status
                        },
                        ..old(self).paths@[j]
                    }),
                forall|j: int|
                    i <= j < self.paths@.len() ==> #[trigger] self.paths@[j] == old(
                        self,
                    ).paths@[j],
                self.items == old(self).items,
                self.library_view == old(self).library_view,
            decreases self.paths@.len() - i,
        {
            if self.paths[i].id.0 == id.0 {
                self.paths[i].status = LibraryPathStatus::Imported;
            }
            i = i + 1;
        }
    }

    /// Mark a watched folder as not imported; folders under other
    /// identifiers are untouched.
    pub fn set_path_to_not_imported(&mut self, id: LibraryPathId)
        ensures
            final(self).paths@.len() == old(self).paths@.len(),
            forall|i: int|
                0 <= i < old(self).paths@.len() ==> #[trigger] final(self).paths@[i] == (
                LibraryPath {
                    status: if old(self).paths@[i].id.0 == id.0 {
                        LibraryPathStatus::NotImported
                    } else {
                        old(self).paths@[i].status
                    },
                    ..old(self).paths@[i]
                }),
            final(self).items == old(self).items,
            final(self).library_view == old(self).library_view,
    {
        let mut i: usize = 0;
        while i < self.paths.len()
            invariant
                i <= self.paths@.len(),
                self.paths@.len() == old(self).paths@.len(),
                forall|j: int|
                    0 <= j < i ==> #[trigger] self.paths@[j] == (LibraryPath {
                        status: if old(self).paths@[j].id.0 == id.0 {
                            LibraryPathStatus::NotImported
                        } else {
                            old(self).paths@[j].status
                        },
                        ..old(self).paths@[j]
                    }),
                forall|j: int|
                    i <= j < self.paths@.len() ==> #[trigger] self.paths@[j] == old(
                        self,
                    ).paths@[j],
                self.items == old(self).items,
                self.library_view == old(self).library_view,
            decreases self.paths@.len() - i,
        {
            if self.paths[i].id.0 == id.0 {
                self.paths[i].status = LibraryPathStatus::NotImported;
            }
            i = i + 1;
        }
    }

    pub fn items(&self) -> (r: &Vec<LibraryItem>)
        ensures
            r == &self.items,
    {
        &self.items
    }

    pub fn view(&self) -> (r: &LibraryView)
        ensures
            r == &self.library_view,
    {
        &self.library_view
    }

    /// File a track.  A track at a path already known replaces the old entry
    /// but keeps the key it was stored under; a new path is appended.
    pub fn add_item(&mut self, library_item: LibraryItem)
        ensures
            final(self).paths == old(self).paths,
            final(self).library_view == old(self).library_view,
            (exists|i: int|
                0 <= i < old(self).items@.len() && (#[trigger] old(self).items@[i]).path@
                    == library_item.path@) ==> exists|i: int|
                {
                    &&& 0 <= i < old(self).items@.len()
                    &&& (#[trigger] old(self).items@[i]).path@ == library_item.path@
                    &&& forall|j: int|
                        0 <= j < i ==> (#[trigger] old(self).items@[j]).path@
                            != library_item.path@
                    &&& final(self).items@ == old(self).items@.update(
                        i,
                        LibraryItem { key: old(self).items@[i].key, ..library_item },
                    )
                },
            !(exists|i: int|
                0 <= i < old(self).items@.len() && (#[trigger] old(self).items@[i]).path@
                    == library_item.path@) ==> final(self).items@ == old(self).items@.push(
                library_item,
            ),
    {
        let mut i: usize = 0;
        while i < self.items.len()
            invariant
                i <= self.items@.len(),
                forall|j: int|
                    0 <= j < i ==> (#[trigger] self.items@[j]).path@ != library_item.path@,
                self.items == old(self).items,
                self.paths == old(self).paths,
                self.library_view == old(self).library_view,
            decreases self.items@.len() - i,
        {
            if self.items[i].path == library_item.path {
                let existing_key = self.items[i].key;
                let mut updated_item = library_item;
                updated_item.key = existing_key;
                self.items.set(i, updated_item);
                return ;
            }
            i = i + 1;
        }
        self.items.push(library_item);
    }

    /// Merge another view's groups into the library view, after the ones
    /// already there.
    pub fn add_view(&mut self, library_view: LibraryView)
        ensures
            final(self).paths == old(self).paths,
            final(self).items == old(self).items,
            final(self).library_view.view_type == old(self).library_view.view_type,
            final(self).library_view.containers@ == old(self).library_view.containers@
                + library_view.containers@,
    {
        let mut incoming = library_view;
        self.library_view.containers.append(&mut incoming.containers);
    }
}

impl Default for Library {
    /// The empty library.
    fn default() -> (r: Library)
        ensures
            r.paths@.len() == 0,
            r.items@.len() == 0,
            r.library_view.view_type == ViewType::Album,
            r.library_view.containers@.len() == 0,
    {
        Library::new()
    }
}

} // verus!
