//! Translations for the user-facing texts.
//!
//! A translation store holds one key-to-text table per supported language
//! and the language currently chosen.  Looking a key up yields its text in
//! the current language, or the key itself when no entry exists; texts with
//! placeholders are filled left to right.

use vstd::prelude::*;

verus! {

/// A supported language.
#[derive(Clone, Copy, PartialEq, Eq, Structural, Debug, Hash)]
pub enum Language {
    English,
    Chinese,
}

impl Language {
    /// The language's two-letter code.
    pub fn code(&self) -> (r: &'static str)
        ensures
            self is English ==> r@ == "en"@,
            self is Chinese ==> r@ == "zh"@,
    {
        match self {
            Language::English => "en",
            Language::Chinese => "zh",
        }
    }

    /// The language's self-designation.
    pub fn name(&self) -> (r: &'static str)
        ensures
            self is English ==> r@ == "En"@,
            self is Chinese ==> r@ == "中文"@,
    {
        match self {
            Language::English => "En",
            Language::Chinese => "中文",
        }
    }

    /// Every supported language.
    pub fn all() -> (r: Vec<Language>)
        ensures
            r@ == seq![Language::English, Language::Chinese],
    {
        let mut all: Vec<Language> = Vec::new();
        all.push(Language::English);
        all.push(Language::Chinese);
        proof {
            assert(all@ =~= seq![Language::English, Language::Chinese]);
        }
        all
    }
}

impl Default for Language {
    /// English, the default language.
    fn default() -> (r: Language)
        ensures
            r == Language::English,
    {
        Language::English
    }
}

/// The view of a translation table: key and text, as character sequences.
pub open spec fn table_view(table: Seq<(String, String)>) -> Seq<(Seq<char>, Seq<char>)> {
    table.map_values(|p: (String, String)| (p.0@, p.1@))
}

/// The text the table holds for a key: the first matching entry.
pub open spec fn table_lookup(table: Seq<(Seq<char>, Seq<char>)>, key: Seq<char>) -> Option<
    Seq<char>,
>
    decreases table.len(),
{
    if table.len() == 0 {
        None
    } else if table[0].0 == key {
        Some(table[0].1)
    } else {
        table_lookup(table.drop_first(), key)
    }
}

/// A translation store: the chosen language and one table per language.
#[derive(Debug)]
pub struct Translations {
    pub language: Language,
    pub en: Vec<(String, String)>,
    pub zh: Vec<(String, String)>,
}

impl Translations {
    /// The table of the current language.
    pub open spec fn current_table(self) -> Seq<(Seq<char>, Seq<char>)> {
        match self.language {
            Language::English => table_view(self.en@),
            Language::Chinese => table_view(self.zh@),
        }
    }

    /// An empty store in the default language.
    pub fn new() -> (r: Translations)
        ensures
            r.language == Language::English,
            r.en@.len() == 0,
            r.zh@.len() == 0,
    {
        Translations { language: Language::English, en: Vec::new(), zh: Vec::new() }
    }

    /// Choose the language every lookup answers in.
    pub fn set_language(&mut self, lang: Language)
        ensures
            *final(self) == (Translations { language: lang, ..*old(self) }),
    {
        self.language = lang;
    }

    /// The language lookups answer in.
    pub fn get_language(&self) -> (r: Language)
        ensures
            r == self.language,
    {
        self.language
    }

    /// Translate a key into the current language; an unknown key names
    /// itself.
    pub fn t(&self, key: &str) -> (r: String)
        ensures
            r@ == match table_lookup(self.current_table(), key@) {
                Some(text) => text,
                None => key@,
            },
    {
        match self.language {
            Language::English => lookup_in(&self.en, key),
            Language::Chinese => lookup_in(&self.zh, key),
        }
    }

    /// Translate a key and fill its placeholders with the arguments, left to
    /// right.
    pub fn tf(&self, key: &str, args: &[&str]) -> (r: String)
        ensures
            r@ == fill_all(
                match table_lookup(self.current_table(), key@) {
                    Some(text) => text,
                    None => key@,
                },
                args@.map_values(|a: &str| a@),
            ),
    {
        let mut result = self.t(key);
        let ghost s0 = result@;
        let ghost argvs = args@.map_values(|a: &str| a@);
        proof {
            assert(argvs.skip(0) =~= argvs);
        }
        let mut k: usize = 0;
        while k < args.len()
            invariant
                k <= args@.len(),
                argvs == args@.map_values(|a: &str| a@),
                fill_all(result@, argvs.skip(k as int)) == fill_all(s0, argvs),
            decreases args@.len() - k,
        {
            proof {
                assert(argvs.skip(k as int).drop_first() =~= argvs.skip(k + 1));
                assert(argvs.skip(k as int)[0] == argvs[k as int]);
            }
            result = fill_first(result, args[k]);
            k = k + 1;
        }
        proof {
            assert(argvs.skip(args@.len() as int) =~= Seq::<Seq<char>>::empty());
        }
        result
    }
}

/// File one entry into a table: a key already present keeps its place and
/// takes the new text, a new key is appended.
pub fn insert_pair(table: &mut Vec<(String, String)>, key: &str, value: &str)
    ensures
        (exists|i: int|
            {
                &&& 0 <= i < old(table)@.len()
                &&& (#[trigger] old(table)@[i]).0@ == key@
                &&& forall|j: int| 0 <= j < i ==> (#[trigger] old(table)@[j]).0@ != key@
                &&& final(table)@.len() == old(table)@.len()
                &&& table_view(final(table)@) == table_view(old(table)@).update(
                    i,
                    (key@, value@),
                )
            }) || ({
            &&& forall|j: int|
                0 <= j < old(table)@.len() ==> (#[trigger] old(table)@[j]).0@ != key@
            &&& final(table)@.len() == old(table)@.len() + 1
            &&& table_view(final(table)@) == table_view(old(table)@).push((key@, value@))
        }),
        final(table)@.len() >= old(table)@.len(),
{
    let key_string = key.to_owned();
    let mut i: usize = 0;
    while i < table.len()
        invariant
            i <= table@.len(),
            table@ == old(table)@,
            key_string@ == key@,
            forall|j: int| 0 <= j < i ==> (#[trigger] table@[j]).0@ != key@,
        decreases table@.len() - i,
    {
        if table[i].0 == key_string {
            table.set(i, (key_string, value.to_owned()));
            proof {
                assert(table_view(table@) =~= table_view(old(table)@).update(
                    i as int,
                    (key@, value@),
                ));
            }
            return ;
        }
        i = i + 1;
    }
    table.push((key_string, value.to_owned()));
    proof {
        assert(table_view(table@) =~= table_view(old(table)@).push((key@, value@)));
    }
}

/// The full translation tables, filed under the default language.  The
/// entries are the data the user interface shows; what `t` and `tf` make of
/// them is stated on those functions.
pub fn init() -> (r: Translations)
    ensures
        r.language == Language::English,
        r.en@.len() >= 1,
        r.zh@.len() >= 1,
{
    let mut en: Vec<(String, String)> = Vec::new();
    // File menu
    insert_pair(&mut en, "file", "File");
    insert_pair(&mut en, "open", "Open");
    insert_pair(&mut en, "settings", "Settings");
    insert_pair(&mut en, "exit", "Exit");
    // Playback menu
    insert_pair(&mut en, "playback", "Playback");
    insert_pair(&mut en, "play_pause", "Play/Pause");
    insert_pair(&mut en, "previous", "Previous");
    insert_pair(&mut en, "next", "Next");
    insert_pair(&mut en, "play_mode", "Play Mode: {}");
    // Help menu
    insert_pair(&mut en, "help", "Help");
    insert_pair(&mut en, "about", "About");
    // Player section
    insert_pair(&mut en, "song", "Song: ");
    insert_pair(&mut en, "artist", "Artist: ");
    insert_pair(&mut en, "playlist", "Playlist: ");
    insert_pair(&mut en, "no_track", "No track selected");
    insert_pair(&mut en, "select_track", "Select a track from the playlist to play");
    insert_pair(&mut en, "add_tracks", "Add tracks to your playlist to start playing");
    insert_pair(&mut en, "create_playlist", "Create a playlist to start playing music");
    insert_pair(&mut en, "remove_song", "Remove Song");
    insert_pair(&mut en, "mini", "Mini");
    insert_pair(&mut en, "playlist_btn", "Playlist");
    insert_pair(&mut en, "lyrics", "Lyrics");
    // Library section
    insert_pair(&mut en, "music_files", "Music Library");
    insert_pair(&mut en, "expand_all", "Expand all folders");
    insert_pair(&mut en, "collapse_all", "Collapse all folders");
    insert_pair(&mut en, "resync_all", "Re-sync all folders");
    insert_pair(&mut en, "add_music_folder", "Add music folder");
    insert_pair(&mut en, "unknown_title", "Unknown Title");
    insert_pair(&mut en, "unknown_track", "Unknown Track");
    insert_pair(&mut en, "add_to_playlist", "Add to playlist");
    insert_pair(&mut en, "add_all_to_playlist", "Add all to playlist");
    insert_pair(&mut en, "remove_from_library", "Remove from library");
    // Playlist tabs
    insert_pair(&mut en, "rename", "Rename");
    insert_pair(&mut en, "delete", "Delete");
    insert_pair(&mut en, "new_playlist", "New Playlist");
    insert_pair(&mut en, "enter_name", "Enter name...");
    // Playlist table
    insert_pair(&mut en, "column_number", "#");
    insert_pair(&mut en, "column_title", "Title");
    insert_pair(&mut en, "column_artist", "Artist");
    insert_pair(&mut en, "column_album", "Album");
    insert_pair(&mut en, "column_genre", "Genre");
    insert_pair(&mut en, "edit_title", "Edit title");
    insert_pair(&mut en, "edit_artist", "Edit artist");
    insert_pair(&mut en, "edit_album", "Edit album");
    insert_pair(&mut en, "edit_genre", "Edit genre");
    insert_pair(&mut en, "remove_from_playlist", "Remove from playlist");
    insert_pair(&mut en, "unknown_title", "unknown title");
    insert_pair(&mut en, "unknown_artist", "unknown artist");
    insert_pair(&mut en, "unknown_album", "unknown album");
    insert_pair(&mut en, "unknown_genre", "unknown genre");

    let mut zh: Vec<(String, String)> = Vec::new();
    // File menu
    insert_pair(&mut zh, "file", "文件");
    insert_pair(&mut zh, "open", "打开");
    insert_pair(&mut zh, "settings", "设置");
    insert_pair(&mut zh, "exit", "退出");
    // Playback menu
    insert_pair(&mut zh, "playback", "播放");
    insert_pair(&mut zh, "play_pause", "播放/暂停");
    insert_pair(&mut zh, "previous", "上一首");
    insert_pair(&mut zh, "next", "下一首");
    insert_pair(&mut zh, "play_mode", "播放模式: {}");
    // Help menu
    insert_pair(&mut zh, "help", "帮助");
    insert_pair(&mut zh, "about", "关于");
    // Player section
    insert_pair(&mut zh, "song", "歌曲：");
    insert_pair(&mut zh, "artist", "艺术家：");
    insert_pair(&mut zh, "playlist", "播放列表：");
    insert_pair(&mut zh, "no_track", "未选择歌曲");
    insert_pair(&mut zh, "select_track", "从播放列表中选择一首歌曲播放");
    insert_pair(&mut zh, "add_tracks", "添加歌曲到播放列表开始播放");
    insert_pair(&mut zh, "create_playlist", "创建播放列表开始播放音乐");
    insert_pair(&mut zh, "remove_song", "移除歌曲");
    insert_pair(&mut zh, "mini", "迷你");
    insert_pair(&mut zh, "playlist_btn", "列表");
    insert_pair(&mut zh, "lyrics", "歌词");
    // Library section
    insert_pair(&mut zh, "music_files", "音乐库");
    insert_pair(&mut zh, "expand_all", "展开所有文件夹");
    insert_pair(&mut zh, "collapse_all", "折叠所有文件夹");
    insert_pair(&mut zh, "resync_all", "重新同步所有文件夹");
    insert_pair(&mut zh, "add_music_folder", "添加音乐文件夹");
    insert_pair(&mut zh, "unknown_title", "未知标题");
    insert_pair(&mut zh, "unknown_track", "未知曲目");
    insert_pair(&mut zh, "add_to_playlist", "添加到播放列表");
    insert_pair(&mut zh, "add_all_to_playlist", "全部添加到播放列表");
    insert_pair(&mut zh, "remove_from_library", "从库中移除");
    // Playlist tabs
    insert_pair(&mut zh, "rename", "重命名");
    insert_pair(&mut zh, "delete", "删除");
    insert_pair(&mut zh, "new_playlist", "新播放列表");
    insert_pair(&mut zh, "enter_name", "输入名称...");
    // Playlist table
    insert_pair(&mut zh, "column_number", "#");
    insert_pair(&mut zh, "column_title", "标题");
    insert_pair(&mut zh, "column_artist", "艺术家");
    insert_pair(&mut zh, "column_album", "专辑");
    insert_pair(&mut zh, "column_genre", "类型");
    insert_pair(&mut zh, "edit_title", "编辑标题");
    insert_pair(&mut zh, "edit_artist", "编辑艺术家");
    insert_pair(&mut zh, "edit_album", "编辑专辑");
    insert_pair(&mut zh, "edit_genre", "编辑类型");
    insert_pair(&mut zh, "remove_from_playlist", "从播放列表中移除");
    insert_pair(&mut zh, "unknown_title", "未知标题");
    insert_pair(&mut zh, "unknown_artist", "未知艺术家");
    insert_pair(&mut zh, "unknown_album", "未知专辑");
    insert_pair(&mut zh, "unknown_genre", "未知类型");

    init_about_translations(&mut en, &mut zh);

    Translations { language: Language::English, en, zh }
}

/// The about-window texts, in both languages.
pub fn init_about_translations(en: &mut Vec<(String, String)>, zh: &mut Vec<(String, String)>)
    ensures
        final(en)@.len() >= old(en)@.len(),
        final(zh)@.len() >= old(zh)@.len(),
{
    insert_pair(en, "app_name", "Bird Player");
    insert_pair(
        en,
        "app_description",
        "A music player dedicated for local MP3 files, inspired by the things from the amazing 2000s golden age.",
    );
    insert_pair(en, "features", "Features:");
    insert_pair(
        en,
        "feature_1",
        "• Playing music, simple and straightforward, no streaming bullshit.",
    );
    insert_pair(
        en,
        "feature_2",
        "• A cassette mimic, with a focus on simplicity and clean design.",
    );
    insert_pair(en, "feature_3", "• Local Music library with ID3 editable tag support");
    insert_pair(en, "feature_4", "• Playlist management");
    insert_pair(en, "contact_email", "Contact: digimonkey@protonmail.com");

    insert_pair(zh, "app_name", "小鸟播放器");
    insert_pair(
        zh,
        "app_description",
        "一款专为本地 MP3 文件设计的音乐播放器，灵感来源于2000年代的黄金时代。",
    );
    insert_pair(zh, "features", "特点：");
    insert_pair(zh, "feature_1", "• 播放音乐，简单直接，拒绝狗屁流媒体。");
    insert_pair(zh, "feature_2", "• 模拟磁带播放器，注重简约和清晰的设计。");
    insert_pair(zh, "feature_3", "• 本地音乐库，支持ID3标签编辑");
    insert_pair(zh, "feature_4", "• 播放列表管理");
    insert_pair(zh, "contact_email", "联系邮箱: digimonkey@protonmail.com");
}

/// Scan a table for a key: the first matching entry's text, or the key
/// itself when none matches.
fn lookup_in(table: &Vec<(String, String)>, key: &str) -> (r: String)
    ensures
        r@ == match table_lookup(table_view(table@), key@) {
            Some(text) => text,
            None => key@,
        },
{
    let ghost tv = table_view(table@);
    let key_string = key.to_owned();
    proof {
        assert(tv.skip(0) =~= tv);
    }
    let mut i: usize = 0;
    while i < table.len()
        invariant
            i <= table@.len(),
            tv == table_view(table@),
            key_string@ == key@,
            table_lookup(tv, key@) == table_lookup(tv.skip(i as int), key@),
        decreases table@.len() - i,
    {
        proof {
            assert(tv.skip(i as int)[0] == tv[i as int]);
            assert(tv[i as int] == (table@[i as int].0@, table@[i as int].1@));
        }
        if table[i].0 == key_string {
            proof {
                assert(table_lookup(tv.skip(i as int), key@) == Some(tv.skip(i as int)[0].1));
            }
            return table[i].1.clone();
        }
        proof {
            assert(tv.skip(i as int).drop_first() =~= tv.skip(i + 1));
            assert(table_lookup(tv.skip(i as int), key@) == table_lookup(tv.skip(i + 1), key@));
        }
        i = i + 1;
    }
    proof {
        assert(tv.skip(table@.len() as int) =~= Seq::<(Seq<char>, Seq<char>)>::empty());
    }
    key.to_owned()
}

/// A placeholder opens at position `p` of the text.
pub open spec fn placeholder_at(s: Seq<char>, p: int) -> bool {
    0 <= p && p + 2 <= s.len() && s[p] == '{' && s[p + 1] == '}'
}

/// The text with its first placeholder replaced by the argument; a text
/// without one stays as it is.
pub open spec fn fill_one(s: Seq<char>, arg: Seq<char>) -> Seq<char>
    decreases s.len(),
{
    if s.len() < 2 {
        s
    } else if s[0] == '{' && s[1] == '}' {
        arg + s.skip(2)
    } else {
        seq![s[0]] + fill_one(s.drop_first(), arg)
    }
}

/// The text with its placeholders filled by the arguments, left to right.
pub open spec fn fill_all(s: Seq<char>, args: Seq<Seq<char>>) -> Seq<char>
    decreases args.len(),
{
    if args.len() == 0 {
        s
    } else {
        fill_all(fill_one(s, args[0]), args.drop_first())
    }
}

/// With no placeholder before `p` and one at `p`, filling splices the
/// argument in at `p`; with none at all, filling changes nothing.
proof fn lemma_fill_one_at(s: Seq<char>, arg: Seq<char>, p: int)
    requires
        0 <= p <= s.len(),
        forall|j: int| 0 <= j < p ==> !placeholder_at(s, j),
        p == s.len() || p == s.len() - 1 || placeholder_at(s, p),
    ensures
        p + 2 <= s.len() ==> fill_one(s, arg) == s.subrange(0, p) + arg + s.skip(p + 2),
        p + 2 > s.len() ==> fill_one(s, arg) == s,
    decreases s.len(),
{
    if s.len() < 2 {
        assert(p + 2 > s.len());
    } else if s[0] == '{' && s[1] == '}' {
        assert(placeholder_at(s, 0));
        assert(p == 0);
        assert(fill_one(s, arg) =~= s.subrange(0, 0) + arg + s.skip(2));
    } else {
        assert(!placeholder_at(s, 0));
        assert(p >= 1);
        let tail = s.drop_first();
        assert forall|j: int| 0 <= j < p - 1 implies !placeholder_at(tail, j) by {
            assert(!placeholder_at(s, j + 1));
            assert(tail[j] == s[j + 1]);
            if 0 <= j && j + 2 <= tail.len() {
                assert(tail[j + 1] == s[j + 2]);
            }
        }
        if placeholder_at(s, p) {
            assert(placeholder_at(tail, p - 1)) by {
                assert(tail[p - 1] == s[p]);
                assert(tail[p] == s[p + 1]);
            }
        }
        lemma_fill_one_at(tail, arg, p - 1);
        if p + 2 <= s.len() {
            assert(fill_one(s, arg) =~= s.subrange(0, p) + arg + s.skip(p + 2)) by {
                assert(tail.subrange(0, p - 1) =~= s.subrange(1, p));
                assert(tail.skip(p + 1) =~= s.skip(p + 2));
            }
        } else {
            assert(fill_one(s, arg) =~= s);
        }
    }
}

/// Replace the first placeholder of the text with the argument.
fn fill_first(text: String, arg: &str) -> (r: String)
    ensures
        r@ == fill_one(text@, arg@),
{
    let s = text.as_str();
    let len = s.unicode_len();
    let mut p: usize = 0;
    let mut found = false;
    let scan_end = if len == 0 {
        0
    } else {
        len - 1
    };
    while p < scan_end
        invariant_except_break
            p <= len,
            len == s@.len(),
            scan_end == if len == 0 { 0int } else { len - 1 },
            !found,
            forall|j: int| 0 <= j < p ==> !placeholder_at(s@, j),
        ensures
            p <= len,
            len == s@.len(),
            forall|j: int| 0 <= j < p ==> !placeholder_at(s@, j),
            found ==> placeholder_at(s@, p as int),
            !found ==> p + 2 > len,
        decreases scan_end - p,
    {
        if s.get_char(p) == '{' && s.get_char(p + 1) == '}' {
            found = true;
            break ;
        }
        proof {
            assert(!placeholder_at(s@, p as int));
        }
        p = p + 1;
    }
    proof {
        lemma_fill_one_at(s@, arg@, p as int);
    }
    if !found {
        return text;
    }
    let prefix = s.substring_char(0, p);
    let suffix = s.substring_char(p + 2, len);
    let joined = prefix.to_owned().concat(arg).concat(suffix);
    proof {
        assert(joined@ =~= s@.subrange(0, p as int) + arg@ + s@.skip(p + 2));
    }
    joined
}

} // verus!
