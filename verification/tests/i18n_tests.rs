use bird_player::i18n::{init, insert_pair, Language, Translations};

#[test]
fn language_codes_and_names() {
    assert_eq!(Language::English.code(), "en");
    assert_eq!(Language::Chinese.code(), "zh");
    assert_eq!(Language::English.name(), "En");
    assert_eq!(Language::Chinese.name(), "中文");
    assert_eq!(Language::all(), vec![Language::English, Language::Chinese]);
    assert_eq!(Language::default(), Language::English);
}

#[test]
fn translations_answer_in_the_current_language() {
    let mut store = init();
    assert_eq!(store.get_language(), Language::English);
    assert_eq!(store.t("file"), "File");
    assert_eq!(store.t("play_pause"), "Play/Pause");

    store.set_language(Language::Chinese);
    assert_eq!(store.get_language(), Language::Chinese);
    assert_eq!(store.t("file"), "文件");
    assert_eq!(store.t("play_pause"), "播放/暂停");
}

#[test]
fn an_unknown_key_names_itself() {
    let store = init();
    assert_eq!(store.t("no_such_key"), "no_such_key");
}

#[test]
fn a_reinserted_key_keeps_its_place_and_takes_the_new_text() {
    // The library view texts refile `unknown_title` with a lowercase text;
    // the later entry wins.
    let store = init();
    assert_eq!(store.t("unknown_title"), "unknown title");

    let mut table: Vec<(String, String)> = Vec::new();
    insert_pair(&mut table, "greeting", "Hello");
    insert_pair(&mut table, "farewell", "Bye");
    insert_pair(&mut table, "greeting", "Hi");
    assert_eq!(table.len(), 2);
    assert_eq!(table[0], (String::from("greeting"), String::from("Hi")));
}

#[test]
fn placeholders_fill_left_to_right() {
    let store = init();
    assert_eq!(store.tf("play_mode", &["Shuffle"]), "Play Mode: Shuffle");

    let mut custom = Translations::new();
    insert_pair(&mut custom.en, "pair", "{} and {}");
    assert_eq!(custom.tf("pair", &["a", "b"]), "a and b");
    // A missing argument leaves the later placeholder standing.
    assert_eq!(custom.tf("pair", &["a"]), "a and {}");
    // Extra arguments have no placeholder to land in.
    assert_eq!(custom.tf("pair", &["a", "b", "c"]), "a and b");
    // A text without placeholders is returned as translated.
    assert_eq!(store.tf("file", &["x"]), "File");
}
