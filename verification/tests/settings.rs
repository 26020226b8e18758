use std::path::MAIN_SEPARATOR;
use text_log::settings::{AppSettings, StoredSettings};

fn inside(base: &str, name: &str) -> String {
    format!("{}{}{}", base, MAIN_SEPARATOR, name)
}

#[test]
fn default_is_my_journal_in_the_documents_directory() {
    let settings = AppSettings::default_in(Some(String::from("/home/alice/Documents")));
    assert_eq!(settings.get_directory(), inside("/home/alice/Documents", "MyJournal"));
}

#[test]
fn default_without_documents_directory_is_relative() {
    let settings = AppSettings::default_in(None);
    assert_eq!(settings.get_directory(), "./MyJournal");
}

#[test]
fn default_for_this_user_ends_in_my_journal() {
    let directory = AppSettings::default().get_directory();
    assert!(directory.ends_with("MyJournal"));
    assert!(directory.len() > "MyJournal".len());
}

#[test]
fn settings_path_lies_in_the_configuration_directory() {
    let path = AppSettings::settings_path_in(Some(String::from("/home/alice/.config")));
    assert_eq!(path, inside(&inside("/home/alice/.config", "text_log"), "settings.json"));
}

#[test]
fn settings_path_without_configuration_directory_starts_here() {
    let path = AppSettings::settings_path_in(None);
    assert_eq!(path, inside(&inside(".", "text_log"), "settings.json"));
}

#[test]
fn settings_path_for_this_user_names_the_settings_file() {
    let path = AppSettings::get_settings_path();
    assert!(path.ends_with(&inside("text_log", "settings.json")));
    assert!(path.len() > inside("text_log", "settings.json").len());
}

#[test]
fn joining_puts_one_separator_between_directory_and_name() {
    let with_separator = format!("/srv/notes{}", MAIN_SEPARATOR);
    let settings = AppSettings::default_in(Some(with_separator));
    assert_eq!(settings.get_directory(), inside("/srv/notes", "MyJournal"));
}

#[test]
fn loading_a_missing_file_gives_the_default_and_asks_to_store_it() {
    let loaded = AppSettings::load_in(StoredSettings::Missing, Some(String::from("/docs")));
    assert_eq!(loaded.settings.get_directory(), inside("/docs", "MyJournal"));
    assert!(loaded.persist);

    let loaded = AppSettings::load_in(StoredSettings::Missing, None);
    assert_eq!(loaded.settings.get_directory(), "./MyJournal");
    assert!(loaded.persist);
}

#[test]
fn loading_a_malformed_file_is_as_loading_a_missing_one() {
    for documents in [None, Some(String::from("/docs"))] {
        let malformed = AppSettings::load_in(StoredSettings::Malformed, documents.clone());
        let missing = AppSettings::load_in(StoredSettings::Missing, documents);
        assert_eq!(malformed.settings.get_directory(), missing.settings.get_directory());
        assert_eq!(malformed.persist, missing.persist);
        assert!(malformed.persist);
    }
}

#[test]
fn loading_found_settings_keeps_them_and_stores_nothing() {
    let found = StoredSettings::Found(AppSettings::new(String::from("/data/journal")));
    let loaded = AppSettings::load_in(found, Some(String::from("/docs")));
    assert_eq!(loaded.settings.get_directory(), "/data/journal");
    assert!(!loaded.persist);
}

#[test]
fn load_for_this_user_follows_the_same_rule() {
    let found = StoredSettings::Found(AppSettings::new(String::from("/data/journal")));
    let loaded = AppSettings::load(found);
    assert_eq!(loaded.settings.get_directory(), "/data/journal");
    assert!(!loaded.persist);

    let missing = AppSettings::load(StoredSettings::Missing);
    assert_eq!(missing.settings.get_directory(), AppSettings::default().get_directory());
    assert!(missing.persist);

    let malformed = AppSettings::load(StoredSettings::Malformed);
    assert_eq!(malformed.settings.get_directory(), missing.settings.get_directory());
    assert!(malformed.persist);
}

#[test]
fn set_directory_then_get_directory_returns_the_new_path() {
    let mut settings = AppSettings::new(String::from("/old"));
    settings.set_directory(String::from("/new/place"));
    assert_eq!(settings.get_directory(), "/new/place");
    settings.set_directory(String::from("relative dir"));
    assert_eq!(settings.get_directory(), "relative dir");
}

#[test]
fn set_directory_takes_any_text() {
    let mut settings = AppSettings::new(String::from("/old"));
    settings.set_directory(String::new());
    assert_eq!(settings.get_directory(), "");
    settings.set_directory(String::from("/no/such/\u{1F4D3}/dir"));
    assert_eq!(settings.get_directory(), "/no/such/\u{1F4D3}/dir");
}

#[test]
fn a_picked_folder_becomes_the_directory_and_is_announced() {
    let mut settings = AppSettings::new(String::from("/old"));
    let notice = settings.choose_directory(Some(String::from("/picked"))).expect("a notice");
    assert_eq!(settings.get_directory(), "/picked");
    assert_eq!(notice.event, "directory-changed");
    assert_eq!(notice.payload, "/picked");
}

#[test]
fn a_cancelled_pick_changes_nothing() {
    let mut settings = AppSettings::new(String::from("/old"));
    assert!(settings.choose_directory(None).is_none());
    assert_eq!(settings.get_directory(), "/old");
}
