//! The journal's one setting, the directory that holds the daily files: its
//! default, where it is stored, and how it is loaded and changed.

use crate::paths::{join, joined};
use vstd::prelude::*;

verus! {

/// What an `AppSettings` stands for.
pub struct SettingsView {
    pub journal_directory: Seq<char>,
}

impl SettingsView {
    /// These settings with the journal directory replaced by `path`.
    pub open spec fn with_directory(self, path: Seq<char>) -> SettingsView {
        SettingsView { journal_directory: path }
    }
}

/// The settings of the journal. Any text is accepted as the directory; whether
/// it can be used shows when the first entry is written.
#[derive(Clone, Debug)]
pub struct AppSettings {
    journal_directory: String,
}

impl View for AppSettings {
    type V = SettingsView;

    closed spec fn view(&self) -> SettingsView {
        SettingsView { journal_directory: self.journal_directory@ }
    }
}

/// What was found where the settings are stored.
#[derive(Clone, Debug)]
pub enum StoredSettings {
    /// The file could not be read.
    Missing,
    /// The file was read and does not hold settings.
    Malformed,
    /// The file holds these settings.
    Found(AppSettings),
}

/// What a `StoredSettings` stands for.
pub enum StoredView {
    Missing,
    Malformed,
    Found(SettingsView),
}

impl View for StoredSettings {
    type V = StoredView;

    open spec fn view(&self) -> StoredView {
        match self {
            StoredSettings::Missing => StoredView::Missing,
            StoredSettings::Malformed => StoredView::Malformed,
            StoredSettings::Found(settings) => StoredView::Found(settings@),
        }
    }
}

/// The settings to start with, and whether they are still to be stored.
#[derive(Clone, Debug)]
pub struct Loaded {
    pub settings: AppSettings,
    /// True when the settings are the default and have to be written to the
    /// settings file. A failure of that write is not reported.
    pub persist: bool,
}

/// What a `Loaded` stands for.
pub struct LoadedView {
    pub settings: SettingsView,
    pub persist: bool,
}

impl View for Loaded {
    type V = LoadedView;

    open spec fn view(&self) -> LoadedView {
        LoadedView { settings: self.settings@, persist: self.persist }
    }
}

/// An event to announce, with the text it carries.
#[derive(Clone, Debug)]
pub struct Notice {
    pub event: String,
    pub payload: String,
}

/// What a `Notice` stands for.
pub struct NoticeView {
    pub event: Seq<char>,
    pub payload: Seq<char>,
}

impl View for Notice {
    type V = NoticeView;

    open spec fn view(&self) -> NoticeView {
        NoticeView { event: self.event@, payload: self.payload@ }
    }
}

/// The default journal directory: `MyJournal` inside the user's documents
/// directory, or `./MyJournal` where the user has none.
pub open spec fn default_directory(documents: Option<Seq<char>>) -> Seq<char> {
    match documents {
        Some(d) => joined(d, "MyJournal"@),
        None => "./MyJournal"@,
    }
}

/// Where the settings are stored: `text_log/settings.json` inside the user's
/// configuration directory, or inside `.` where the user has none.
pub open spec fn settings_path(config: Option<Seq<char>>) -> Seq<char> {
    let base = match config {
        Some(c) => c,
        None => "."@,
    };
    joined(joined(base, "text_log"@), "settings.json"@)
}

/// The settings to start with: those found, or else the default ones, which
/// are then to be stored.
pub open spec fn loaded(stored: StoredView, documents: Option<Seq<char>>) -> LoadedView {
    match stored {
        StoredView::Found(settings) => LoadedView { settings, persist: false },
        _ => LoadedView {
            settings: SettingsView { journal_directory: default_directory(documents) },
            persist: true,
        },
    }
}

/// The announcement that the journal directory is now `path`.
pub open spec fn directory_changed(path: Seq<char>) -> NoticeView {
    NoticeView { event: "directory-changed"@, payload: path }
}

/// Asks `dirs::document_dir` for the user's documents directory.
///
/// Trusted, with nothing claimed: the answer depends on the platform and the
/// user's environment. A path that is not valid Unicode is given with the
/// replacement character in place of what is not.
#[verifier::external_body]
fn document_dir() -> Option<String> {
    match dirs::document_dir() {
        Some(path) => Some(path.to_string_lossy().into_owned()),
        None => None,
    }
}

/// Asks `dirs::config_dir` for the user's configuration directory.
///
/// Trusted, with nothing claimed: the answer depends on the platform and the
/// user's environment. A path that is not valid Unicode is given with the
/// replacement character in place of what is not.
#[verifier::external_body]
fn config_dir() -> Option<String> {
    match dirs::config_dir() {
        Some(path) => Some(path.to_string_lossy().into_owned()),
        None => None,
    }
}

impl AppSettings {
    /// Settings with the given journal directory.
    pub fn new(journal_directory: String) -> (settings: AppSettings)
        ensures
            settings@.journal_directory == journal_directory@,
    {
        AppSettings { journal_directory }
    }

    /// The default settings for a user whose documents directory is
    /// `documents`.
    pub fn default_in(documents: Option<String>) -> (settings: AppSettings)
        ensures
            settings@.journal_directory == default_directory(documents.deep_view()),
    {
        match documents {
            Some(d) => AppSettings { journal_directory: join(d.as_str(), "MyJournal") },
            None => AppSettings { journal_directory: "./MyJournal".to_owned() },
        }
    }

    /// The default settings for the current user.
    pub fn default() -> (settings: AppSettings)
        ensures
            exists|documents: Option<Seq<char>>|
                settings@.journal_directory == default_directory(documents),
    {
        let documents = document_dir();
        let settings = AppSettings::default_in(documents);
        settings
    }

    /// Where the settings are stored for a user whose configuration directory
    /// is `config`.
    pub fn settings_path_in(config: Option<String>) -> (path: String)
        ensures
            path@ == settings_path(config.deep_view()),
    {
        let folder = match config {
            Some(c) => join(c.as_str(), "text_log"),
            None => join(".", "text_log"),
        };
        join(folder.as_str(), "settings.json")
    }

    /// Where the settings are stored for the current user.
    pub fn get_settings_path() -> (path: String)
        ensures
            exists|config: Option<Seq<char>>| path@ == settings_path(config),
    {
        let config = config_dir();
        let path = AppSettings::settings_path_in(config);
        path
    }

    /// The settings to start with, given what the settings file held, for a
    /// user whose documents directory is `documents`.
    pub fn load_in(stored: StoredSettings, documents: Option<String>) -> (out: Loaded)
        ensures
            out@ == loaded(stored@, documents.deep_view()),
    {
        match stored {
            StoredSettings::Found(settings) => Loaded { settings, persist: false },
            _ => Loaded { settings: AppSettings::default_in(documents), persist: true },
        }
    }

    /// The settings to start with, given what the settings file held. The
    /// documents directory is asked for only when the default is needed.
    pub fn load(stored: StoredSettings) -> (out: Loaded)
        ensures
            exists|documents: Option<Seq<char>>| out@ == loaded(stored@, documents),
    {
        match stored {
            StoredSettings::Found(settings) => {
                let out = Loaded { settings, persist: false };
                assert(out@ == loaded(stored@, None));
                out
            },
            _ => AppSettings::load_in(stored, document_dir()),
        }
    }

    /// The journal directory.
    pub fn get_directory(&self) -> (path: String)
        ensures
            path@ == self@.journal_directory,
    {
        self.journal_directory.clone()
    }

    /// Makes `new_path` the journal directory. The path is not examined. The
    /// caller then stores the settings; whether that succeeds does not touch
    /// the value held here.
    pub fn set_directory(&mut self, new_path: String)
        ensures
            final(self)@ == old(self)@.with_directory(new_path@),
    {
        self.journal_directory = new_path;
    }

    /// Takes the answer of a folder picker. A picked folder becomes the
    /// journal directory, and the notice to send is returned: the caller then
    /// stores the settings and announces the change. With no folder picked,
    /// nothing changes and there is nothing to announce.
    pub fn choose_directory(&mut self, picked: Option<String>) -> (notice: Option<Notice>)
        ensures
            picked is None ==> *final(self) == *old(self) && notice is None,
            picked matches Some(path) ==> {
                &&& final(self)@ == old(self)@.with_directory(path@)
                &&& notice matches Some(n) && n@ == directory_changed(path@)
            },
    {
        match picked {
            Some(path) => {
                let payload = path.clone();
                self.set_directory(path);
                Some(Notice { event: "directory-changed".to_owned(), payload })
            },
            None => None,
        }
    }
}

/// Settings loaded when the settings file is missing are the default ones,
/// and they are to be stored.
pub proof fn lemma_missing_file_gives_default(documents: Option<Seq<char>>)
    ensures
        loaded(StoredView::Missing, documents).settings.journal_directory == default_directory(
            documents,
        ),
        loaded(StoredView::Missing, documents).persist,
{
}

/// A settings file that does not hold settings is treated exactly as a
/// missing one.
pub proof fn lemma_malformed_file_is_as_missing(documents: Option<Seq<char>>)
    ensures
        loaded(StoredView::Malformed, documents) == loaded(StoredView::Missing, documents),
{
}

/// After the journal directory is set to `path`, the journal directory is
/// `path`, whatever it was before.
pub proof fn lemma_set_then_get(before: SettingsView, path: Seq<char>)
    ensures
        before.with_directory(path).journal_directory == path,
{
}

} // verus!
