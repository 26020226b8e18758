//! Journal entries: the block of text written for one, the file of the day it
//! goes to, and what is shown of that file.

use crate::moment::{file_name_text, local_now, timestamp_text, Moment, MomentView};
use crate::paths::{join, joined};
use crate::settings::{AppSettings, SettingsView};
use vstd::prelude::*;

verus! {

/// The block of text that one entry adds to its file: the timestamp in
/// brackets on a line of its own, the content as it was given, an empty line,
/// a line `---`, and an empty line.
pub open spec fn entry_block(timestamp: Seq<char>, content: Seq<char>) -> Seq<char> {
    "["@ + timestamp + "]\n"@ + content + "\n\n---\n\n"@
}

/// An entry to write: the directory to create if it is absent, the file in it
/// to open for appending, and the text to append.
#[derive(Clone, Debug)]
pub struct EntryWrite {
    pub directory: String,
    pub path: String,
    pub text: String,
}

/// What an `EntryWrite` stands for.
pub struct EntryWriteView {
    pub directory: Seq<char>,
    pub path: Seq<char>,
    pub text: Seq<char>,
}

impl View for EntryWrite {
    type V = EntryWriteView;

    open spec fn view(&self) -> EntryWriteView {
        EntryWriteView { directory: self.directory@, path: self.path@, text: self.text@ }
    }
}

/// The path of the file that holds the entries of the day of `now`.
pub open spec fn day_file(settings: SettingsView, now: MomentView) -> Seq<char> {
    joined(settings.journal_directory, file_name_text(now))
}

/// The write that stores `content` as an entry made at `now`.
pub open spec fn entry_write(
    settings: SettingsView,
    now: MomentView,
    content: Seq<char>,
) -> EntryWriteView {
    EntryWriteView {
        directory: settings.journal_directory,
        path: day_file(settings, now),
        text: entry_block(timestamp_text(now), content),
    }
}

/// The contents of a file after `text` is appended to it; `before` is `None`
/// where the file does not exist yet.
pub open spec fn appended(before: Option<Seq<char>>, text: Seq<char>) -> Seq<char> {
    match before {
        Some(contents) => contents + text,
        None => text,
    }
}

/// What came of reading the file of the day.
#[derive(Clone, Debug)]
pub enum FileRead {
    /// The file was read and holds this text.
    Contents(String),
    /// There is no such file.
    Missing,
    /// The file is there and could not be read.
    Unreadable,
}

/// What a `FileRead` stands for.
pub enum FileReadView {
    Contents(Seq<char>),
    Missing,
    Unreadable,
}

impl View for FileRead {
    type V = FileReadView;

    open spec fn view(&self) -> FileReadView {
        match self {
            FileRead::Contents(text) => FileReadView::Contents(text@),
            FileRead::Missing => FileReadView::Missing,
            FileRead::Unreadable => FileReadView::Unreadable,
        }
    }
}

/// The text shown for the file of the day: its contents, and nothing where it
/// is missing or could not be read.
pub open spec fn shown(read: FileReadView) -> Seq<char> {
    match read {
        FileReadView::Contents(text) => text,
        _ => Seq::empty(),
    }
}

/// The block of text for an entry with the given timestamp and content.
pub fn format_entry(timestamp: &str, content: &str) -> (text: String)
    ensures
        text@ == entry_block(timestamp@, content@),
{
    let mut text = "[".to_owned();
    text.append(timestamp);
    text.append("]\n");
    text.append(content);
    text.append("\n\n---\n\n");
    text
}

/// The write that stores `content` as an entry made at `now`.
pub fn save_entry_at(settings: &AppSettings, now: &Moment, content: &str) -> (write: EntryWrite)
    ensures
        write@ == entry_write(settings@, now@, content@),
{
    let timestamp = now.timestamp();
    EntryWrite {
        directory: settings.get_directory(),
        path: current_file_at(settings, now),
        text: format_entry(timestamp.as_str(), content),
    }
}

/// The write that stores `content` as an entry made now, by the local clock.
/// The timestamp and the file name come from one reading of the clock.
pub fn save_entry(settings: &AppSettings, content: &str) -> (write: EntryWrite)
    ensures
        exists|now: MomentView| now.valid() && write@ == entry_write(settings@, now, content@),
{
    let now = local_now();
    save_entry_at(settings, &now, content)
}

/// The path of the file that holds the entries of the day of `now`.
pub fn current_file_at(settings: &AppSettings, now: &Moment) -> (path: String)
    ensures
        path@ == day_file(settings@, now@),
{
    let directory = settings.get_directory();
    let name = now.file_name();
    join(directory.as_str(), name.as_str())
}

/// The path of the file that holds today's entries, by the local clock.
pub fn current_file(settings: &AppSettings) -> (path: String)
    ensures
        exists|now: MomentView| now.valid() && path@ == day_file(settings@, now),
{
    let now = local_now();
    current_file_at(settings, &now)
}

/// The text to show for the file of the day, given what came of reading it.
/// A file that is missing or cannot be read shows as empty; neither is an
/// error.
pub fn read_current_file(read: FileRead) -> (text: String)
    ensures
        text@ == shown(read@),
{
    match read {
        FileRead::Contents(text) => text,
        _ => String::new(),
    }
}

/// Two entries made on one day, with the same settings, go to one file, and
/// after both that file ends with the block of the first followed by the block
/// of the second: what was there before stays in front, and nothing is merged
/// or reordered.
pub proof fn lemma_same_day_entries_share_a_file(
    settings: SettingsView,
    first: MomentView,
    second: MomentView,
    first_content: Seq<char>,
    second_content: Seq<char>,
    before: Option<Seq<char>>,
)
    requires
        first.same_day(second),
    ensures
        entry_write(settings, first, first_content).path == entry_write(
            settings,
            second,
            second_content,
        ).path,
        appended(
            Some(appended(before, entry_write(settings, first, first_content).text)),
            entry_write(settings, second, second_content).text,
        ) == appended(before, Seq::empty()) + entry_block(timestamp_text(first), first_content)
            + entry_block(timestamp_text(second), second_content),
{
}

/// Before the day has an entry its file shows as empty, and after one entry
/// is written to the absent file, the file shows exactly the text of that
/// write.
pub proof fn lemma_read_after_first_entry(
    settings: SettingsView,
    now: MomentView,
    content: Seq<char>,
)
    ensures
        shown(FileReadView::Missing) == Seq::<char>::empty(),
        shown(FileReadView::Contents(appended(None, entry_write(settings, now, content).text)))
            == entry_write(settings, now, content).text,
{
}

/// The content of an entry stands in its block as it was given, whatever it
/// holds, line breaks and `---` included: the block is the timestamp line,
/// then the content, then the closing lines, and the content can be cut out of
/// it again by position. Nothing is escaped on the way in, and nothing has to
/// be undone on the way out.
pub proof fn lemma_content_is_verbatim(timestamp: Seq<char>, content: Seq<char>)
    ensures
        entry_block(timestamp, content) == ("["@ + timestamp + "]\n"@) + content
            + "\n\n---\n\n"@,
        entry_block(timestamp, content).len() == timestamp.len() + content.len() + 10,
        entry_block(timestamp, content).subrange(
            timestamp.len() as int + 3,
            timestamp.len() as int + 3 + content.len() as int,
        ) == content,
        shown(FileReadView::Contents(appended(None, entry_block(timestamp, content)))).subrange(
            timestamp.len() as int + 3,
            timestamp.len() as int + 3 + content.len() as int,
        ) == content,
{
    reveal_strlit("[");
    reveal_strlit("]\n");
    reveal_strlit("\n\n---\n\n");
}

/// An entry goes to the directory that the settings name when it is made:
/// after the directory is set to `path`, the next entry is written inside
/// `path`, whatever the directory was before.
pub proof fn lemma_entry_follows_directory(
    before: SettingsView,
    path: Seq<char>,
    now: MomentView,
    content: Seq<char>,
)
    ensures
        entry_write(before.with_directory(path), now, content).directory == path,
        entry_write(before.with_directory(path), now, content).path == joined(
            path,
            file_name_text(now),
        ),
{
}

} // verus!
