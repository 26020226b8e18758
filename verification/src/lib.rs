//! A daily plain-text journal.
//!
//! Entries are appended, each under a timestamp, to one text file per
//! calendar day inside a directory that the user chooses. This library holds
//! what is decided: the default directory and where the settings are stored,
//! how loaded settings and a picked folder are taken up, the name of a day's
//! file, and the exact text of an entry. Reading and writing the files is left
//! to the caller, who gets plain values to act on and hands plain values back.
//!
//! - [`settings`]: the journal directory, its default, loading and changing it.
//! - [`moment`]: a local date and time, its timestamp and its file name.
//! - [`journal`]: the text of an entry, the file it goes to, and what is shown
//!   of the day's file.
//! - [`paths`]: joining a directory and a name.

pub mod journal;
pub mod moment;
pub mod paths;
pub mod settings;
