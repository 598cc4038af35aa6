//! Find-and-replace over a directory tree: the rules of the sweep.
//!
//! The crate holds what a sweep decides: how a text is rewritten, how the
//! bytes of a file are decoded and encoded again, what happens to one entry of
//! the tree and what is reported about it. Reading, writing, renaming and the
//! worker pool belong to the program around it.

pub mod errors;
pub mod path;
pub mod text;
pub mod report;
pub mod pattern;
pub mod substitute;
pub mod transcode;
pub mod rename;

pub use errors::{ConvertToUtf8, Error, ExceptDisplay, Expect};
pub use path::{AsHumanizedString, PathText, Platform};
pub use rename::{
    handle_work, process_file_content, process_file_name, Action, ContentStep, Event, NameStep,
    Progress, RenameMode, RenameWork, Stage,
};
pub use substitute::replace;
