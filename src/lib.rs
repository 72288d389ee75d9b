//! Typed front-end to the `jj` command-line tool.
//!
//! The [`Commander`] turns intents ("create a bookmark at commit C", "push all
//! bookmarks") into argument vectors, hands them to a runner supplied by the
//! caller, records every invocation in a [`CommandHistory`] and interprets the
//! runner's outcome as a typed result.
pub mod commander;
pub mod entities;
pub mod history;
pub mod jj;
pub mod laws;
pub mod listing;
pub mod outcome;
pub mod scroll;

pub use commander::Commander;
pub use entities::{Bookmark, CommitId, Head};
pub use history::{CommandHistory, HistoryEntry};
pub use outcome::{CommandError, ContextError, RunOutcome};
pub use scroll::{ScrollEvent, ScrollState};
