//! The messages the watch loop receives.

use vstd::prelude::*;

verus! {

/// What the app builder reports.
#[derive(Debug, Clone, PartialEq, Eq)]
pub enum BuilderUpdate {
    BuildStartet,
    BuildFinished,
    ReloadWeb,
    /// The configuration changed; it is carried as the text it displays as,
    /// which is all the watch loop reads of it.
    ConfigChange(String),
}

/// What the watch loop waits for: files that changed, or news from the
/// builder.
#[derive(Debug, Clone, PartialEq, Eq)]
pub enum Message {
    FilesChanged { files: Vec<String> },
    BuildUpdate(BuilderUpdate),
}

} // verus!
