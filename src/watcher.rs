//! Which change notifications are handed on to the organizer.

use vstd::prelude::*;
use crate::utils::{is_hidden_file, is_hidden_path, join, joined};

verus! {

/// Watches one directory, not recursively, for new and changed files.
pub struct FileWatcher {
    pub watch_path: String,
}

impl FileWatcher {
    pub fn new(watch_path: String) -> (r: Self)
        ensures
            r.watch_path@ == watch_path@,
    {
        FileWatcher { watch_path }
    }

    /// Whether a path from a change notification goes to the organizer: it comes from
    /// a create or modify event, it is a regular file, and it is not hidden.
    pub fn should_forward(created_or_modified: bool, is_file: bool, path: &str) -> (r: bool)
        ensures
            r == (created_or_modified && is_file && !is_hidden_path(path@)),
    {
        created_or_modified && is_file && !is_hidden_file(path)
    }

    /// The directory watched by default: `Downloads` under the home directory.
    pub fn default_watch_path(home: &str) -> (r: String)
        ensures
            r@ == joined(home@, "Downloads"@),
    {
        join(home, "Downloads")
    }
}

} // verus!
