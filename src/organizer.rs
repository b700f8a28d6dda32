//! The per-file decisions of the organizer: whether a file is taken up, and where a
//! classified file goes. Each file is decided on its own; no outcome stops the others.

use vstd::prelude::*;
use crate::categorizer::Categorizer;
use crate::detector::{detected, ext_category, signature_category, signature_of, FileCategory, FileDetector};
use crate::matcher::SubfolderMatcher;
use crate::preprocessor::PreprocessorPipeline;
use crate::utils::{extension_of, lower_of};

verus! {

/// Why a file is left where it is.
#[derive(Debug, Clone, Copy, PartialEq, Eq, Structural)]
pub enum SkipReason {
    /// The path no longer exists.
    Missing,
    /// The path is not a regular file.
    NotAFile,
    /// The file's category is `Unknown`.
    UnknownType,
    /// No rule gives a destination for the file's category.
    NoRule,
}

/// What becomes of a file.
#[derive(Debug)]
pub enum Disposition {
    /// Left in place.
    Skip(SkipReason),
    /// Filed under this top-level destination (before the subfolder search).
    Deliver(FileCategory, String),
}

/// The disposition of a file of category `c` under the rules of `rules`.
pub open spec fn routed(rules: Categorizer, c: FileCategory, r: Disposition) -> bool {
    if c == FileCategory::Unknown {
        r == Disposition::Skip(SkipReason::UnknownType)
    } else {
        match rules.rule_for(c) {
            None => r == Disposition::Skip(SkipReason::NoRule),
            Some(x) => r matches Disposition::Deliver(k, d) && k == c && d@ == x.destination@,
        }
    }
}

pub open spec fn content_view(content: Option<&[u8]>) -> Option<Seq<u8>> {
    match content {
        Some(b) => Some(b@),
        None => None,
    }
}

/// Organizes files: preprocessing, classification, rule table, subfolder search.
pub struct FileOrganizer {
    pub categorizer: Categorizer,
    pub matcher: SubfolderMatcher,
    pub preprocessor: PreprocessorPipeline,
}

impl FileOrganizer {
    pub fn new(
        categorizer: Categorizer,
        matcher: SubfolderMatcher,
        preprocessor: PreprocessorPipeline,
    ) -> (r: Self)
        ensures
            r.categorizer == categorizer,
            r.matcher == matcher,
            r.preprocessor == preprocessor,
    {
        FileOrganizer { categorizer, matcher, preprocessor }
    }

    /// Whether a path from the watcher is taken up: `None` where it is, else why not.
    /// A path that vanished or is not a regular file is skipped quietly.
    pub fn accept_path(exists: bool, is_file: bool) -> (r: Option<SkipReason>)
        ensures
            !exists ==> r == Some(SkipReason::Missing),
            exists && !is_file ==> r == Some(SkipReason::NotAFile),
            exists && is_file ==> r is None,
    {
        if !exists {
            Some(SkipReason::Missing)
        } else if !is_file {
            Some(SkipReason::NotAFile)
        } else {
            None
        }
    }

    /// Where a file of category `category` goes: skipped where it is `Unknown` or has
    /// no rule, else to its rule's destination.
    pub fn route_category(&self, category: FileCategory) -> (r: Disposition)
        ensures
            routed(self.categorizer, category, r),
    {
        if category == FileCategory::Unknown {
            return Disposition::Skip(SkipReason::UnknownType);
        }
        match self.categorizer.get_destination(&category) {
            Some(d) => Disposition::Deliver(category, d.clone()),
            None => Disposition::Skip(SkipReason::NoRule),
        }
    }

    /// Classifies the (preprocessed) file at `path` from its content (`None` where it
    /// could not be read), and decides where it goes.
    pub fn route(&self, path: &str, content: Option<&[u8]>) -> (r: Disposition)
        ensures
            routed(self.categorizer, detected(path@, content_view(content)), r),
    {
        let category = FileDetector::detect_category(path, content);
        self.route_category(category)
    }
}

/// A file with an extension outside the table, whose content is unreadable, empty or
/// without a deciding signature, is left in place as of unknown type, whatever the
/// rules; this is a skip, not an error.
pub proof fn lemma_unrecognized_left_in_place(
    rules: Categorizer,
    path: Seq<char>,
    content: Option<Seq<u8>>,
    r: Disposition,
)
    requires
        match extension_of(path) {
            Some(e) => ext_category(lower_of(e)) == FileCategory::Unknown,
            None => true,
        },
        match content {
            Some(b) => b.len() == 0 || match signature_of(b) {
                Some(k) => signature_category(k) is None,
                None => true,
            },
            None => true,
        },
        routed(rules, detected(path, content), r),
    ensures
        r == Disposition::Skip(SkipReason::UnknownType),
{
}

} // verus!
