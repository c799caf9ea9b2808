//! Entries of a walk, and the rule that picks the ones to write out.

use crate::path::{PathText, SpecPathText};
use crate::pattern::{ignored, should_ignore};
use crate::text::texts;
use vstd::prelude::*;

verus! {

/// What kind of thing a walk found at a path.
#[derive(Clone, Copy, Debug, PartialEq, Eq, Structural)]
pub enum EntryKind {
    /// A regular file: the only kind that is ever written out.
    File,
    /// A directory: walked through, never written out.
    Directory,
    /// Anything else.
    Other,
}

/// One entry that a walk found.
#[derive(Clone, Debug, PartialEq, Eq)]
pub struct Entry {
    /// The path as the walk reports it, the root included.
    pub path: PathText,
    /// The same path with the root taken off its front, or `None` where the
    /// path does not start with the root.
    pub relative: Option<PathText>,
    /// What was found there.
    pub kind: EntryKind,
}

/// What an `Entry` holds, as sequences of characters.
pub struct SpecEntry {
    pub path: SpecPathText,
    pub relative: Option<SpecPathText>,
    pub kind: EntryKind,
}

impl SpecEntry {
    /// The path an entry is matched and written by: the root-relative path,
    /// or the full path where the root could not be taken off.
    pub open spec fn relative_path(self) -> SpecPathText {
        match self.relative {
            Some(relative) => relative,
            None => self.path,
        }
    }

    /// An entry is written out when it is a regular file whose relative path
    /// the list does not ignore.
    pub open spec fn is_candidate(self, ignore_list: Seq<Seq<char>>) -> bool {
        self.kind == EntryKind::File && !ignored(self.relative_path().match_key(), ignore_list)
    }
}

impl View for Entry {
    type V = SpecEntry;

    open spec fn view(&self) -> SpecEntry {
        SpecEntry {
            path: self.path@,
            relative: match self.relative {
                Some(relative) => Some(relative@),
                None => None,
            },
            kind: self.kind,
        }
    }
}

impl Entry {
    /// The path this entry is matched and written by.
    pub fn relative_path(&self) -> (relative: &PathText)
        ensures
            relative@ == self@.relative_path(),
    {
        match &self.relative {
            Some(relative) => relative,
            None => &self.path,
        }
    }

    /// Decides whether this entry is written out under `ignore_list`.
    pub fn is_candidate(&self, ignore_list: &[String]) -> (keep: bool)
        ensures
            keep == self@.is_candidate(texts(ignore_list@)),
    {
        match self.kind {
            EntryKind::File => !should_ignore(self.relative_path(), ignore_list),
            _ => false,
        }
    }
}

} // verus!
