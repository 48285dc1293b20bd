//! The engines that put an entity on disk, and what they report.
use vstd::prelude::*;

pub mod git;
pub mod http_file;

pub use git::{GitBackup, GitEngine};
pub use http_file::{HttpFileBackup, HttpFileEngine};

use crate::text::join;

verus! {

/// The outcome of backing up one entity. The detail, where there is one, is
/// a short text for the person reading the log.
#[derive(Clone, Debug, PartialEq, Eq)]
pub enum BackupState {
    Skipped,
    New(Option<String>),
    Updated(Option<String>),
    Unchanged(Option<String>),
}

/// The outcome of a backup as a mathematical object.
pub enum BackupStateView {
    Skipped,
    New(Option<Seq<char>>),
    Updated(Option<Seq<char>>),
    Unchanged(Option<Seq<char>>),
}

/// The view of a detail.
pub open spec fn detail_view(detail: Option<String>) -> Option<Seq<char>> {
    match detail {
        Some(s) => Some(s@),
        None => None,
    }
}

impl View for BackupState {
    type V = BackupStateView;

    open spec fn view(&self) -> BackupStateView {
        match self {
            BackupState::Skipped => BackupStateView::Skipped,
            BackupState::New(d) => BackupStateView::New(detail_view(*d)),
            BackupState::Updated(d) => BackupStateView::Updated(detail_view(*d)),
            BackupState::Unchanged(d) => BackupStateView::Unchanged(detail_view(*d)),
        }
    }
}

/// `word`, and after it a blank and the detail where there is one.
pub open spec fn with_detail(word: Seq<char>, detail: Option<Seq<char>>) -> Seq<char> {
    match detail {
        Some(d) => word + " "@ + d,
        None => word,
    }
}

/// How an outcome reads in the log.
pub open spec fn state_text(state: BackupStateView) -> Seq<char> {
    match state {
        BackupStateView::Skipped => "skipped"@,
        BackupStateView::New(d) => with_detail("new"@, d),
        BackupStateView::Updated(d) => with_detail("updated"@, d),
        BackupStateView::Unchanged(d) => with_detail("unchanged"@, d),
    }
}

fn worded(word: &str, detail: &Option<String>) -> (out: String)
    ensures
        out@ == with_detail(word@, detail_view(*detail)),
{
    match detail {
        Some(d) => {
            let mut out = join(word, " ");
            out.append(d.as_str());
            out
        },
        None => String::from_str(word),
    }
}

impl BackupState {
    /// The outcome as it is shown to a person.
    pub fn to_string(&self) -> (out: String)
        ensures
            out@ == state_text(self@),
    {
        match self {
            BackupState::Skipped => String::from_str("skipped"),
            BackupState::New(d) => worded("new", d),
            BackupState::Updated(d) => worded("updated", d),
            BackupState::Unchanged(d) => worded("unchanged", d),
        }
    }
}

} // verus!
