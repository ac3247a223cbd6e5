//! How the handling of one file ended.

use vstd::prelude::*;

use crate::errors::{error_views, FileError, FileErrorView};

verus! {

/// The end of one file's handling: copied, or failed with the errors that
/// stopped it, in the order in which they were found.
#[derive(Clone, Debug, PartialEq, Eq)]
pub enum FileOutcome {
    Success,
    Failure(Vec<FileError>),
}

/// A `FileOutcome` as plain values.
pub enum FileOutcomeView {
    Success,
    Failure(Seq<FileErrorView>),
}

impl View for FileOutcome {
    type V = FileOutcomeView;

    open spec fn view(&self) -> FileOutcomeView {
        match self {
            FileOutcome::Success => FileOutcomeView::Success,
            FileOutcome::Failure(errors) => FileOutcomeView::Failure(error_views(errors@)),
        }
    }
}

impl FileOutcomeView {
    /// A failure names at least one error.
    pub open spec fn wf(self) -> bool {
        self matches FileOutcomeView::Failure(errors) ==> errors.len() > 0
    }
}

impl FileOutcome {
    /// A failure names at least one error.
    pub open spec fn wf(&self) -> bool {
        self@.wf()
    }

    /// The failure with exactly one error.
    pub fn failed_with(error: FileError) -> (outcome: FileOutcome)
        ensures
            outcome@ == FileOutcomeView::Failure(seq![error@]),
            outcome.wf(),
    {
        let mut errors: Vec<FileError> = Vec::new();
        errors.push(error);
        assert(error_views(errors@) =~= seq![error@]);
        FileOutcome::Failure(errors)
    }

    /// Whether the file was copied.
    pub fn is_success(&self) -> (b: bool)
        ensures
            b == (self@ is Success),
    {
        match self {
            FileOutcome::Success => true,
            FileOutcome::Failure(_) => false,
        }
    }
}

} // verus!
