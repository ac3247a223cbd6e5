//! The handling of one file, step by step: read its tags, check them, build
//! its destination, make the directories, copy, and remove the source where
//! that is asked for.
//!
//! Reading, copying and removing are done by the caller. After each of them
//! the caller says what happened, and `step` decides what comes next.

use id3::Tag;
use vstd::prelude::*;

use crate::errors::{
    copy_error, directory_error, invalid_target_error, read_failure_error, FileError,
    FileErrorView,
};
use crate::outcome::{FileOutcome, FileOutcomeView};
use crate::tags::{
    album_artist_text, album_text, lemma_validation_total, missing_errors, required_tags,
    title_text, validated,
};
use crate::target::{generate_target_path, target_of, TargetPath, TargetPathView};

verus! {

/// What stays the same while one file is handled.
#[derive(Clone, Debug, PartialEq, Eq)]
pub struct Job {
    /// The name of the source file, without its directories.
    pub source_file_name: String,
    /// The directory under which the files are sorted.
    pub root: String,
    /// Whether the source is removed once it has been copied.
    pub remove_source: bool,
}

/// A `Job` as plain values.
pub struct JobView {
    pub source_file_name: Seq<char>,
    pub root: Seq<char>,
    pub remove_source: bool,
}

impl View for Job {
    type V = JobView;

    open spec fn view(&self) -> JobView {
        JobView {
            source_file_name: self.source_file_name@,
            root: self.root@,
            remove_source: self.remove_source,
        }
    }
}

/// How far the handling of a file has come.
#[derive(Clone, Debug, PartialEq, Eq)]
pub enum FileState {
    /// Nothing has been done yet.
    Start,
    /// The tags are being read.
    Validating,
    /// The tags were in order; the directories of `target` are being made.
    PathBuilt { target: TargetPath },
    /// The directories are there; the file is being copied to `target`.
    Copying { target: TargetPath },
    /// The file was copied; its source is being removed.
    RemovingSource,
    /// The handling has ended. `warning` holds what the storage said where
    /// the source could not be removed.
    Done { outcome: FileOutcome, warning: Option<String> },
}

/// A `FileState` as plain values.
pub enum FileStateView {
    Start,
    Validating,
    PathBuilt { target: TargetPathView },
    Copying { target: TargetPathView },
    RemovingSource,
    Done { outcome: FileOutcomeView, warning: Option<Seq<char>> },
}

impl View for FileState {
    type V = FileStateView;

    open spec fn view(&self) -> FileStateView {
        match self {
            FileState::Start => FileStateView::Start,
            FileState::Validating => FileStateView::Validating,
            FileState::PathBuilt { target } => FileStateView::PathBuilt { target: target@ },
            FileState::Copying { target } => FileStateView::Copying { target: target@ },
            FileState::RemovingSource => FileStateView::RemovingSource,
            FileState::Done { outcome, warning } => FileStateView::Done {
                outcome: outcome@,
                warning: match warning {
                    Some(text) => Some(text@),
                    None => None,
                },
            },
        }
    }
}

/// What the caller is to do next.
#[derive(Clone, Copy, Debug, PartialEq, Eq, Structural)]
pub enum Action {
    /// Read the tags of the source file.
    ReadTags,
    /// Make sure that every directory above the destination exists.
    CreateDirectories,
    /// Copy the source file to the destination, over whatever is there.
    CopyFile,
    /// Remove the source file.
    RemoveSource,
    /// Nothing is left to do but to report the outcome.
    Report,
}

/// What the caller has to say after it has done what it was asked to do.
#[derive(Debug)]
pub enum Event {
    /// Handling begins.
    Begin,
    /// The tags were read.
    TagsRead { tag: Tag },
    /// The tags could not be read: the reader's name for what went wrong,
    /// and its description.
    TagsUnreadable { cause: String, message: String },
    /// The destination, written out as `target`, has no directory above it.
    TargetHasNoParent { target: String },
    /// Every directory above the destination exists.
    DirectoriesReady,
    /// `directory` could not be created.
    DirectoriesFailed { directory: String, cause: String },
    /// The file was copied.
    Copied,
    /// The file could not be copied.
    CopyFailed { cause: String },
    /// The source file was removed.
    SourceRemoved,
    /// The source file could not be removed.
    RemovalFailed { cause: String },
}

/// An `Event` as plain values; of tags that were read, what the three
/// lookups find in them.
pub enum EventView {
    Begin,
    TagsRead { album_artist: Option<Seq<char>>, album: Option<Seq<char>>, title: Option<Seq<char>> },
    TagsUnreadable { cause: Seq<char>, message: Seq<char> },
    TargetHasNoParent { target: Seq<char> },
    DirectoriesReady,
    DirectoriesFailed { directory: Seq<char>, cause: Seq<char> },
    Copied,
    CopyFailed { cause: Seq<char> },
    SourceRemoved,
    RemovalFailed { cause: Seq<char> },
}

impl View for Event {
    type V = EventView;

    open spec fn view(&self) -> EventView {
        match self {
            Event::Begin => EventView::Begin,
            Event::TagsRead { tag } => EventView::TagsRead {
                album_artist: album_artist_text(*tag),
                album: album_text(*tag),
                title: title_text(*tag),
            },
            Event::TagsUnreadable { cause, message } => EventView::TagsUnreadable {
                cause: cause@,
                message: message@,
            },
            Event::TargetHasNoParent { target } => EventView::TargetHasNoParent { target: target@ },
            Event::DirectoriesReady => EventView::DirectoriesReady,
            Event::DirectoriesFailed { directory, cause } => EventView::DirectoriesFailed {
                directory: directory@,
                cause: cause@,
            },
            Event::Copied => EventView::Copied,
            Event::CopyFailed { cause } => EventView::CopyFailed { cause: cause@ },
            Event::SourceRemoved => EventView::SourceRemoved,
            Event::RemovalFailed { cause } => EventView::RemovalFailed { cause: cause@ },
        }
    }
}

/// The end of handling with one error.
pub open spec fn failed(error: FileErrorView) -> FileStateView {
    FileStateView::Done { outcome: FileOutcomeView::Failure(seq![error]), warning: None }
}

/// The end of handling with the file copied.
pub open spec fn succeeded(warning: Option<Seq<char>>) -> FileStateView {
    FileStateView::Done { outcome: FileOutcomeView::Success, warning }
}

/// What a state waits for: the action whose result moves it on.
pub open spec fn awaited(state: FileStateView) -> Action {
    match state {
        FileStateView::Start => Action::ReadTags,
        FileStateView::Validating => Action::ReadTags,
        FileStateView::PathBuilt { .. } => Action::CreateDirectories,
        FileStateView::Copying { .. } => Action::CopyFile,
        FileStateView::RemovingSource => Action::RemoveSource,
        FileStateView::Done { .. } => Action::Report,
    }
}

/// The state after `event`, and what is to be done next.
///
/// Handling always begins by reading the tags. Tags that cannot be read, or
/// of which one is absent, end it at once. A directory that cannot be made
/// ends it, and so do a destination with no directory above it and a copy
/// that fails. After a copy the source is
/// removed where the job asks for it; a removal that fails leaves the
/// outcome a success and adds a warning. An event that the state does not
/// wait for changes nothing.
pub open spec fn advance(state: FileStateView, event: EventView, job: JobView) -> (
    FileStateView,
    Action,
) {
    match state {
        FileStateView::Start => (FileStateView::Validating, Action::ReadTags),
        FileStateView::Validating => match event {
            EventView::TagsRead { album_artist, album, title } => match validated(
                album_artist,
                album,
                title,
            ) {
                Ok(tags) => (
                    FileStateView::PathBuilt {
                        target: target_of(job.source_file_name, job.root, tags),
                    },
                    Action::CreateDirectories,
                ),
                Err(errors) => (
                    FileStateView::Done {
                        outcome: FileOutcomeView::Failure(errors),
                        warning: None,
                    },
                    Action::Report,
                ),
            },
            EventView::TagsUnreadable { cause, message } => (
                failed(read_failure_error(cause, message)),
                Action::Report,
            ),
            _ => (state, Action::ReadTags),
        },
        FileStateView::PathBuilt { target } => match event {
            EventView::DirectoriesReady => (FileStateView::Copying { target }, Action::CopyFile),
            EventView::DirectoriesFailed { directory, cause } => (
                failed(directory_error(directory, cause)),
                Action::Report,
            ),
            EventView::TargetHasNoParent { target: written } => (
                failed(invalid_target_error(written)),
                Action::Report,
            ),
            _ => (state, Action::CreateDirectories),
        },
        FileStateView::Copying { target } => match event {
            EventView::Copied => if job.remove_source {
                (FileStateView::RemovingSource, Action::RemoveSource)
            } else {
                (succeeded(None), Action::Report)
            },
            EventView::CopyFailed { cause } => (failed(copy_error(cause)), Action::Report),
            _ => (state, Action::CopyFile),
        },
        FileStateView::RemovingSource => match event {
            EventView::SourceRemoved => (succeeded(None), Action::Report),
            EventView::RemovalFailed { cause } => (succeeded(Some(cause)), Action::Report),
            _ => (state, Action::RemoveSource),
        },
        FileStateView::Done { .. } => (state, Action::Report),
    }
}

impl FileStateView {
    /// An ended handling that failed names an error, and only a success
    /// carries a warning.
    pub open spec fn wf(self) -> bool {
        self matches FileStateView::Done { outcome, warning } ==> outcome.wf() && (warning is Some
            ==> outcome is Success)
    }

    /// How many steps the state is from the start.
    pub open spec fn rank(self) -> nat {
        match self {
            FileStateView::Start => 0,
            FileStateView::Validating => 1,
            FileStateView::PathBuilt { .. } => 2,
            FileStateView::Copying { .. } => 3,
            FileStateView::RemovingSource => 4,
            FileStateView::Done { .. } => 5,
        }
    }
}

impl FileState {
    /// An ended handling that failed names an error, and only a success
    /// carries a warning.
    pub open spec fn wf(&self) -> bool {
        self@.wf()
    }

    /// Whether the handling has ended.
    pub fn is_done(&self) -> (b: bool)
        ensures
            b == (self@ is Done),
    {
        match self {
            FileState::Done { .. } => true,
            _ => false,
        }
    }

    /// The destination, from the moment it is built until the copy ends.
    pub fn target(&self) -> (target: Option<&TargetPath>)
        ensures
            match self@ {
                FileStateView::PathBuilt { target: t } => target matches Some(found) && found@ == t,
                FileStateView::Copying { target: t } => target matches Some(found) && found@ == t,
                _ => target is None,
            },
    {
        match self {
            FileState::PathBuilt { target } => Some(target),
            FileState::Copying { target } => Some(target),
            _ => None,
        }
    }
}

/// Takes the handling of one file one step further: from the state it is
/// in and what the caller reports, to the next state and what the caller is
/// to do next. See `advance` for every case.
pub fn step(state: FileState, event: Event, job: &Job) -> (next: (FileState, Action))
    ensures
        next.0@ == advance(state@, event@, job@).0,
        next.1 == advance(state@, event@, job@).1,
        state.wf() ==> next.0.wf(),
{
    proof {
        if state.wf() {
            lemma_advance_keeps_wf(state@, event@, job@);
        }
    }
    match state {
        FileState::Start => (FileState::Validating, Action::ReadTags),
        FileState::Validating => match event {
            Event::TagsRead { tag } => match required_tags(&tag) {
                Ok(tags) => {
                    let target = generate_target_path(
                        job.source_file_name.as_str(),
                        job.root.as_str(),
                        tags,
                    );
                    (FileState::PathBuilt { target }, Action::CreateDirectories)
                },
                Err(errors) => (
                    FileState::Done { outcome: FileOutcome::Failure(errors), warning: None },
                    Action::Report,
                ),
            },
            Event::TagsUnreadable { cause, message } => {
                let error = FileError::read_failure(cause.as_str(), message.as_str());
                (
                    FileState::Done { outcome: FileOutcome::failed_with(error), warning: None },
                    Action::Report,
                )
            },
            _ => (FileState::Validating, Action::ReadTags),
        },
        FileState::PathBuilt { target } => match event {
            Event::DirectoriesReady => (FileState::Copying { target }, Action::CopyFile),
            Event::DirectoriesFailed { directory, cause } => {
                let error = FileError::directory_failure(directory.as_str(), cause.as_str());
                (
                    FileState::Done { outcome: FileOutcome::failed_with(error), warning: None },
                    Action::Report,
                )
            },
            Event::TargetHasNoParent { target: written } => {
                let error = FileError::invalid_target(written.as_str());
                (
                    FileState::Done { outcome: FileOutcome::failed_with(error), warning: None },
                    Action::Report,
                )
            },
            _ => (FileState::PathBuilt { target }, Action::CreateDirectories),
        },
        FileState::Copying { target } => match event {
            Event::Copied => if job.remove_source {
                (FileState::RemovingSource, Action::RemoveSource)
            } else {
                (FileState::Done { outcome: FileOutcome::Success, warning: None }, Action::Report)
            },
            Event::CopyFailed { cause } => {
                let error = FileError::copy_failure(cause.as_str());
                (
                    FileState::Done { outcome: FileOutcome::failed_with(error), warning: None },
                    Action::Report,
                )
            },
            _ => (FileState::Copying { target }, Action::CopyFile),
        },
        FileState::RemovingSource => match event {
            Event::SourceRemoved => (
                FileState::Done { outcome: FileOutcome::Success, warning: None },
                Action::Report,
            ),
            Event::RemovalFailed { cause } => (
                FileState::Done { outcome: FileOutcome::Success, warning: Some(cause) },
                Action::Report,
            ),
            _ => (FileState::RemovingSource, Action::RemoveSource),
        },
        FileState::Done { outcome, warning } => (
            FileState::Done { outcome, warning },
            Action::Report,
        ),
    }
}

/// Every step keeps the state well-formed: a handling that ends in failure
/// names at least one error, and a warning only ever stands beside a
/// success.
pub proof fn lemma_advance_keeps_wf(state: FileStateView, event: EventView, job: JobView)
    requires
        state.wf(),
    ensures
        advance(state, event, job).0.wf(),
{
    if let FileStateView::Validating = state {
        if let EventView::TagsRead { album_artist, album, title } = event {
            lemma_validation_total(album_artist, album, title);
        }
    }
}

/// Handling only moves forward: a step leaves the state as it is or takes
/// it to a later one, and an ended handling stays ended, with nothing left
/// to do but to report.
pub proof fn lemma_advance_moves_forward(state: FileStateView, event: EventView, job: JobView)
    ensures
        advance(state, event, job).0 == state || advance(state, event, job).0.rank()
            > state.rank(),
        state is Done ==> advance(state, event, job) == (state, Action::Report),
        advance(state, event, job).0 is Done <==> advance(state, event, job).1 == Action::Report,
{
}

/// A file is copied only after its tags were found in order and its
/// directories made: while the tags are awaited no copy is asked for, and
/// where a tag is absent handling ends at once in failure, with one error
/// for each absent tag.
pub proof fn lemma_no_copy_without_tags(
    album_artist: Option<Seq<char>>,
    album: Option<Seq<char>>,
    title: Option<Seq<char>>,
    event: EventView,
    job: JobView,
)
    ensures
        advance(FileStateView::Validating, event, job).1 != Action::CopyFile,
        advance(FileStateView::Validating, event, job).1 != Action::RemoveSource,
        event is TagsUnreadable ==> advance(FileStateView::Validating, event, job).0 is Done,
        album_artist is None || album is None || title is None ==> advance(
            FileStateView::Validating,
            EventView::TagsRead { album_artist, album, title },
            job,
        ) == (
            FileStateView::Done {
                outcome: FileOutcomeView::Failure(missing_errors(album_artist, album, title)),
                warning: None,
            },
            Action::Report,
        ),
{
}

/// The source is removed only where the job asks for it and the copy has
/// succeeded; and once the file is copied, nothing that happens to the
/// source turns the outcome into a failure: a removal that fails adds a
/// warning to the success.
pub proof fn lemma_removal_is_harmless(state: FileStateView, event: EventView, job: JobView)
    ensures
        advance(state, event, job).1 == Action::RemoveSource && !(state is RemovingSource) ==> {
            &&& job.remove_source
            &&& state is Copying
            &&& event is Copied
        },
        state is RemovingSource && advance(state, event, job).0 is Done ==> {
            &&& advance(state, event, job).0->outcome is Success
            &&& advance(state, event, job).0->warning is Some <==> event is RemovalFailed
        },
{
}

} // verus!
