//! What can go wrong with one file, and how it is told to the user.

use vstd::prelude::*;
use vstd::string::StringExecFns;

verus! {

/// One of the three tags that every file must carry.
#[derive(Clone, Copy, Debug, PartialEq, Eq, Structural)]
pub enum Field {
    Artist,
    Album,
    Title,
}

/// The kinds of failure that end the handling of a file.
#[derive(Clone, Copy, Debug, PartialEq, Eq, Structural)]
pub enum ErrorKind {
    /// A required tag is absent.
    MissingField,
    /// The file's tags could not be opened or parsed at all.
    ReadFailure,
    /// A directory could not be created or the file could not be copied.
    Io,
    /// The destination has no directory above it, so nothing can be copied
    /// there.
    InvalidInput,
}

/// A failure on one file.
///
/// `field` names the absent tag of a `MissingField` error and is `None`
/// otherwise. `cause` holds what the reader or the storage said of a
/// `ReadFailure` or `Io` error, and is empty for the other kinds.
#[derive(Clone, Debug, PartialEq, Eq)]
pub struct FileError {
    pub kind: ErrorKind,
    pub field: Option<Field>,
    pub cause: String,
    pub message: String,
}

/// A `FileError` as plain values.
pub struct FileErrorView {
    pub kind: ErrorKind,
    pub field: Option<Field>,
    pub cause: Seq<char>,
    pub message: Seq<char>,
}

impl View for FileError {
    type V = FileErrorView;

    open spec fn view(&self) -> FileErrorView {
        FileErrorView {
            kind: self.kind,
            field: self.field,
            cause: self.cause@,
            message: self.message@,
        }
    }
}

/// The views of a list of errors, in its order.
pub open spec fn error_views(errors: Seq<FileError>) -> Seq<FileErrorView> {
    errors.map_values(|e: FileError| e@)
}

/// What is said of an absent tag.
pub open spec fn missing_message(field: Field) -> Seq<char> {
    match field {
        Field::Artist => "No album artist found"@,
        Field::Album => "No album found"@,
        Field::Title => "No title found"@,
    }
}

/// The error for an absent tag.
pub open spec fn missing_field_error(field: Field) -> FileErrorView {
    FileErrorView {
        kind: ErrorKind::MissingField,
        field: Some(field),
        cause: Seq::empty(),
        message: missing_message(field),
    }
}

/// The error for tags that could not be read.
pub open spec fn read_failure_error(cause: Seq<char>, message: Seq<char>) -> FileErrorView {
    FileErrorView { kind: ErrorKind::ReadFailure, field: None, cause, message }
}

/// The error for a directory that could not be created.
pub open spec fn directory_error(directory: Seq<char>, cause: Seq<char>) -> FileErrorView {
    FileErrorView {
        kind: ErrorKind::Io,
        field: None,
        cause,
        message: "Cannot create directory '"@ + directory + "'"@,
    }
}

/// The error for a copy that failed.
pub open spec fn copy_error(cause: Seq<char>) -> FileErrorView {
    FileErrorView { kind: ErrorKind::Io, field: None, cause, message: "Failed to copy file"@ }
}

/// The error for a destination that has no directory above it.
pub open spec fn invalid_target_error(target: Seq<char>) -> FileErrorView {
    FileErrorView {
        kind: ErrorKind::InvalidInput,
        field: None,
        cause: Seq::empty(),
        message: "Unexpected error while copying file to target '"@ + target + "'"@,
    }
}

/// The name under which a kind of error is shown: a missing tag as `NoTag`,
/// a read failure under the reader's own words, a storage failure as `IO`
/// followed by what the storage said.
pub open spec fn kind_label(kind: ErrorKind, cause: Seq<char>) -> Seq<char> {
    match kind {
        ErrorKind::MissingField => "NoTag"@,
        ErrorKind::ReadFailure => cause,
        ErrorKind::Io => "IO: "@ + cause,
        ErrorKind::InvalidInput => "InvalidInput"@,
    }
}

/// The text shown for an error: its kind, a colon, its message.
pub open spec fn error_text(error: FileErrorView) -> Seq<char> {
    kind_label(error.kind, error.cause) + ": "@ + error.message
}

impl FileError {
    /// The error for the absent tag `field`.
    pub fn missing_field(field: Field) -> (error: FileError)
        ensures
            error@ == missing_field_error(field),
    {
        let message = match field {
            Field::Artist => String::from_str("No album artist found"),
            Field::Album => String::from_str("No album found"),
            Field::Title => String::from_str("No title found"),
        };
        FileError { kind: ErrorKind::MissingField, field: Some(field), cause: String::new(), message }
    }

    /// The error for tags that could not be read, with the reader's name for
    /// what went wrong and its description.
    pub fn read_failure(cause: &str, message: &str) -> (error: FileError)
        ensures
            error@ == read_failure_error(cause@, message@),
    {
        FileError {
            kind: ErrorKind::ReadFailure,
            field: None,
            cause: String::from_str(cause),
            message: String::from_str(message),
        }
    }

    /// The error for the directory `directory` that could not be created.
    pub fn directory_failure(directory: &str, cause: &str) -> (error: FileError)
        ensures
            error@ == directory_error(directory@, cause@),
    {
        let mut message = String::from_str("Cannot create directory '");
        message.append(directory);
        message.append("'");
        FileError {
            kind: ErrorKind::Io,
            field: None,
            cause: String::from_str(cause),
            message,
        }
    }

    /// The error for a copy that failed.
    pub fn copy_failure(cause: &str) -> (error: FileError)
        ensures
            error@ == copy_error(cause@),
    {
        FileError {
            kind: ErrorKind::Io,
            field: None,
            cause: String::from_str(cause),
            message: String::from_str("Failed to copy file"),
        }
    }

    /// The error for the destination `target` that has no directory above it.
    pub fn invalid_target(target: &str) -> (error: FileError)
        ensures
            error@ == invalid_target_error(target@),
    {
        let mut message = String::from_str("Unexpected error while copying file to target '");
        message.append(target);
        message.append("'");
        FileError { kind: ErrorKind::InvalidInput, field: None, cause: String::new(), message }
    }

    /// The text shown for this error.
    pub fn describe(&self) -> (text: String)
        ensures
            text@ == error_text(self@),
    {
        let mut text = match self.kind {
            ErrorKind::MissingField => String::from_str("NoTag"),
            ErrorKind::ReadFailure => self.cause.clone(),
            ErrorKind::Io => {
                let mut label = String::from_str("IO: ");
                label.append(self.cause.as_str());
                label
            },
            ErrorKind::InvalidInput => String::from_str("InvalidInput"),
        };
        text.append(": ");
        text.append(self.message.as_str());
        text
    }
}

} // verus!
