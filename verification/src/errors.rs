//! The errors that an operation of this crate can end in.

use vstd::prelude::*;

verus! {

/// What kind of input or output failure occurred.
#[derive(Clone, Copy, Debug, PartialEq, Eq, Structural)]
pub enum IoErrorKind {
    /// A file or directory that was needed is not there.
    NotFound,
    /// Any other failure.
    Other,
}

/// A failure of the file system or of starting a process, as plain values.
#[derive(Clone, Debug, PartialEq, Eq)]
pub struct IoFailure {
    pub kind: IoErrorKind,
    pub message: String,
}

/// The mathematical content of an [`IoFailure`].
pub struct IoFailureView {
    pub kind: IoErrorKind,
    pub message: Seq<char>,
}

impl View for IoFailure {
    type V = IoFailureView;

    open spec fn view(&self) -> IoFailureView {
        IoFailureView { kind: self.kind, message: self.message@ }
    }
}

/// Why an operation failed. Each variant carries a text for the operator.
#[derive(Clone, Debug, PartialEq, Eq)]
pub enum ManagerError {
    /// Input or output failed.
    IoError(IoFailure),
    /// A command could not be run, or ended with a failure status.
    CommandFailed(String),
    /// The storage backend answered with something unusable.
    StorageError(String),
    /// The artifact asked for is not in the store.
    ArtifactNotFound(String),
    /// A value handed to the operation is not acceptable.
    ValidationError(String),
    /// A parameter that the operation needs is absent or empty.
    MissingParameter(String),
    /// The storage backend named is not one of the known ones.
    UnsupportedBackend(String),
    /// The artifact named is not one of the known ones.
    UnknownArtifact(String),
}

/// The mathematical content of a [`ManagerError`].
pub enum ErrorView {
    IoError(IoFailureView),
    CommandFailed(Seq<char>),
    StorageError(Seq<char>),
    ArtifactNotFound(Seq<char>),
    ValidationError(Seq<char>),
    MissingParameter(Seq<char>),
    UnsupportedBackend(Seq<char>),
    UnknownArtifact(Seq<char>),
}

impl ErrorView {
    /// The line shown to the operator: what kind of failure, then the detail.
    pub open spec fn message(self) -> Seq<char> {
        match self {
            ErrorView::IoError(failure) => "IO error: "@ + failure.message,
            ErrorView::CommandFailed(detail) => "Command execution failed: "@ + detail,
            ErrorView::StorageError(detail) => "Storage operation failed: "@ + detail,
            ErrorView::ArtifactNotFound(detail) => "Artifact not found: "@ + detail,
            ErrorView::ValidationError(detail) => "Validation error: "@ + detail,
            ErrorView::MissingParameter(detail) => "Required parameter missing: "@ + detail,
            ErrorView::UnsupportedBackend(detail) => "Unsupported backend: "@ + detail,
            ErrorView::UnknownArtifact(detail) => "Unknown artifact: "@ + detail,
        }
    }
}

impl View for ManagerError {
    type V = ErrorView;

    open spec fn view(&self) -> ErrorView {
        match self {
            ManagerError::IoError(failure) => ErrorView::IoError(failure@),
            ManagerError::CommandFailed(detail) => ErrorView::CommandFailed(detail@),
            ManagerError::StorageError(detail) => ErrorView::StorageError(detail@),
            ManagerError::ArtifactNotFound(detail) => ErrorView::ArtifactNotFound(detail@),
            ManagerError::ValidationError(detail) => ErrorView::ValidationError(detail@),
            ManagerError::MissingParameter(detail) => ErrorView::MissingParameter(detail@),
            ManagerError::UnsupportedBackend(detail) => ErrorView::UnsupportedBackend(detail@),
            ManagerError::UnknownArtifact(detail) => ErrorView::UnknownArtifact(detail@),
        }
    }
}

/// The result of an operation of this crate.
pub type ManagerResult<T> = Result<T, ManagerError>;

/// A result that carries no value, with its error taken by its view.
pub open spec fn unit_view(r: ManagerResult<()>) -> Result<(), ErrorView> {
    match r {
        Ok(_) => Ok(()),
        Err(e) => Err(e@),
    }
}

/// A result that carries a text, both sides taken by their views.
pub open spec fn text_view(r: ManagerResult<String>) -> Result<Seq<char>, ErrorView> {
    match r {
        Ok(text) => Ok(text@),
        Err(e) => Err(e@),
    }
}

/// `prefix` followed by `detail`.
pub fn describe(prefix: &str, detail: &str) -> (text: String)
    ensures
        text@ == prefix@ + detail@,
{
    let mut text = String::from_str(prefix);
    text.append(detail);
    text
}

impl ManagerError {
    /// The line shown to the operator for this error.
    pub fn message(&self) -> (text: String)
        ensures
            text@ == self@.message(),
    {
        match self {
            ManagerError::IoError(failure) => describe("IO error: ", failure.message.as_str()),
            ManagerError::CommandFailed(detail) => describe(
                "Command execution failed: ",
                detail.as_str(),
            ),
            ManagerError::StorageError(detail) => describe(
                "Storage operation failed: ",
                detail.as_str(),
            ),
            ManagerError::ArtifactNotFound(detail) => describe(
                "Artifact not found: ",
                detail.as_str(),
            ),
            ManagerError::ValidationError(detail) => describe(
                "Validation error: ",
                detail.as_str(),
            ),
            ManagerError::MissingParameter(detail) => describe(
                "Required parameter missing: ",
                detail.as_str(),
            ),
            ManagerError::UnsupportedBackend(detail) => describe(
                "Unsupported backend: ",
                detail.as_str(),
            ),
            ManagerError::UnknownArtifact(detail) => describe(
                "Unknown artifact: ",
                detail.as_str(),
            ),
        }
    }

    /// A validation error with the given text.
    pub fn validation(detail: &str) -> (e: ManagerError)
        ensures
            e@ == ErrorView::ValidationError(detail@),
    {
        ManagerError::ValidationError(String::from_str(detail))
    }

    /// A failure to find the file or directory that `message` names.
    pub fn not_found(message: String) -> (e: ManagerError)
        ensures
            e@ == ErrorView::IoError(
                IoFailureView { kind: IoErrorKind::NotFound, message: message@ },
            ),
    {
        ManagerError::IoError(IoFailure { kind: IoErrorKind::NotFound, message })
    }
}

} // verus!
