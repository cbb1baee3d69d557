//! Errors of the pipeline and of the triage step.

use vstd::prelude::*;
use vstd::string::StringExecFns;

use crate::paths::concat_str;

verus! {

/// What can go wrong while deriving names, validating the configuration,
/// or planning the placement of failed files.
#[derive(Debug, PartialEq, Eq)]
pub enum ProcessingError {
    /// A group of entries was empty where a name had to be derived from it.
    EmptyGroup,
    /// The entry a name had to be derived from was an in-band traversal
    /// error; the payload is its message.
    EntryUnreadable(String),
    /// No folder name could be carved out of the given path.
    FolderNameNotFound(String),
    /// The given path has no parent to take a folder name from.
    ParentFolderNotFound(String),
    /// A failed file had no candidate subjects although the placement
    /// strategy needs one; the payload is the file's path.
    MissingCandidates(String),
    /// The configuration selects the CompreFace client but carries no
    /// CompreFace settings.
    ComprefaceConfigMissing,
    /// The configuration selects the DoubleTake client but carries no
    /// DoubleTake settings.
    DoubleTakeConfigMissing,
}

/// Mathematical model of a [`ProcessingError`].
#[verifier::ext_equal]
pub enum ErrorModel {
    EmptyGroup,
    EntryUnreadable(Seq<char>),
    FolderNameNotFound(Seq<char>),
    ParentFolderNotFound(Seq<char>),
    MissingCandidates(Seq<char>),
    ComprefaceConfigMissing,
    DoubleTakeConfigMissing,
}

impl View for ProcessingError {
    type V = ErrorModel;

    open spec fn view(&self) -> ErrorModel {
        match self {
            ProcessingError::EmptyGroup => ErrorModel::EmptyGroup,
            ProcessingError::EntryUnreadable(m) => ErrorModel::EntryUnreadable(m@),
            ProcessingError::FolderNameNotFound(p) => ErrorModel::FolderNameNotFound(p@),
            ProcessingError::ParentFolderNotFound(p) => ErrorModel::ParentFolderNotFound(p@),
            ProcessingError::MissingCandidates(p) => ErrorModel::MissingCandidates(p@),
            ProcessingError::ComprefaceConfigMissing => ErrorModel::ComprefaceConfigMissing,
            ProcessingError::DoubleTakeConfigMissing => ErrorModel::DoubleTakeConfigMissing,
        }
    }
}

/// The message an error renders to.
pub open spec fn spec_message(m: ErrorModel) -> Seq<char> {
    match m {
        ErrorModel::EmptyGroup => "empty group"@,
        ErrorModel::EntryUnreadable(e) => "error: "@ + e,
        ErrorModel::FolderNameNotFound(p) => "folder name not found on path: "@ + p,
        ErrorModel::ParentFolderNotFound(p) => "parent folder not found on path: "@ + p,
        ErrorModel::MissingCandidates(p) => "failed to find the max similarity subject for the file: "@
            + p,
        ErrorModel::ComprefaceConfigMissing => "--compreface-url & compreface-api-key are required when client_mode is CompreFace"@,
        ErrorModel::DoubleTakeConfigMissing => "--doubletake-url is required when client_mode is DoubleTake"@,
    }
}

impl ProcessingError {
    /// Render the error as a message.
    pub fn message(&self) -> (r: String)
        ensures
            r@ == spec_message(self@),
    {
        match self {
            ProcessingError::EmptyGroup => String::from_str("empty group"),
            ProcessingError::EntryUnreadable(m) => concat_str("error: ", m.as_str()),
            ProcessingError::FolderNameNotFound(p) => concat_str(
                "folder name not found on path: ",
                p.as_str(),
            ),
            ProcessingError::ParentFolderNotFound(p) => concat_str(
                "parent folder not found on path: ",
                p.as_str(),
            ),
            ProcessingError::MissingCandidates(p) => concat_str(
                "failed to find the max similarity subject for the file: ",
                p.as_str(),
            ),
            ProcessingError::ComprefaceConfigMissing => String::from_str(
                "--compreface-url & compreface-api-key are required when client_mode is CompreFace",
            ),
            ProcessingError::DoubleTakeConfigMissing => String::from_str(
                "--doubletake-url is required when client_mode is DoubleTake",
            ),
        }
    }
}

} // verus!
