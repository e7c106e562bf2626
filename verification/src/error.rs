//! The ways in which setting up a project can fail.

use vstd::prelude::*;
use vstd::string::*;

verus! {

/// Why a run ended without a project. Every failure ends the run: nothing is retried
/// and nothing that was already created is taken back.
#[derive(Debug, PartialEq, Eq)]
pub enum InitError {
    /// A manifest already stands in the project directory.
    AlreadyInitialized,
    /// The package name is no valid name, or the project directory ends in none.
    InvalidName { name: String },
    /// Looking for an enclosing workspace failed for another reason than that
    /// there is no manifest to find.
    DiscoveryError { detail: String },
    /// No interpreter could be found or fetched.
    InterpreterResolutionError { detail: String },
    /// The manifest of the enclosing workspace could not be read or edited.
    ManifestEditError { detail: String },
    /// A directory or file could not be created, written or looked at.
    FilesystemError { path: String, detail: String },
    /// The run was handed an event that does not answer what it had asked for.
    UnexpectedReply,
}

/// An `InitError` as a mathematical value.
pub enum ErrorView {
    AlreadyInitialized,
    InvalidName { name: Seq<char> },
    DiscoveryError { detail: Seq<char> },
    InterpreterResolutionError { detail: Seq<char> },
    ManifestEditError { detail: Seq<char> },
    FilesystemError { path: Seq<char>, detail: Seq<char> },
    UnexpectedReply,
}

impl View for InitError {
    type V = ErrorView;

    open spec fn view(&self) -> ErrorView {
        match self {
            InitError::AlreadyInitialized => ErrorView::AlreadyInitialized,
            InitError::InvalidName { name } => ErrorView::InvalidName { name: name@ },
            InitError::DiscoveryError { detail } => ErrorView::DiscoveryError { detail: detail@ },
            InitError::InterpreterResolutionError { detail } => {
                ErrorView::InterpreterResolutionError { detail: detail@ }
            },
            InitError::ManifestEditError { detail } => ErrorView::ManifestEditError {
                detail: detail@,
            },
            InitError::FilesystemError { path, detail } => ErrorView::FilesystemError {
                path: path@,
                detail: detail@,
            },
            InitError::UnexpectedReply => ErrorView::UnexpectedReply,
        }
    }
}

/// The one line that tells a user what went wrong.
pub open spec fn error_text(error: ErrorView) -> Seq<char> {
    match error {
        ErrorView::AlreadyInitialized => "Package is already initialized"@,
        ErrorView::InvalidName { name } => "Invalid package name: `"@ + name + "`"@,
        ErrorView::DiscoveryError { detail } => detail,
        ErrorView::InterpreterResolutionError { detail } => detail,
        ErrorView::ManifestEditError { detail } => detail,
        ErrorView::FilesystemError { path, detail } => path + ": "@ + detail,
        ErrorView::UnexpectedReply => "Unexpected reply to a pending step"@,
    }
}

impl InitError {
    /// The one line that tells a user what went wrong.
    pub fn message(&self) -> (text: String)
        ensures
            text@ == error_text(self@),
    {
        match self {
            InitError::AlreadyInitialized => "Package is already initialized".to_owned(),
            InitError::InvalidName { name } => {
                let mut text = "Invalid package name: `".to_owned();
                text.append(name.as_str());
                text.append("`");
                text
            },
            InitError::DiscoveryError { detail } => detail.clone(),
            InitError::InterpreterResolutionError { detail } => detail.clone(),
            InitError::ManifestEditError { detail } => detail.clone(),
            InitError::FilesystemError { path, detail } => {
                let mut text = path.clone();
                text.append(": ");
                text.append(detail.as_str());
                text
            },
            InitError::UnexpectedReply => "Unexpected reply to a pending step".to_owned(),
        }
    }
}

} // verus!
