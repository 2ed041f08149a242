//! The ways in which a slash command can fail, and what the user is told.

use vstd::prelude::*;
use vstd::string::StringExecFns;

verus! {

/// Why a slash command produced no output.
#[derive(Clone, Debug, PartialEq, Eq)]
pub enum PreviewError {
    /// The Quarto command-line tool was not found.
    CliNotFound,
    /// Neither an argument nor a worktree names a file.
    NoFile,
    /// The file is no `.qmd` document.
    NotQmd,
    /// No file exists at `path`.
    FileNotFound { path: String },
    /// The Quarto process could not be started.
    SpawnFailed { reason: String },
    /// The Quarto process ran and reported failure.
    PreviewFailed { stderr: String },
    /// The extension has no slash command called `name`.
    UnknownCommand { name: String },
}

/// A `PreviewError` as a mathematical value.
pub enum ErrorView {
    CliNotFound,
    NoFile,
    NotQmd,
    FileNotFound { path: Seq<char> },
    SpawnFailed { reason: Seq<char> },
    PreviewFailed { stderr: Seq<char> },
    UnknownCommand { name: Seq<char> },
}

impl ErrorView {
    /// The text shown to the user for this error.
    pub open spec fn message(self) -> Seq<char> {
        match self {
            ErrorView::CliNotFound =>
                "Quarto CLI not found. Install from https://quarto.org/docs/get-started/"@,
            ErrorView::NoFile =>
                "No file to preview. Please specify a file path or open a Quarto document."@,
            ErrorView::NotQmd => "Preview only works with .qmd files"@,
            ErrorView::FileNotFound { path } => "File not found: "@ + path,
            ErrorView::SpawnFailed { reason } => "Failed to run quarto: "@ + reason,
            ErrorView::PreviewFailed { stderr } => "Quarto preview failed: "@ + stderr,
            ErrorView::UnknownCommand { name } => "Unknown command: "@ + name,
        }
    }
}

impl View for PreviewError {
    type V = ErrorView;

    open spec fn view(&self) -> ErrorView {
        match self {
            PreviewError::CliNotFound => ErrorView::CliNotFound,
            PreviewError::NoFile => ErrorView::NoFile,
            PreviewError::NotQmd => ErrorView::NotQmd,
            PreviewError::FileNotFound { path } => ErrorView::FileNotFound { path: path@ },
            PreviewError::SpawnFailed { reason } => ErrorView::SpawnFailed { reason: reason@ },
            PreviewError::PreviewFailed { stderr } => ErrorView::PreviewFailed { stderr: stderr@ },
            PreviewError::UnknownCommand { name } => ErrorView::UnknownCommand { name: name@ },
        }
    }
}

impl PreviewError {
    /// The text shown to the user for this error.
    pub fn message(&self) -> (text: String)
        ensures
            text@ == self@.message(),
    {
        match self {
            PreviewError::CliNotFound => {
                "Quarto CLI not found. Install from https://quarto.org/docs/get-started/".to_owned()
            },
            PreviewError::NoFile => {
                "No file to preview. Please specify a file path or open a Quarto document.".to_owned()
            },
            PreviewError::NotQmd => "Preview only works with .qmd files".to_owned(),
            PreviewError::FileNotFound { path } => {
                "File not found: ".to_owned().concat(path.as_str())
            },
            PreviewError::SpawnFailed { reason } => {
                "Failed to run quarto: ".to_owned().concat(reason.as_str())
            },
            PreviewError::PreviewFailed { stderr } => {
                "Quarto preview failed: ".to_owned().concat(stderr.as_str())
            },
            PreviewError::UnknownCommand { name } => {
                "Unknown command: ".to_owned().concat(name.as_str())
            },
        }
    }
}

} // verus!
