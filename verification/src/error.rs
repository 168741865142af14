//! The ways in which a rendering can fail.

use vstd::prelude::*;

use crate::errlog::{Diagnostic, DiagnosticView};

verus! {

/// A failed rendering.
#[derive(Debug, Clone, PartialEq, Eq)]
pub enum ToolchainError {
    /// The named executable is not on the search path.
    ToolNotFound(String),
    /// A file could not be read, created or written.
    IoFailure,
    /// The compiler ran and rejected the source.
    TypesettingError(Diagnostic),
    /// The converter ran and failed; the text is its diagnostic stream.
    ConversionError(String),
    /// The compiler failed without writing a log, which points to a broken
    /// installation rather than to the source; the text is its diagnostic
    /// stream.
    BrokenToolchain(String),
}

/// A `ToolchainError` as mathematical values.
pub enum ErrorView {
    ToolNotFound(Seq<char>),
    IoFailure,
    TypesettingError(DiagnosticView),
    ConversionError(Seq<char>),
    BrokenToolchain(Seq<char>),
}

impl View for ToolchainError {
    type V = ErrorView;

    open spec fn view(&self) -> ErrorView {
        match self {
            ToolchainError::ToolNotFound(name) => ErrorView::ToolNotFound(name@),
            ToolchainError::IoFailure => ErrorView::IoFailure,
            ToolchainError::TypesettingError(found) => ErrorView::TypesettingError(found@),
            ToolchainError::ConversionError(text) => ErrorView::ConversionError(text@),
            ToolchainError::BrokenToolchain(text) => ErrorView::BrokenToolchain(text@),
        }
    }
}

impl ToolchainError {
    /// A copy of this error.
    pub fn duplicate(&self) -> (copy: ToolchainError)
        ensures
            copy@ == self@,
    {
        match self {
            ToolchainError::ToolNotFound(name) => ToolchainError::ToolNotFound(name.clone()),
            ToolchainError::IoFailure => ToolchainError::IoFailure,
            ToolchainError::TypesettingError(found) => ToolchainError::TypesettingError(
                Diagnostic {
                    summary: found.summary.clone(),
                    context: found.context.clone(),
                    line_number: found.line_number,
                },
            ),
            ToolchainError::ConversionError(text) => ToolchainError::ConversionError(text.clone()),
            ToolchainError::BrokenToolchain(text) => ToolchainError::BrokenToolchain(text.clone()),
        }
    }
}

/// The result of a flow as mathematical values: the path of the artifact, or
/// the failure.
pub open spec fn outcome_view(outcome: Result<String, ToolchainError>) -> Result<
    Seq<char>,
    ErrorView,
> {
    match outcome {
        Ok(path) => Ok(path@),
        Err(error) => Err(error@),
    }
}

} // verus!
