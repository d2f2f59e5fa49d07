//! Typed results delivered back to the embedder through its notification
//! delegates: compilation outcomes with their diagnostics, and
//! autocompletion suggestions.

use vstd::prelude::*;

use crate::source_range::SourceRange;

verus! {

/// How severe a compilation diagnostic is.
#[derive(Clone, Copy, Debug, PartialEq, Eq, Structural)]
pub enum Severity {
    /// The diagnostic prevented the document from being produced.
    Error,
    /// The diagnostic did not prevent the document from being produced.
    Warning,
}

/// One diagnostic reported against a source file.
pub struct CompilationError {
    pub severity: Severity,
    /// The canonical rooted path of the file the diagnostic points into,
    /// when it points into one.
    pub source_path: Option<String>,
    /// The span the diagnostic points at, when it has one.
    pub range: Option<SourceRange>,
    pub message: String,
    pub hints: Vec<String>,
}

/// The outcome of one compilation request.
pub enum CompilationResult {
    /// The compiler produced a document, possibly with warnings.
    Document { data: Vec<u8>, warnings: Vec<CompilationError> },
    /// The compiler produced no document.
    Errors { errors: Vec<CompilationError> },
}

/// The kind of an autocompletion suggestion.
#[derive(Clone, Copy, Debug, PartialEq, Eq, Structural)]
pub enum AutocompleteKind {
    Syntax,
    Func,
    Param,
    Constant,
    Symbol,
    Type,
}

/// One autocompletion suggestion.
pub struct AutocompleteResult {
    pub kind: AutocompleteKind,
    /// The label shown to the user.
    pub label: String,
    /// The text to apply when the suggestion is taken.
    pub completion: String,
    /// A human-readable description of the suggestion.
    pub description: String,
}

/// The embedder's completion callback for compilation requests.
pub trait TypstCompilerDelegate {
    /// Called once with the outcome of a compilation request.
    fn compilation_finished(&self, result: CompilationResult);
}

/// The embedder's completion callback for source-analysis requests.
pub trait TypstSourceDelegate {
    /// Called once with the suggestions of an autocompletion request.
    fn autocomplete_finished(&self, result: Vec<AutocompleteResult>);
}

} // verus!
