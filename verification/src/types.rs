//! Plain data carried between the session manager and its callers.
//!
//! Positions, ranges, completion items and diagnostics mirror the simplified
//! shapes handed to the editor layer; the version-control records mirror what
//! the repository helpers report.

use vstd::prelude::*;
use std::collections::HashMap;

verus! {

/// A zero-based line/character position in a document.
#[derive(Debug, Clone, Copy, PartialEq, Eq, Structural)]
pub struct LspPosition {
    pub line: u32,
    pub character: u32,
}

/// A half-open region of a document between two positions.
#[derive(Debug, Clone, Copy, PartialEq, Eq, Structural)]
pub struct LspRange {
    pub start: LspPosition,
    pub end: LspPosition,
}

/// One suggested completion, in the simplified shape returned to callers.
#[derive(Debug, Clone, PartialEq)]
pub struct LspCompletionItem {
    pub label: String,
    pub kind: Option<i32>,
    pub detail: Option<String>,
    pub documentation: Option<String>,
    pub insert_text: Option<String>,
    pub sort_text: Option<String>,
}

/// An analyzer-reported issue attached to a location in a document.
#[derive(Debug, Clone, PartialEq)]
pub struct LspDiagnostic {
    pub range: LspRange,
    pub severity: Option<i32>,
    pub code: Option<String>,
    pub source: Option<String>,
    pub message: String,
    pub related_information: Option<Vec<LspDiagnosticRelatedInformation>>,
}

/// A secondary location that a diagnostic points at.
#[derive(Debug, Clone, PartialEq)]
pub struct LspDiagnosticRelatedInformation {
    pub location: LspLocation,
    pub message: String,
}

/// A document URI together with a range inside that document.
#[derive(Debug, Clone, PartialEq)]
pub struct LspLocation {
    pub uri: String,
    pub range: LspRange,
}

/// A named symbol reported by the analyzer.
#[derive(Debug, Clone, PartialEq)]
pub struct LspSymbolInformation {
    pub name: String,
    pub kind: i32,
    pub location: LspLocation,
    pub container_name: Option<String>,
}

/// A set of text edits grouped by document URI.
#[derive(Debug, Clone)]
pub struct LspWorkspaceEdit {
    pub changes: Option<HashMap<String, Vec<LspTextEdit>>>,
}

/// A replacement of one range of a document by new text.
#[derive(Debug, Clone, PartialEq)]
pub struct LspTextEdit {
    pub range: LspRange,
    pub new_text: String,
}

/// The kind of change a repository reports for one path.
#[derive(Debug, Clone, Copy, PartialEq, Eq, Structural)]
pub enum GitStatusType {
    Modified,
    Added,
    Deleted,
    Untracked,
}

/// One changed path together with its kind of change.
#[derive(Debug, Clone, PartialEq)]
pub struct GitStatusEntry {
    pub path: String,
    pub status: GitStatusType,
}

/// One commit of the repository log.
#[derive(Debug, Clone, PartialEq)]
pub struct GitCommit {
    pub id: String,
    pub message: String,
    pub author: String,
    pub email: String,
    pub timestamp: i64,
}

} // verus!
