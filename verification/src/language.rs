//! The closed set of supported language identifiers.
//!
//! A caller names a language by a string; recognized values form a small
//! closed set and anything else is "unsupported", which is an expected state
//! and never an error.

use vstd::prelude::*;

verus! {

use crate::strutil::str_eq;

/// A supported language, each backed by one analysis server binary.
#[derive(Debug, Clone, Copy, PartialEq, Eq, Structural)]
pub enum Language {
    TypeScript,
    JavaScript,
    Rust,
    Python,
}

/// The language a caller-supplied identifier names, or `None` when the
/// identifier is unsupported.
pub open spec fn spec_parse_language(s: Seq<char>) -> Option<Language> {
    if s == "typescript"@ {
        Some(Language::TypeScript)
    } else if s == "javascript"@ {
        Some(Language::JavaScript)
    } else if s == "rust"@ {
        Some(Language::Rust)
    } else if s == "python"@ {
        Some(Language::Python)
    } else {
        None
    }
}

/// Parses a caller-supplied language identifier.
pub fn parse_language(s: &str) -> (r: Option<Language>)
    ensures
        r == spec_parse_language(s@),
{
    if str_eq(s, "typescript") {
        Some(Language::TypeScript)
    } else if str_eq(s, "javascript") {
        Some(Language::JavaScript)
    } else if str_eq(s, "rust") {
        Some(Language::Rust)
    } else if str_eq(s, "python") {
        Some(Language::Python)
    } else {
        None
    }
}

/// The name of the analysis server binary for a language.
pub open spec fn spec_server_command(l: Language) -> Seq<char> {
    match l {
        Language::TypeScript => "typescript-language-server"@,
        Language::JavaScript => "typescript-language-server"@,
        Language::Rust => "rust-analyzer"@,
        Language::Python => "pyright-langserver"@,
    }
}

/// Returns the binary to spawn for a language.
pub fn server_command(l: Language) -> (r: &'static str)
    ensures
        r@ == spec_server_command(l),
{
    match l {
        Language::TypeScript => "typescript-language-server",
        Language::JavaScript => "typescript-language-server",
        Language::Rust => "rust-analyzer",
        Language::Python => "pyright-langserver",
    }
}

/// Whether the server binary takes a flag selecting standard-input/output
/// transport; the Rust analyzer speaks it by default.
pub fn server_needs_stdio_flag(l: Language) -> (r: bool)
    ensures
        r == !(l is Rust),
{
    match l {
        Language::TypeScript => true,
        Language::JavaScript => true,
        Language::Rust => false,
        Language::Python => true,
    }
}

} // verus!
