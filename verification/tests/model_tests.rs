use lsp_session::gitmodel::{
    classify_status, STATUS_INDEX_DELETED, STATUS_INDEX_MODIFIED, STATUS_INDEX_NEW,
    STATUS_WT_DELETED, STATUS_WT_MODIFIED, STATUS_WT_NEW,
};
use lsp_session::language::{parse_language, server_command, server_needs_stdio_flag, Language};
use lsp_session::strutil::{bytes_eq, contains_bytes, is_hidden_name, str_contains, str_eq};
use lsp_session::table::StrTable;
use lsp_session::types::{
    GitStatusType, LspLocation, LspPosition, LspRange, LspSymbolInformation, LspTextEdit,
    LspWorkspaceEdit,
};
use std::collections::HashMap;

#[test]
fn language_identifiers_form_a_closed_set() {
    assert_eq!(parse_language("typescript"), Some(Language::TypeScript));
    assert_eq!(parse_language("javascript"), Some(Language::JavaScript));
    assert_eq!(parse_language("rust"), Some(Language::Rust));
    assert_eq!(parse_language("python"), Some(Language::Python));
    assert_eq!(parse_language("go"), None);
    assert_eq!(parse_language(""), None);
    assert_eq!(parse_language("TypeScript"), None);
}

#[test]
fn server_binaries_match_their_language() {
    assert_eq!(server_command(Language::TypeScript), "typescript-language-server");
    assert_eq!(server_command(Language::JavaScript), "typescript-language-server");
    assert_eq!(server_command(Language::Rust), "rust-analyzer");
    assert_eq!(server_command(Language::Python), "pyright-langserver");
    assert!(server_needs_stdio_flag(Language::TypeScript));
    assert!(server_needs_stdio_flag(Language::JavaScript));
    assert!(!server_needs_stdio_flag(Language::Rust));
    assert!(server_needs_stdio_flag(Language::Python));
}

#[test]
fn index_states_take_precedence_in_status_classification() {
    assert_eq!(classify_status(STATUS_INDEX_NEW), Some(GitStatusType::Added));
    assert_eq!(classify_status(STATUS_INDEX_MODIFIED), Some(GitStatusType::Modified));
    assert_eq!(classify_status(STATUS_INDEX_DELETED), Some(GitStatusType::Deleted));
    assert_eq!(classify_status(STATUS_WT_MODIFIED), Some(GitStatusType::Modified));
    assert_eq!(classify_status(STATUS_WT_DELETED), Some(GitStatusType::Deleted));
    assert_eq!(classify_status(STATUS_WT_NEW), Some(GitStatusType::Untracked));
    assert_eq!(classify_status(0), None);
    assert_eq!(
        classify_status(STATUS_INDEX_NEW | STATUS_WT_MODIFIED),
        Some(GitStatusType::Added)
    );
    assert_eq!(
        classify_status(STATUS_WT_NEW | STATUS_WT_MODIFIED),
        Some(GitStatusType::Modified)
    );
}

#[test]
fn string_comparison_is_exact() {
    assert!(str_eq("file:///a.rs", "file:///a.rs"));
    assert!(!str_eq("file:///a.rs", "file:///b.rs"));
    assert!(!str_eq("abc", "abcd"));
    assert!(str_eq("", ""));
    assert!(bytes_eq(b"abc", b"abc"));
    assert!(!bytes_eq(b"abc", b"abd"));
    assert!(!bytes_eq(b"abc", b""));
}

#[test]
fn record_types_carry_their_fields() {
    let range = LspRange {
        start: LspPosition { line: 0, character: 4 },
        end: LspPosition { line: 0, character: 9 },
    };
    let location = LspLocation { uri: String::from("file:///a.rs"), range };
    let symbol = LspSymbolInformation {
        name: String::from("main"),
        kind: 12,
        location: location.clone(),
        container_name: None,
    };
    assert_eq!(symbol.location, location);
    assert_eq!(symbol.location.range.end.character, 9);

    let edit = LspTextEdit { range, new_text: String::from("start") };
    let mut changes = HashMap::new();
    changes.insert(String::from("file:///a.rs"), vec![edit.clone()]);
    let workspace = LspWorkspaceEdit { changes: Some(changes) };
    assert_eq!(workspace.changes.unwrap().get("file:///a.rs").unwrap()[0], edit);
}

#[test]
fn substring_search_finds_patterns() {
    assert!(contains_bytes(b"main.rs", b"main"));
    assert!(contains_bytes(b"main.rs", b".rs"));
    assert!(contains_bytes(b"main.rs", b""));
    assert!(!contains_bytes(b"main.rs", b"test"));
    assert!(!contains_bytes(b"rs", b"main.rs"));
    assert!(str_contains("src/lib.rs", "lib"));
    assert!(!str_contains("src/lib.rs", "bin"));
}

#[test]
fn hidden_entries_start_with_a_dot() {
    assert!(is_hidden_name(".git"));
    assert!(is_hidden_name("."));
    assert!(!is_hidden_name("src"));
    assert!(!is_hidden_name(""));
    assert!(!is_hidden_name("a.b"));
}

#[test]
fn table_keeps_one_entry_per_key() {
    let mut t: StrTable<u64> = StrTable::new();
    assert_eq!(t.get("a"), None);
    t.set(String::from("a"), 1);
    t.set(String::from("b"), 2);
    assert_eq!(t.get("a"), Some(&1));
    assert_eq!(t.get("b"), Some(&2));
    t.set(String::from("a"), 7);
    assert_eq!(t.get("a"), Some(&7));
    assert!(t.remove("a"));
    assert!(!t.remove("a"));
    assert_eq!(t.get("a"), None);
    assert_eq!(t.get("b"), Some(&2));
}
