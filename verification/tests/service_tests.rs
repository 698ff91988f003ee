use lsp_session::language::Language;
use lsp_session::service::{LspService, StartStep};
use lsp_session::session::{ResponseStep, SessionState};
use lsp_session::types::{LspDiagnostic, LspPosition, LspRange};

fn diag(message: &str, line: u32) -> LspDiagnostic {
    LspDiagnostic {
        range: LspRange {
            start: LspPosition { line, character: 0 },
            end: LspPosition { line, character: 5 },
        },
        severity: Some(1),
        code: None,
        source: Some(String::from("analyzer")),
        message: String::from(message),
        related_information: None,
    }
}

fn start_ready(svc: &mut LspService, language: &str) {
    assert!(matches!(svc.start_server(language), StartStep::Spawn(_)));
    let init_id = svc.on_spawned(language).unwrap();
    assert_eq!(init_id, 0);
    assert_eq!(svc.on_response(language, init_id), ResponseStep::InitComplete);
}

#[test]
fn start_twice_keeps_one_session() {
    let mut svc = LspService::new();
    assert_eq!(svc.start_server("rust"), StartStep::Spawn(Language::Rust));
    assert!(svc.rust_analysis.is_some());
    assert_eq!(svc.start_server("rust"), StartStep::AlreadyRunning);
    assert!(svc.rust_analysis.is_some());
    assert!(svc.typescript.is_none());
    assert!(svc.javascript.is_none());
    assert!(svc.python.is_none());
}

#[test]
fn start_unsupported_language_is_refused_without_error() {
    let mut svc = LspService::new();
    assert_eq!(svc.start_server("cobol"), StartStep::Unsupported);
    assert!(svc.typescript.is_none());
    assert!(svc.javascript.is_none());
    assert!(svc.rust_analysis.is_none());
    assert!(svc.python.is_none());
}

#[test]
fn initialization_handshake_reaches_ready() {
    let mut svc = LspService::new();
    assert_eq!(svc.start_server("python"), StartStep::Spawn(Language::Python));
    assert_eq!(svc.python.as_ref().unwrap().state, SessionState::Starting);
    let init_id = svc.on_spawned("python").unwrap();
    assert_eq!(init_id, 0);
    assert_eq!(svc.python.as_ref().unwrap().state, SessionState::Initializing);
    assert_eq!(svc.on_response("python", init_id), ResponseStep::InitComplete);
    assert_eq!(svc.python.as_ref().unwrap().state, SessionState::Ready);
}

#[test]
fn spawn_failure_tears_session_down() {
    let mut svc = LspService::new();
    assert_eq!(svc.start_server("rust"), StartStep::Spawn(Language::Rust));
    assert!(svc.on_spawn_failed("rust"));
    assert!(svc.rust_analysis.is_none());
    assert!(!svc.on_spawn_failed("rust"));
}

#[test]
fn completions_without_session_are_empty_not_an_error() {
    let mut svc = LspService::new();
    assert_eq!(svc.get_completions("typescript"), None);
    assert_eq!(svc.get_completions("unknown-language"), None);
}

#[test]
fn completions_on_ready_session_get_fresh_identifier() {
    let mut svc = LspService::new();
    start_ready(&mut svc, "rust");
    assert_eq!(svc.get_completions("rust"), Some(1));
    assert_eq!(svc.get_completions("rust"), Some(2));
    assert_eq!(svc.on_response("rust", 1), ResponseStep::Resolved);
    assert_eq!(svc.on_response("rust", 2), ResponseStep::Resolved);
    assert_eq!(svc.on_response("rust", 2), ResponseStep::Dropped);
}

#[test]
fn completions_before_ready_are_empty() {
    let mut svc = LspService::new();
    assert_eq!(svc.start_server("rust"), StartStep::Spawn(Language::Rust));
    assert_eq!(svc.get_completions("rust"), None);
    svc.on_spawned("rust").unwrap();
    assert_eq!(svc.get_completions("rust"), None);
}

#[test]
fn stop_returns_every_pending_request() {
    let mut svc = LspService::new();
    start_ready(&mut svc, "typescript");
    let a = svc.get_completions("typescript").unwrap();
    let b = svc.get_completions("typescript").unwrap();
    let failed = svc.stop_server("typescript").unwrap();
    assert_eq!(failed, vec![a, b]);
    assert!(svc.typescript.is_none());
    assert_eq!(svc.stop_server("typescript"), None);
}

#[test]
fn stop_absent_session_reports_false() {
    let mut svc = LspService::new();
    assert_eq!(svc.stop_server("python"), None);
    assert_eq!(svc.stop_server("not-a-language"), None);
}

#[test]
fn two_languages_run_independently() {
    let mut svc = LspService::new();
    start_ready(&mut svc, "rust");
    start_ready(&mut svc, "python");
    assert!(svc.rust_analysis.is_some());
    assert!(svc.python.is_some());
    let failed = svc.stop_server("rust").unwrap();
    assert!(failed.is_empty());
    assert!(svc.rust_analysis.is_none());
    assert_eq!(svc.python.as_ref().unwrap().state, SessionState::Ready);
    assert_eq!(svc.get_completions("python"), Some(1));
}

#[test]
fn restart_after_stop_builds_fresh_session() {
    let mut svc = LspService::new();
    start_ready(&mut svc, "rust");
    assert_eq!(svc.get_completions("rust"), Some(1));
    svc.stop_server("rust").unwrap();
    assert_eq!(svc.start_server("rust"), StartStep::Spawn(Language::Rust));
    let init_id = svc.on_spawned("rust").unwrap();
    assert_eq!(init_id, 0);
    assert_eq!(svc.on_response("rust", init_id), ResponseStep::InitComplete);
    assert_eq!(svc.get_completions("rust"), Some(1));
}

#[test]
fn transport_failure_degrades_and_fails_fast() {
    let mut svc = LspService::new();
    start_ready(&mut svc, "rust");
    let a = svc.get_completions("rust").unwrap();
    let b = svc.get_completions("rust").unwrap();
    let failed = svc.on_transport_closed("rust");
    assert_eq!(failed, vec![a, b]);
    assert_eq!(svc.rust_analysis.as_ref().unwrap().state, SessionState::Degraded);
    assert_eq!(svc.get_completions("rust"), None);
    assert_eq!(svc.on_response("rust", a), ResponseStep::Dropped);
    assert_eq!(svc.on_transport_closed("rust"), Vec::<u64>::new());
}

#[test]
fn request_timeout_removes_only_that_entry() {
    let mut svc = LspService::new();
    start_ready(&mut svc, "rust");
    let a = svc.get_completions("rust").unwrap();
    let b = svc.get_completions("rust").unwrap();
    assert!(svc.on_request_timeout("rust", a));
    assert!(!svc.on_request_timeout("rust", a));
    assert_eq!(svc.on_response("rust", a), ResponseStep::Dropped);
    assert_eq!(svc.on_response("rust", b), ResponseStep::Resolved);
}

#[test]
fn document_versions_start_at_one_and_increase() {
    let mut svc = LspService::new();
    start_ready(&mut svc, "typescript");
    assert_eq!(svc.open_file("typescript", "file:///a.ts"), Some(1));
    assert_eq!(svc.update_file("typescript", "file:///a.ts"), Some(2));
    assert_eq!(svc.update_file("typescript", "file:///a.ts"), Some(3));
    assert!(svc.close_file("typescript", "file:///a.ts"));
    assert_eq!(svc.update_file("typescript", "file:///a.ts"), Some(1));
}

#[test]
fn update_untracked_document_is_implicit_open() {
    let mut svc = LspService::new();
    start_ready(&mut svc, "python");
    assert_eq!(svc.update_file("python", "file:///b.py"), Some(1));
    assert_eq!(svc.update_file("python", "file:///b.py"), Some(2));
}

#[test]
fn documents_are_tracked_per_uri() {
    let mut svc = LspService::new();
    start_ready(&mut svc, "rust");
    assert_eq!(svc.open_file("rust", "file:///a.rs"), Some(1));
    assert_eq!(svc.open_file("rust", "file:///b.rs"), Some(1));
    assert_eq!(svc.update_file("rust", "file:///a.rs"), Some(2));
    assert_eq!(svc.update_file("rust", "file:///b.rs"), Some(2));
    assert_eq!(svc.update_file("rust", "file:///a.rs"), Some(3));
}

#[test]
fn document_sync_without_ready_session_is_noop() {
    let mut svc = LspService::new();
    assert_eq!(svc.open_file("rust", "file:///a.rs"), None);
    assert_eq!(svc.update_file("rust", "file:///a.rs"), None);
    assert!(!svc.close_file("rust", "file:///a.rs"));
    assert_eq!(svc.start_server("rust"), StartStep::Spawn(Language::Rust));
    assert_eq!(svc.open_file("rust", "file:///a.rs"), None);
}

#[test]
fn latest_diagnostics_replace_earlier_ones() {
    let mut svc = LspService::new();
    start_ready(&mut svc, "rust");
    let first = vec![diag("first", 1), diag("second", 2)];
    let second = vec![diag("newest", 3)];
    assert!(svc.record_diagnostics("rust", "file:///a.rs", first));
    assert!(svc.record_diagnostics("rust", "file:///a.rs", second.clone()));
    assert_eq!(svc.get_diagnostics("rust", "file:///a.rs"), Some(&second));
}

#[test]
fn diagnostics_are_kept_per_uri() {
    let mut svc = LspService::new();
    start_ready(&mut svc, "rust");
    let in_a = vec![diag("in a", 1)];
    let in_b = vec![diag("in b", 9)];
    assert!(svc.record_diagnostics("rust", "file:///a.rs", in_a.clone()));
    assert!(svc.record_diagnostics("rust", "file:///b.rs", in_b.clone()));
    assert_eq!(svc.get_diagnostics("rust", "file:///a.rs"), Some(&in_a));
    assert_eq!(svc.get_diagnostics("rust", "file:///b.rs"), Some(&in_b));
    assert_eq!(svc.get_diagnostics("rust", "file:///c.rs"), None);
}

#[test]
fn diagnostics_without_session_are_absent() {
    let mut svc = LspService::new();
    assert_eq!(svc.get_diagnostics("rust", "file:///a.rs"), None);
    assert!(!svc.record_diagnostics("rust", "file:///a.rs", vec![diag("lost", 1)]));
    assert_eq!(svc.get_diagnostics("rust", "file:///a.rs"), None);
}
