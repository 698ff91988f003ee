//! The registry: at most one live session per language, and the routing of
//! every caller-facing operation to the right session.
//!
//! The registry decides; the unverified shell acts.  Each mutating operation
//! returns what the shell must do next — spawn a binary, send a framed
//! message under a given identifier, fail a set of waiting callers — and a
//! transition predicate pins down both the decision and the new state of the
//! addressed slot, while every other language's slot is untouched.
//! "No session" and "unsupported language" are expected states reported as
//! absence, never as errors.

use vstd::prelude::*;

verus! {

use crate::language::{Language, parse_language, spec_parse_language};
use crate::session::{ResponseStep, ServerSession, SessionState};
use crate::types::LspDiagnostic;

/// What the shell must do after a start call.
#[derive(Debug, Clone, Copy, PartialEq, Eq, Structural)]
pub enum StartStep {
    /// A session for the language already exists: report success and spawn
    /// nothing; the call is idempotent.
    AlreadyRunning,
    /// The language is unsupported: report failure without raising an error.
    Unsupported,
    /// Spawn the server binary for this language, then report back through
    /// `on_spawned` or `on_spawn_failed`.
    Spawn(Language),
}

/// What a start call does to the addressed slot: an existing session is kept
/// exactly as it is, an empty slot gains a fresh session.
pub open spec fn start_transition(
    before: Option<ServerSession>,
    after: Option<ServerSession>,
    l: Language,
    r: StartStep,
) -> bool {
    match before {
        Some(_) => r is AlreadyRunning && after == before,
        None => {
            &&& r == StartStep::Spawn(l)
            &&& after is Some
            &&& after->Some_0.wf()
            &&& after->Some_0.is_fresh(l)
        },
    }
}

/// What the spawn report does: a session awaiting its spawn starts the
/// initialization handshake under identifier 0; anything else is untouched.
pub open spec fn spawned_transition(
    before: Option<ServerSession>,
    after: Option<ServerSession>,
    r: Option<u64>,
) -> bool {
    match before {
        Some(s0) => {
            if s0.state is Starting {
                &&& r == Some(0u64)
                &&& after is Some
                &&& {
                    let s1 = after->Some_0;
                    &&& s1.wf()
                    &&& s1.language == s0.language
                    &&& s1.state is Initializing
                    &&& s1.init_request_id == Some(0u64)
                    &&& s1.correlator.is_pending(0)
                    &&& s1.correlator.pending_count() == 1
                    &&& s1.docs == s0.docs
                    &&& s1.diagnostics == s0.diagnostics
                }
            } else {
                r is None && after == before
            }
        },
        None => r is None && after == before,
    }
}

/// What the spawn-failure report does: a session awaiting its spawn is torn
/// down; anything else is untouched.
pub open spec fn spawn_failed_transition(
    before: Option<ServerSession>,
    after: Option<ServerSession>,
    r: bool,
) -> bool {
    match before {
        Some(s0) => {
            if s0.state is Starting {
                r && after is None
            } else {
                !r && after == before
            }
        },
        None => !r && after == before,
    }
}

/// What an incoming response does: exactly the pending request with this
/// identifier is resolved; the response to the initialization request makes
/// the session ready; an unknown identifier, or a missing session, drops the
/// message and changes nothing.
pub open spec fn response_transition(
    before: Option<ServerSession>,
    after: Option<ServerSession>,
    id: u64,
    r: ResponseStep,
) -> bool {
    match before {
        None => r is Dropped && after == before,
        Some(s0) => {
            &&& after is Some
            &&& {
                let s1 = after->Some_0;
                &&& s1.wf()
                &&& s1.same_but_lifecycle(s0)
                &&& s1.correlator.next_id == s0.correlator.next_id
                &&& (!s0.correlator.is_pending(id) ==> r is Dropped && s1 == s0)
                &&& (s0.correlator.is_pending(id) ==> {
                    &&& !s1.correlator.is_pending(id)
                    &&& (forall|x: u64|
                        x != id ==> s1.correlator.is_pending(x) == s0.correlator.is_pending(x))
                    &&& s1.correlator.pending_count() == s0.correlator.pending_count() - 1
                    &&& if s0.state is Initializing && s0.init_request_id == Some(id) {
                        r is InitComplete && s1.state is Ready
                    } else {
                        r is Resolved && s1.state == s0.state
                    }
                })
            }
        },
    }
}

/// What a transport failure does: the session degrades and every pending
/// request is handed back to be failed, so no caller is left waiting.
pub open spec fn closed_transition(
    before: Option<ServerSession>,
    after: Option<ServerSession>,
    failed: Seq<u64>,
) -> bool {
    match before {
        None => failed.len() == 0 && after == before,
        Some(s0) => {
            &&& after is Some
            &&& {
                let s1 = after->Some_0;
                &&& s1.wf()
                &&& s1.same_but_lifecycle(s0)
                &&& s1.state is Degraded
                &&& failed == s0.correlator.pending@
                &&& s1.correlator.pending_count() == 0
                &&& s1.correlator.next_id == s0.correlator.next_id
            }
        },
    }
}

/// What a request timeout does: the entry of that identifier alone is
/// removed, so the identifier is no longer awaited.
pub open spec fn timeout_transition(
    before: Option<ServerSession>,
    after: Option<ServerSession>,
    id: u64,
    found: bool,
) -> bool {
    match before {
        None => !found && after == before,
        Some(s0) => {
            &&& after is Some
            &&& {
                let s1 = after->Some_0;
                &&& s1.wf()
                &&& s1.same_but_lifecycle(s0)
                &&& s1.state == s0.state
                &&& found == s0.correlator.is_pending(id)
                &&& !s1.correlator.is_pending(id)
                &&& (forall|x: u64|
                    x != id ==> s1.correlator.is_pending(x) == s0.correlator.is_pending(x))
                &&& s1.correlator.next_id == s0.correlator.next_id
            }
        },
    }
}

/// What a stop does: the session is destroyed — its slot empties — and every
/// identifier still pending is handed back so each waiting caller is failed
/// rather than left hanging.  Stopping an absent session reports `None`.
pub open spec fn stop_transition(
    before: Option<ServerSession>,
    after: Option<ServerSession>,
    r: Option<Vec<u64>>,
) -> bool {
    match before {
        None => r is None && after == before,
        Some(s0) => {
            &&& after is None
            &&& r is Some
            &&& r->Some_0@ == s0.correlator.pending@
        },
    }
}

/// What a completion query does: only a ready session with room in its
/// counter yields a fresh request identifier; in every other case — no
/// session, still initializing, degraded — the result is absent at once and
/// the caller receives an empty list without waiting.
pub open spec fn completions_transition(
    before: Option<ServerSession>,
    after: Option<ServerSession>,
    r: Option<u64>,
) -> bool {
    match before {
        None => r is None && after == before,
        Some(s0) => {
            &&& (r is Some <==> (s0.state is Ready && s0.correlator.next_id < u64::MAX))
            &&& (r is None ==> after == before)
            &&& (r is Some ==> after is Some && {
                let s1 = after->Some_0;
                &&& s1.wf()
                &&& s1.same_but_lifecycle(s0)
                &&& s1.state == s0.state
                &&& r->Some_0 == s0.correlator.next_id
                &&& s1.correlator.next_id == s0.correlator.next_id + 1
                &&& !s0.correlator.is_pending(r->Some_0)
                &&& s1.correlator.is_pending(r->Some_0)
                &&& (forall|x: u64|
                    x != r->Some_0 ==> s1.correlator.is_pending(x) == s0.correlator.is_pending(x))
            })
        },
    }
}

/// The per-session fields a document operation leaves alone.
pub open spec fn same_but_docs(s1: ServerSession, s0: ServerSession) -> bool {
    &&& s1.language == s0.language
    &&& s1.state == s0.state
    &&& s1.correlator == s0.correlator
    &&& s1.init_request_id == s0.init_request_id
    &&& s1.diagnostics == s0.diagnostics
}

/// What opening a document does: against a ready session its version becomes
/// 1 and the opening notification travels; against anything else it is a
/// silent no-op.
pub open spec fn open_transition(
    before: Option<ServerSession>,
    after: Option<ServerSession>,
    uri: Seq<char>,
    r: Option<u64>,
) -> bool {
    match before {
        None => r is None && after == before,
        Some(s0) => {
            &&& (r is Some <==> s0.state is Ready)
            &&& (r is None ==> after == before)
            &&& (r is Some ==> r == Some(1u64) && after is Some && {
                let s1 = after->Some_0;
                &&& s1.wf()
                &&& same_but_docs(s1, s0)
                &&& s1.docs.spec_get(uri) == Some(1u64)
                &&& (forall|k: Seq<char>| k != uri ==> s1.docs.spec_get(k) == s0.docs.spec_get(k))
            })
        },
    }
}

/// What a change does: an untracked document is implicitly opened at version
/// 1; a tracked one advances by exactly 1 while its counter has room; the
/// version returned is the one the notification travels under.
pub open spec fn change_transition(
    before: Option<ServerSession>,
    after: Option<ServerSession>,
    uri: Seq<char>,
    r: Option<u64>,
) -> bool {
    match before {
        None => r is None && after == before,
        Some(s0) => {
            &&& (r is Some <==> s0.state is Ready)
            &&& (r is None ==> after == before)
            &&& (r is Some ==> after is Some && {
                let s1 = after->Some_0;
                &&& r->Some_0 == (match s0.docs.spec_get(uri) {
                    None => 1u64,
                    Some(v0) => if v0 < u64::MAX {
                        (v0 + 1) as u64
                    } else {
                        v0
                    },
                })
                &&& s1.wf()
                &&& same_but_docs(s1, s0)
                &&& s1.docs.spec_get(uri) == Some(r->Some_0)
                &&& (forall|k: Seq<char>| k != uri ==> s1.docs.spec_get(k) == s0.docs.spec_get(k))
            })
        },
    }
}

/// What closing a document does: a ready session discards the version
/// counter and the closing notification travels; anything else is a silent
/// no-op.
pub open spec fn close_transition(
    before: Option<ServerSession>,
    after: Option<ServerSession>,
    uri: Seq<char>,
    r: bool,
) -> bool {
    match before {
        None => !r && after == before,
        Some(s0) => {
            &&& (r <==> s0.state is Ready)
            &&& (!r ==> after == before)
            &&& (r ==> after is Some && {
                let s1 = after->Some_0;
                &&& s1.wf()
                &&& same_but_docs(s1, s0)
                &&& s1.docs.spec_get(uri) == None::<u64>
                &&& (forall|k: Seq<char>| k != uri ==> s1.docs.spec_get(k) == s0.docs.spec_get(k))
            })
        },
    }
}

/// What a pushed diagnostic set does: it replaces wholesale whatever the
/// session cached for that URI; with no session it is dropped.
pub open spec fn record_transition(
    before: Option<ServerSession>,
    after: Option<ServerSession>,
    uri: Seq<char>,
    diags: Vec<LspDiagnostic>,
    r: bool,
) -> bool {
    match before {
        None => !r && after == before,
        Some(s0) => {
            &&& r
            &&& after is Some
            &&& {
                let s1 = after->Some_0;
                &&& s1.wf()
                &&& s1.language == s0.language
                &&& s1.state == s0.state
                &&& s1.correlator == s0.correlator
                &&& s1.init_request_id == s0.init_request_id
                &&& s1.docs == s0.docs
                &&& s1.diagnostics.spec_get(uri) == Some(diags)
                &&& (forall|k: Seq<char>|
                    k != uri ==> s1.diagnostics.spec_get(k) == s0.diagnostics.spec_get(k))
            }
        },
    }
}

/// The process-wide map from language to at most one live session.
pub struct LspService {
    /// The session serving TypeScript, if started.
    pub typescript: Option<ServerSession>,
    /// The session serving JavaScript, if started.
    pub javascript: Option<ServerSession>,
    /// The session serving Rust, if started.
    pub rust_analysis: Option<ServerSession>,
    /// The session serving Python, if started.
    pub python: Option<ServerSession>,
}

impl LspService {
    /// The session slot of a language.
    pub open spec fn slot_spec(self, l: Language) -> Option<ServerSession> {
        match l {
            Language::TypeScript => self.typescript,
            Language::JavaScript => self.javascript,
            Language::Rust => self.rust_analysis,
            Language::Python => self.python,
        }
    }

    /// One slot meets the registry invariant: a stored session is internally
    /// consistent and serves the language it is stored under.
    pub open spec fn wf_at(self, l: Language) -> bool {
        match self.slot_spec(l) {
            Some(s) => s.wf() && s.language == l,
            None => true,
        }
    }

    /// Every slot meets the registry invariant.
    pub open spec fn wf(self) -> bool {
        forall|l: Language| #[trigger] self.wf_at(l)
    }

    /// Every other language's slot is untouched.
    pub open spec fn frame(self, other: LspService, l: Language) -> bool {
        forall|l2: Language| l2 != l ==> #[trigger] self.slot_spec(l2) == other.slot_spec(l2)
    }

    /// An empty registry: no language has a session.
    pub fn new() -> (r: LspService)
        ensures
            r.wf(),
            forall|l: Language| #[trigger] r.slot_spec(l) == None::<ServerSession>,
    {
        LspService { typescript: None, javascript: None, rust_analysis: None, python: None }
    }

    /// Begins starting a server.  Starting an already-started language
    /// succeeds at once and changes nothing — in particular it never spawns a
    /// second subprocess; an unsupported language is refused without error;
    /// otherwise a fresh session is registered and the shell is told to
    /// spawn.
    pub fn start_server(&mut self, language: &str) -> (r: StartStep)
        requires
            old(self).wf(),
        ensures
            final(self).wf(),
            match spec_parse_language(language@) {
                None => r is Unsupported && *final(self) == *old(self),
                Some(l) => final(self).frame(*old(self), l) && start_transition(
                    old(self).slot_spec(l),
                    final(self).slot_spec(l),
                    l,
                    r,
                ),
            },
    {
        let parsed = parse_language(language);
        let r: StartStep;
        match parsed {
            None => {
                r = StartStep::Unsupported;
            },
            Some(l) => {
                match l {
                    Language::TypeScript => {
                        r = Self::start_slot(&mut self.typescript, l);
                    },
                    Language::JavaScript => {
                        r = Self::start_slot(&mut self.javascript, l);
                    },
                    Language::Rust => {
                        r = Self::start_slot(&mut self.rust_analysis, l);
                    },
                    Language::Python => {
                        r = Self::start_slot(&mut self.python, l);
                    },
                }
                proof {
                    self.lemma_wf_update(*old(self), l);
                }
            },
        }
        r
    }

    fn start_slot(slot: &mut Option<ServerSession>, l: Language) -> (r: StartStep)
        ensures
            start_transition(*old(slot), *final(slot), l, r),
    {
        let r: StartStep;
        match slot {
            Some(_) => {
                r = StartStep::AlreadyRunning;
            },
            None => {
                *slot = Some(ServerSession::new(l));
                r = StartStep::Spawn(l);
            },
        }
        r
    }

    /// The subprocess of a starting session is spawned and its reader loop
    /// runs: the initialization request goes out under the returned
    /// identifier (always 0, the counter's first draw).  Reported for a
    /// session not awaiting a spawn, or for an unknown language, nothing
    /// changes.
    pub fn on_spawned(&mut self, language: &str) -> (r: Option<u64>)
        requires
            old(self).wf(),
        ensures
            final(self).wf(),
            match spec_parse_language(language@) {
                None => r is None && *final(self) == *old(self),
                Some(l) => final(self).frame(*old(self), l) && spawned_transition(
                    old(self).slot_spec(l),
                    final(self).slot_spec(l),
                    r,
                ),
            },
    {
        let parsed = parse_language(language);
        let r: Option<u64>;
        match parsed {
            None => {
                r = None;
            },
            Some(l) => {
                proof {
                    assert(old(self).wf_at(l));
                }
                match l {
                    Language::TypeScript => {
                        r = Self::spawned_slot(&mut self.typescript);
                    },
                    Language::JavaScript => {
                        r = Self::spawned_slot(&mut self.javascript);
                    },
                    Language::Rust => {
                        r = Self::spawned_slot(&mut self.rust_analysis);
                    },
                    Language::Python => {
                        r = Self::spawned_slot(&mut self.python);
                    },
                }
                proof {
                    self.lemma_wf_update(*old(self), l);
                }
            },
        }
        r
    }

    fn spawned_slot(slot: &mut Option<ServerSession>) -> (r: Option<u64>)
        requires
            match *old(slot) {
                Some(s) => s.wf(),
                None => true,
            },
        ensures
            spawned_transition(*old(slot), *final(slot), r),
    {
        let r: Option<u64>;
        match slot {
            Some(sess) => {
                let is_starting = match sess.state {
                    SessionState::Starting => true,
                    _ => false,
                };
                if is_starting {
                    r = Some(sess.begin_initialize());
                } else {
                    r = None;
                }
            },
            None => {
                r = None;
            },
        }
        r
    }

    /// Spawning the subprocess failed (binary missing or unexecutable): the
    /// session awaiting it is torn down, and the shell surfaces the typed
    /// spawn error to the caller of start.
    pub fn on_spawn_failed(&mut self, language: &str) -> (r: bool)
        requires
            old(self).wf(),
        ensures
            final(self).wf(),
            match spec_parse_language(language@) {
                None => !r && *final(self) == *old(self),
                Some(l) => final(self).frame(*old(self), l) && spawn_failed_transition(
                    old(self).slot_spec(l),
                    final(self).slot_spec(l),
                    r,
                ),
            },
    {
        let parsed = parse_language(language);
        let r: bool;
        match parsed {
            None => {
                r = false;
            },
            Some(l) => {
                proof {
                    assert(old(self).wf_at(l));
                }
                match l {
                    Language::TypeScript => {
                        r = Self::spawn_failed_slot(&mut self.typescript);
                    },
                    Language::JavaScript => {
                        r = Self::spawn_failed_slot(&mut self.javascript);
                    },
                    Language::Rust => {
                        r = Self::spawn_failed_slot(&mut self.rust_analysis);
                    },
                    Language::Python => {
                        r = Self::spawn_failed_slot(&mut self.python);
                    },
                }
                proof {
                    self.lemma_wf_update(*old(self), l);
                }
            },
        }
        r
    }

    fn spawn_failed_slot(slot: &mut Option<ServerSession>) -> (r: bool)
        ensures
            spawn_failed_transition(*old(slot), *final(slot), r),
    {
        let is_starting: bool;
        match slot {
            Some(sess) => {
                is_starting = match sess.state {
                    SessionState::Starting => true,
                    _ => false,
                };
            },
            None => {
                is_starting = false;
            },
        }
        if is_starting {
            *slot = None;
            true
        } else {
            false
        }
    }

    /// Routes a response read off a session's transport to the pending
    /// request carrying its identifier.  Exactly that request is resolved;
    /// the response to the initialization request makes the session ready;
    /// an unmatched identifier is dropped without harm.
    pub fn on_response(&mut self, language: &str, id: u64) -> (r: ResponseStep)
        requires
            old(self).wf(),
        ensures
            final(self).wf(),
            match spec_parse_language(language@) {
                None => r is Dropped && *final(self) == *old(self),
                Some(l) => final(self).frame(*old(self), l) && response_transition(
                    old(self).slot_spec(l),
                    final(self).slot_spec(l),
                    id,
                    r,
                ),
            },
    {
        let parsed = parse_language(language);
        let r: ResponseStep;
        match parsed {
            None => {
                r = ResponseStep::Dropped;
            },
            Some(l) => {
                proof {
                    assert(old(self).wf_at(l));
                }
                match l {
                    Language::TypeScript => {
                        r = Self::response_slot(&mut self.typescript, id);
                    },
                    Language::JavaScript => {
                        r = Self::response_slot(&mut self.javascript, id);
                    },
                    Language::Rust => {
                        r = Self::response_slot(&mut self.rust_analysis, id);
                    },
                    Language::Python => {
                        r = Self::response_slot(&mut self.python, id);
                    },
                }
                proof {
                    self.lemma_wf_update(*old(self), l);
                }
            },
        }
        r
    }

    fn response_slot(slot: &mut Option<ServerSession>, id: u64) -> (r: ResponseStep)
        requires
            match *old(slot) {
                Some(s) => s.wf(),
                None => true,
            },
        ensures
            response_transition(*old(slot), *final(slot), id, r),
    {
        let r: ResponseStep;
        match slot {
            Some(sess) => {
                r = sess.handle_response(id);
            },
            None => {
                r = ResponseStep::Dropped;
            },
        }
        r
    }

    /// The reader loop found the session's stream closed — the subprocess
    /// exited or its pipe broke.  The session degrades: further sends are
    /// rejected, and every pending identifier is returned so the shell fails
    /// each waiting caller at once instead of letting it hang.
    pub fn on_transport_closed(&mut self, language: &str) -> (failed: Vec<u64>)
        requires
            old(self).wf(),
        ensures
            final(self).wf(),
            match spec_parse_language(language@) {
                None => failed@.len() == 0 && *final(self) == *old(self),
                Some(l) => final(self).frame(*old(self), l) && closed_transition(
                    old(self).slot_spec(l),
                    final(self).slot_spec(l),
                    failed@,
                ),
            },
    {
        let parsed = parse_language(language);
        let failed: Vec<u64>;
        match parsed {
            None => {
                failed = Vec::new();
            },
            Some(l) => {
                proof {
                    assert(old(self).wf_at(l));
                }
                match l {
                    Language::TypeScript => {
                        failed = Self::closed_slot(&mut self.typescript);
                    },
                    Language::JavaScript => {
                        failed = Self::closed_slot(&mut self.javascript);
                    },
                    Language::Rust => {
                        failed = Self::closed_slot(&mut self.rust_analysis);
                    },
                    Language::Python => {
                        failed = Self::closed_slot(&mut self.python);
                    },
                }
                proof {
                    self.lemma_wf_update(*old(self), l);
                }
            },
        }
        failed
    }

    fn closed_slot(slot: &mut Option<ServerSession>) -> (failed: Vec<u64>)
        requires
            match *old(slot) {
                Some(s) => s.wf(),
                None => true,
            },
        ensures
            closed_transition(*old(slot), *final(slot), failed@),
    {
        let failed: Vec<u64>;
        match slot {
            Some(sess) => {
                failed = sess.transport_closed();
            },
            None => {
                failed = Vec::new();
            },
        }
        failed
    }

    /// A request timed out without a response: its entry alone is removed, so
    /// a late response to it will be dropped.
    pub fn on_request_timeout(&mut self, language: &str, id: u64) -> (found: bool)
        requires
            old(self).wf(),
        ensures
            final(self).wf(),
            match spec_parse_language(language@) {
                None => !found && *final(self) == *old(self),
                Some(l) => final(self).frame(*old(self), l) && timeout_transition(
                    old(self).slot_spec(l),
                    final(self).slot_spec(l),
                    id,
                    found,
                ),
            },
    {
        let parsed = parse_language(language);
        let found: bool;
        match parsed {
            None => {
                found = false;
            },
            Some(l) => {
                proof {
                    assert(old(self).wf_at(l));
                }
                match l {
                    Language::TypeScript => {
                        found = Self::timeout_slot(&mut self.typescript, id);
                    },
                    Language::JavaScript => {
                        found = Self::timeout_slot(&mut self.javascript, id);
                    },
                    Language::Rust => {
                        found = Self::timeout_slot(&mut self.rust_analysis, id);
                    },
                    Language::Python => {
                        found = Self::timeout_slot(&mut self.python, id);
                    },
                }
                proof {
                    self.lemma_wf_update(*old(self), l);
                }
            },
        }
        found
    }

    fn timeout_slot(slot: &mut Option<ServerSession>, id: u64) -> (found: bool)
        requires
            match *old(slot) {
                Some(s) => s.wf(),
                None => true,
            },
        ensures
            timeout_transition(*old(slot), *final(slot), id, found),
    {
        let found: bool;
        match slot {
            Some(sess) => {
                found = sess.request_timeout(id);
            },
            None => {
                found = false;
            },
        }
        found
    }

    /// Stops a language's session: the session is destroyed, its subprocess
    /// is to be terminated, and every identifier still pending is returned so
    /// the shell fails each waiting caller — no caller is ever left waiting.
    /// Returns `None` (the caller's `false`) when no session existed.
    pub fn stop_server(&mut self, language: &str) -> (r: Option<Vec<u64>>)
        requires
            old(self).wf(),
        ensures
            final(self).wf(),
            match spec_parse_language(language@) {
                None => r is None && *final(self) == *old(self),
                Some(l) => final(self).frame(*old(self), l) && stop_transition(
                    old(self).slot_spec(l),
                    final(self).slot_spec(l),
                    r,
                ),
            },
    {
        let parsed = parse_language(language);
        let r: Option<Vec<u64>>;
        match parsed {
            None => {
                r = None;
            },
            Some(l) => {
                proof {
                    assert(old(self).wf_at(l));
                }
                match l {
                    Language::TypeScript => {
                        r = Self::stop_slot(&mut self.typescript);
                    },
                    Language::JavaScript => {
                        r = Self::stop_slot(&mut self.javascript);
                    },
                    Language::Rust => {
                        r = Self::stop_slot(&mut self.rust_analysis);
                    },
                    Language::Python => {
                        r = Self::stop_slot(&mut self.python);
                    },
                }
                proof {
                    self.lemma_wf_update(*old(self), l);
                }
            },
        }
        r
    }

    fn stop_slot(slot: &mut Option<ServerSession>) -> (r: Option<Vec<u64>>)
        requires
            match *old(slot) {
                Some(s) => s.wf(),
                None => true,
            },
        ensures
            stop_transition(*old(slot), *final(slot), r),
    {
        let taken = slot.take();
        match taken {
            Some(sess) => {
                let mut sess = sess;
                let ids = sess.correlator.fail_all();
                Some(ids)
            },
            None => None,
        }
    }

    /// Asks for completions.  Only a ready session yields a request
    /// identifier for the shell to dispatch under a bounded timeout; in every
    /// other case — no session, still initializing, degraded — the answer is
    /// absent at once and the caller receives an empty list, never an error
    /// and never a hang.
    pub fn get_completions(&mut self, language: &str) -> (r: Option<u64>)
        requires
            old(self).wf(),
        ensures
            final(self).wf(),
            match spec_parse_language(language@) {
                None => r is None && *final(self) == *old(self),
                Some(l) => final(self).frame(*old(self), l) && completions_transition(
                    old(self).slot_spec(l),
                    final(self).slot_spec(l),
                    r,
                ),
            },
    {
        let parsed = parse_language(language);
        let r: Option<u64>;
        match parsed {
            None => {
                r = None;
            },
            Some(l) => {
                proof {
                    assert(old(self).wf_at(l));
                }
                match l {
                    Language::TypeScript => {
                        r = Self::completions_slot(&mut self.typescript);
                    },
                    Language::JavaScript => {
                        r = Self::completions_slot(&mut self.javascript);
                    },
                    Language::Rust => {
                        r = Self::completions_slot(&mut self.rust_analysis);
                    },
                    Language::Python => {
                        r = Self::completions_slot(&mut self.python);
                    },
                }
                proof {
                    self.lemma_wf_update(*old(self), l);
                }
            },
        }
        r
    }

    fn completions_slot(slot: &mut Option<ServerSession>) -> (r: Option<u64>)
        requires
            match *old(slot) {
                Some(s) => s.wf(),
                None => true,
            },
        ensures
            completions_transition(*old(slot), *final(slot), r),
    {
        let r: Option<u64>;
        match slot {
            Some(sess) => {
                r = sess.begin_request();
            },
            None => {
                r = None;
            },
        }
        r
    }

    /// Opens a document in a language's session: its version becomes 1 and
    /// the opening notification travels with the full content.  Against an
    /// absent or not-ready session this is a silent no-op.
    pub fn open_file(&mut self, language: &str, uri: &str) -> (r: Option<u64>)
        requires
            old(self).wf(),
        ensures
            final(self).wf(),
            match spec_parse_language(language@) {
                None => r is None && *final(self) == *old(self),
                Some(l) => final(self).frame(*old(self), l) && open_transition(
                    old(self).slot_spec(l),
                    final(self).slot_spec(l),
                    uri@,
                    r,
                ),
            },
    {
        let parsed = parse_language(language);
        let r: Option<u64>;
        match parsed {
            None => {
                r = None;
            },
            Some(l) => {
                proof {
                    assert(old(self).wf_at(l));
                }
                match l {
                    Language::TypeScript => {
                        r = Self::open_slot(&mut self.typescript, uri);
                    },
                    Language::JavaScript => {
                        r = Self::open_slot(&mut self.javascript, uri);
                    },
                    Language::Rust => {
                        r = Self::open_slot(&mut self.rust_analysis, uri);
                    },
                    Language::Python => {
                        r = Self::open_slot(&mut self.python, uri);
                    },
                }
                proof {
                    self.lemma_wf_update(*old(self), l);
                }
            },
        }
        r
    }

    fn open_slot(slot: &mut Option<ServerSession>, uri: &str) -> (r: Option<u64>)
        requires
            match *old(slot) {
                Some(s) => s.wf(),
                None => true,
            },
        ensures
            open_transition(*old(slot), *final(slot), uri@, r),
    {
        let r: Option<u64>;
        match slot {
            Some(sess) => {
                r = sess.open_doc(uri);
            },
            None => {
                r = None;
            },
        }
        r
    }

    /// Synchronizes a change to a document: an untracked document is
    /// implicitly opened at version 1, a tracked one advances by exactly 1,
    /// and the change notification travels with the whole new content under
    /// the returned version.  Against an absent or not-ready session this is
    /// a silent no-op.
    pub fn update_file(&mut self, language: &str, uri: &str) -> (r: Option<u64>)
        requires
            old(self).wf(),
        ensures
            final(self).wf(),
            match spec_parse_language(language@) {
                None => r is None && *final(self) == *old(self),
                Some(l) => final(self).frame(*old(self), l) && change_transition(
                    old(self).slot_spec(l),
                    final(self).slot_spec(l),
                    uri@,
                    r,
                ),
            },
    {
        let parsed = parse_language(language);
        let r: Option<u64>;
        match parsed {
            None => {
                r = None;
            },
            Some(l) => {
                proof {
                    assert(old(self).wf_at(l));
                }
                match l {
                    Language::TypeScript => {
                        r = Self::change_slot(&mut self.typescript, uri);
                    },
                    Language::JavaScript => {
                        r = Self::change_slot(&mut self.javascript, uri);
                    },
                    Language::Rust => {
                        r = Self::change_slot(&mut self.rust_analysis, uri);
                    },
                    Language::Python => {
                        r = Self::change_slot(&mut self.python, uri);
                    },
                }
                proof {
                    self.lemma_wf_update(*old(self), l);
                }
            },
        }
        r
    }

    fn change_slot(slot: &mut Option<ServerSession>, uri: &str) -> (r: Option<u64>)
        requires
            match *old(slot) {
                Some(s) => s.wf(),
                None => true,
            },
        ensures
            change_transition(*old(slot), *final(slot), uri@, r),
    {
        let r: Option<u64>;
        match slot {
            Some(sess) => {
                r = sess.change_doc(uri);
            },
            None => {
                r = None;
            },
        }
        r
    }

    /// Closes a document: its version counter is discarded and the closing
    /// notification travels.  Against an absent or not-ready session this is
    /// a silent no-op.
    pub fn close_file(&mut self, language: &str, uri: &str) -> (r: bool)
        requires
            old(self).wf(),
        ensures
            final(self).wf(),
            match spec_parse_language(language@) {
                None => !r && *final(self) == *old(self),
                Some(l) => final(self).frame(*old(self), l) && close_transition(
                    old(self).slot_spec(l),
                    final(self).slot_spec(l),
                    uri@,
                    r,
                ),
            },
    {
        let parsed = parse_language(language);
        let r: bool;
        match parsed {
            None => {
                r = false;
            },
            Some(l) => {
                proof {
                    assert(old(self).wf_at(l));
                }
                match l {
                    Language::TypeScript => {
                        r = Self::close_slot(&mut self.typescript, uri);
                    },
                    Language::JavaScript => {
                        r = Self::close_slot(&mut self.javascript, uri);
                    },
                    Language::Rust => {
                        r = Self::close_slot(&mut self.rust_analysis, uri);
                    },
                    Language::Python => {
                        r = Self::close_slot(&mut self.python, uri);
                    },
                }
                proof {
                    self.lemma_wf_update(*old(self), l);
                }
            },
        }
        r
    }

    fn close_slot(slot: &mut Option<ServerSession>, uri: &str) -> (r: bool)
        requires
            match *old(slot) {
                Some(s) => s.wf(),
                None => true,
            },
        ensures
            close_transition(*old(slot), *final(slot), uri@, r),
    {
        let r: bool;
        match slot {
            Some(sess) => {
                r = sess.close_doc(uri);
            },
            None => {
                r = false;
            },
        }
        r
    }

    /// Absorbs a server-pushed diagnostics notification: the cached set for
    /// that URI is replaced wholesale by the new one.  With no session for
    /// the language the notification is dropped.
    pub fn record_diagnostics(&mut self, language: &str, uri: &str, diags: Vec<LspDiagnostic>) -> (r:
        bool)
        requires
            old(self).wf(),
        ensures
            final(self).wf(),
            match spec_parse_language(language@) {
                None => !r && *final(self) == *old(self),
                Some(l) => final(self).frame(*old(self), l) && record_transition(
                    old(self).slot_spec(l),
                    final(self).slot_spec(l),
                    uri@,
                    diags,
                    r,
                ),
            },
    {
        let parsed = parse_language(language);
        let r: bool;
        match parsed {
            None => {
                r = false;
            },
            Some(l) => {
                proof {
                    assert(old(self).wf_at(l));
                }
                match l {
                    Language::TypeScript => {
                        r = Self::record_slot(&mut self.typescript, uri, diags);
                    },
                    Language::JavaScript => {
                        r = Self::record_slot(&mut self.javascript, uri, diags);
                    },
                    Language::Rust => {
                        r = Self::record_slot(&mut self.rust_analysis, uri, diags);
                    },
                    Language::Python => {
                        r = Self::record_slot(&mut self.python, uri, diags);
                    },
                }
                proof {
                    self.lemma_wf_update(*old(self), l);
                }
            },
        }
        r
    }

    fn record_slot(slot: &mut Option<ServerSession>, uri: &str, diags: Vec<LspDiagnostic>) -> (r:
        bool)
        requires
            match *old(slot) {
                Some(s) => s.wf(),
                None => true,
            },
        ensures
            record_transition(*old(slot), *final(slot), uri@, diags, r),
    {
        let r: bool;
        match slot {
            Some(sess) => {
                sess.record_diagnostics(uri, diags);
                r = true;
            },
            None => {
                r = false;
            },
        }
        r
    }

    /// The latest diagnostics pushed for a URI in a language's session, or
    /// absence — read by the caller as an empty list — when no session exists
    /// or nothing was ever published for that URI.  A snapshot read: it never
    /// blocks and never errs.
    pub fn get_diagnostics(&self, language: &str, uri: &str) -> (r: Option<&Vec<LspDiagnostic>>)
        requires
            self.wf(),
        ensures
            match spec_parse_language(language@) {
                None => r is None,
                Some(l) => match self.slot_spec(l) {
                    None => r is None,
                    Some(s) => match r {
                        Some(v) => s.diagnostics.spec_get(uri@) == Some(*v),
                        None => s.diagnostics.spec_get(uri@) == None::<Vec<LspDiagnostic>>,
                    },
                },
            },
    {
        let parsed = parse_language(language);
        match parsed {
            None => None,
            Some(l) => {
                proof {
                    assert(self.wf_at(l));
                }
                let slot = match l {
                    Language::TypeScript => &self.typescript,
                    Language::JavaScript => &self.javascript,
                    Language::Rust => &self.rust_analysis,
                    Language::Python => &self.python,
                };
                match slot {
                    Some(sess) => sess.diagnostics_for(uri),
                    None => None,
                }
            },
        }
    }

    /// After the addressed slot alone changed, and its new session (if any)
    /// is consistent and keeps its language, the registry invariant holds
    /// again.
    proof fn lemma_wf_update(self, before: LspService, l: Language)
        requires
            before.wf(),
            self.frame(before, l),
            self.wf_at(l),
        ensures
            self.wf(),
    {
        assert forall|l2: Language| #[trigger] self.wf_at(l2) by {
            if l2 != l {
                assert(before.wf_at(l2));
                assert(self.slot_spec(l2) == before.slot_spec(l2));
            }
        }
    }
}

/// Starting a language that already has a session reports success and leaves
/// the registry's single session for it exactly as it was: a second start
/// never spawns a second subprocess.
pub proof fn lemma_start_idempotent(
    before: Option<ServerSession>,
    after: Option<ServerSession>,
    l: Language,
    r: StartStep,
)
    requires
        before is Some,
        start_transition(before, after, l, r),
    ensures
        r is AlreadyRunning,
        after == before,
{
}

/// A completion query for a language with no started session yields absence
/// — read as an empty list — at once, never an error, and changes nothing.
pub proof fn lemma_completions_without_session(
    before: Option<ServerSession>,
    after: Option<ServerSession>,
    r: Option<u64>,
)
    requires
        before is None,
        completions_transition(before, after, r),
    ensures
        r is None,
        after == before,
{
}

/// Stopping a session hands back every identifier that was still pending for
/// it, so each waiting caller is failed promptly rather than left hanging.
pub proof fn lemma_stop_fails_all_pending(
    before: Option<ServerSession>,
    after: Option<ServerSession>,
    r: Option<Vec<u64>>,
    id: u64,
)
    requires
        before is Some,
        before->Some_0.correlator.is_pending(id),
        stop_transition(before, after, r),
    ensures
        after is None,
        r is Some,
        r->Some_0@.contains(id),
{
}

/// Of two diagnostic sets pushed for the same URI, only the second — the
/// latest — remains retrievable afterwards.
pub proof fn lemma_diagnostics_latest_wins(
    s0: Option<ServerSession>,
    s1: Option<ServerSession>,
    s2: Option<ServerSession>,
    uri: Seq<char>,
    first: Vec<LspDiagnostic>,
    second: Vec<LspDiagnostic>,
    r1: bool,
    r2: bool,
)
    requires
        s0 is Some,
        record_transition(s0, s1, uri, first, r1),
        record_transition(s1, s2, uri, second, r2),
    ensures
        s2 is Some,
        s2->Some_0.diagnostics.spec_get(uri) == Some(second),
{
}

/// Sequential changes to one tracked document produce strictly increasing
/// version numbers: each change advances the stored version by exactly 1
/// while the counter has room, and an untracked document starts at 1.
pub proof fn lemma_versions_strictly_increase(
    before: Option<ServerSession>,
    after: Option<ServerSession>,
    uri: Seq<char>,
    r: Option<u64>,
)
    requires
        before is Some,
        before->Some_0.state is Ready,
        match before->Some_0.docs.spec_get(uri) {
            Some(v) => v < u64::MAX,
            None => true,
        },
        change_transition(before, after, uri, r),
    ensures
        r is Some,
        after is Some,
        after->Some_0.docs.spec_get(uri) == Some(r->Some_0),
        match before->Some_0.docs.spec_get(uri) {
            Some(v0) => r->Some_0 == v0 + 1 && r->Some_0 > v0,
            None => r->Some_0 == 1,
        },
{
}

/// Two different languages' sessions are independent: an operation addressed
/// to one language — every mutating operation of the registry ensures this
/// frame — leaves the other language's slot exactly as it was.
pub proof fn lemma_languages_independent(
    before: LspService,
    after: LspService,
    l1: Language,
    l2: Language,
)
    requires
        after.frame(before, l1),
        l1 != l2,
    ensures
        after.slot_spec(l2) == before.slot_spec(l2),
{
}

/// When the subprocess backing a session exits unexpectedly, the session
/// degrades with no request left pending, and a subsequent completion query
/// against it yields absence at once: it fails fast instead of hanging.
pub proof fn lemma_degraded_fails_fast(
    s0: Option<ServerSession>,
    s1: Option<ServerSession>,
    failed: Seq<u64>,
    s2: Option<ServerSession>,
    r: Option<u64>,
)
    requires
        s0 is Some,
        closed_transition(s0, s1, failed),
        completions_transition(s1, s2, r),
    ensures
        s1 is Some,
        s1->Some_0.state is Degraded,
        s1->Some_0.correlator.pending_count() == 0,
        r is None,
        s2 == s1,
{
}

} // verus!
