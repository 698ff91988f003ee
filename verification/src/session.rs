//! One language-analysis session: lifecycle, correlation, documents,
//! diagnostics.
//!
//! A session owns the pending-request table, the per-document version
//! counters and the latest-diagnostics cache for one spawned analysis
//! process.  The unverified shell performs the spawning and the byte I/O and
//! reports events back; every transition the session takes on such an event
//! is decided and proved here.  A stopped session is destroyed, so the stored
//! state never holds a terminal "stopped" value: removal from the registry is
//! that terminal state.

use vstd::prelude::*;

verus! {

use crate::correlator::Correlator;
use crate::language::Language;
use crate::table::StrTable;
use crate::types::LspDiagnostic;

/// Where a live session stands in its lifecycle.
#[derive(Debug, Clone, Copy, PartialEq, Eq, Structural)]
pub enum SessionState {
    /// The subprocess is being spawned; no request has been sent yet.
    Starting,
    /// The initialization request is outstanding.
    Initializing,
    /// The handshake is complete; requests and notifications may flow.
    Ready,
    /// The transport failed or the subprocess exited; every pending request
    /// has been failed and further sends are rejected.
    Degraded,
}

/// How an incoming response was routed.
#[derive(Debug, Clone, Copy, PartialEq, Eq, Structural)]
pub enum ResponseStep {
    /// The identifier matches no pending request: the message is dropped
    /// without terminating anything.
    Dropped,
    /// The response completes the initialization handshake: the session is
    /// now ready and the handshake-completion notification must be sent.
    InitComplete,
    /// The response resolves an ordinary pending request; its payload belongs
    /// to the caller waiting on this identifier.
    Resolved,
}

/// One running analysis subprocess with its correlation table, document
/// version counters and diagnostics cache.
pub struct ServerSession {
    /// The language this session serves.
    pub language: Language,
    /// Lifecycle state.
    pub state: SessionState,
    /// Identifiers of in-flight requests.
    pub correlator: Correlator,
    /// The identifier the initialization request was sent under.
    pub init_request_id: Option<u64>,
    /// Last sent version of each open document, keyed by URI.
    pub docs: StrTable<u64>,
    /// Latest published diagnostics, keyed by URI.
    pub diagnostics: StrTable<Vec<LspDiagnostic>>,
}

impl ServerSession {
    /// Internal consistency of a live session.  Tracked document versions
    /// are at least 1: they start at 1 on open and only ever advance.
    pub open spec fn wf(self) -> bool {
        &&& self.correlator.wf()
        &&& self.docs.wf()
        &&& self.diagnostics.wf()
        &&& (forall|k: Seq<char>|
            match #[trigger] self.docs.spec_get(k) {
                Some(v) => v >= 1,
                None => true,
            })
        &&& (self.state is Starting ==> self.correlator.next_id == 0
            && self.correlator.pending_count() == 0 && self.init_request_id is None)
        &&& (self.state is Initializing ==> self.init_request_id is Some)
        &&& (self.state is Degraded ==> self.correlator.pending_count() == 0)
    }

    /// A session just created for a spawn, with nothing sent, nothing
    /// tracked, nothing cached.
    pub open spec fn is_fresh(self, l: Language) -> bool {
        &&& self.language == l
        &&& self.state is Starting
        &&& self.correlator.next_id == 0
        &&& self.correlator.pending_count() == 0
        &&& self.docs.len() == 0
        &&& (forall|k: Seq<char>| self.docs.spec_get(k) == None::<u64>)
        &&& self.diagnostics.len() == 0
        &&& (forall|k: Seq<char>| self.diagnostics.spec_get(k) == None::<Vec<LspDiagnostic>>)
        &&& self.init_request_id is None
    }

    /// Everything but the lifecycle state and the correlator is unchanged.
    pub open spec fn same_but_lifecycle(self, other: ServerSession) -> bool {
        &&& self.language == other.language
        &&& self.init_request_id == other.init_request_id
        &&& self.docs == other.docs
        &&& self.diagnostics == other.diagnostics
    }

    /// Creates the session for a subprocess about to be spawned.
    pub fn new(l: Language) -> (r: ServerSession)
        ensures
            r.wf(),
            r.is_fresh(l),
    {
        ServerSession {
            language: l,
            state: SessionState::Starting,
            correlator: Correlator::new(),
            init_request_id: None,
            docs: StrTable::new(),
            diagnostics: StrTable::new(),
        }
    }

    /// The subprocess is spawned and its reader loop runs: draw the
    /// identifier for the initialization request and await its response.
    pub fn begin_initialize(&mut self) -> (id: u64)
        requires
            old(self).wf(),
            old(self).state is Starting,
        ensures
            final(self).wf(),
            final(self).state is Initializing,
            id == 0,
            final(self).init_request_id == Some(id),
            final(self).correlator.is_pending(id),
            final(self).correlator.pending_count() == 1,
            final(self).correlator.next_id == 1,
            final(self).language == old(self).language,
            final(self).docs == old(self).docs,
            final(self).diagnostics == old(self).diagnostics,
    {
        let id = self.correlator.allocate();
        self.init_request_id = Some(id);
        self.state = SessionState::Initializing;
        id
    }

    /// Routes a response that arrived from the subprocess.  Exactly the
    /// pending request with this identifier is resolved; an unknown
    /// identifier changes nothing.
    pub fn handle_response(&mut self, id: u64) -> (r: ResponseStep)
        requires
            old(self).wf(),
        ensures
            final(self).wf(),
            final(self).same_but_lifecycle(*old(self)),
            final(self).correlator.next_id == old(self).correlator.next_id,
            !old(self).correlator.is_pending(id) ==> r is Dropped && *final(self) == *old(self),
            old(self).correlator.is_pending(id) ==> {
                &&& !final(self).correlator.is_pending(id)
                &&& forall|x: u64|
                    x != id ==> final(self).correlator.is_pending(x) == old(
                        self,
                    ).correlator.is_pending(x)
                &&& final(self).correlator.pending_count() == old(self).correlator.pending_count()
                    - 1
                &&& if old(self).state is Initializing && old(self).init_request_id == Some(id) {
                    r is InitComplete && final(self).state is Ready
                } else {
                    r is Resolved && final(self).state == old(self).state
                }
            },
    {
        let found = self.correlator.resolve(id);
        if !found {
            return ResponseStep::Dropped;
        }
        let is_init = match self.state {
            SessionState::Initializing => match self.init_request_id {
                Some(init_id) => init_id == id,
                None => false,
            },
            _ => false,
        };
        if is_init {
            self.state = SessionState::Ready;
            ResponseStep::InitComplete
        } else {
            ResponseStep::Resolved
        }
    }

    /// The underlying stream closed or the subprocess exited: the session
    /// degrades, and every pending request is handed back so each waiting
    /// caller can be failed at once.
    pub fn transport_closed(&mut self) -> (failed: Vec<u64>)
        requires
            old(self).wf(),
        ensures
            final(self).wf(),
            final(self).same_but_lifecycle(*old(self)),
            final(self).state is Degraded,
            failed@ == old(self).correlator.pending@,
            final(self).correlator.pending_count() == 0,
            final(self).correlator.next_id == old(self).correlator.next_id,
    {
        self.state = SessionState::Degraded;
        self.correlator.fail_all()
    }

    /// A request timed out: its entry is removed so the identifier is no
    /// longer awaited.  Returns whether the entry still existed.
    pub fn request_timeout(&mut self, id: u64) -> (found: bool)
        requires
            old(self).wf(),
        ensures
            final(self).wf(),
            final(self).same_but_lifecycle(*old(self)),
            final(self).state == old(self).state,
            found == old(self).correlator.is_pending(id),
            !final(self).correlator.is_pending(id),
            forall|x: u64|
                x != id ==> final(self).correlator.is_pending(x) == old(
                    self,
                ).correlator.is_pending(x),
            final(self).correlator.next_id == old(self).correlator.next_id,
    {
        self.correlator.resolve(id)
    }

    /// Draws a fresh identifier for an ordinary request, available only once
    /// the session is ready and while the counter has room.
    pub fn begin_request(&mut self) -> (r: Option<u64>)
        requires
            old(self).wf(),
        ensures
            final(self).wf(),
            final(self).same_but_lifecycle(*old(self)),
            final(self).state == old(self).state,
            r is Some <==> (old(self).state is Ready && old(self).correlator.next_id < u64::MAX),
            r is None ==> *final(self) == *old(self),
            r is Some ==> {
                &&& r->Some_0 == old(self).correlator.next_id
                &&& final(self).correlator.next_id == old(self).correlator.next_id + 1
                &&& !old(self).correlator.is_pending(r->Some_0)
                &&& final(self).correlator.is_pending(r->Some_0)
                &&& forall|x: u64|
                    x != r->Some_0 ==> final(self).correlator.is_pending(x) == old(
                        self,
                    ).correlator.is_pending(x)
            },
    {
        match self.state {
            SessionState::Ready => {
                if self.correlator.next_id < u64::MAX {
                    Some(self.correlator.allocate())
                } else {
                    None
                }
            },
            _ => None,
        }
    }

    /// Opens a document: its version becomes 1.  Against a session that is
    /// not ready this is a no-op reported as absence.
    pub fn open_doc(&mut self, uri: &str) -> (r: Option<u64>)
        requires
            old(self).wf(),
        ensures
            final(self).wf(),
            r is Some <==> old(self).state is Ready,
            r is None ==> *final(self) == *old(self),
            r is Some ==> {
                &&& r == Some(1u64)
                &&& final(self).docs.spec_get(uri@) == Some(1u64)
                &&& forall|k: Seq<char>|
                    k != uri@ ==> final(self).docs.spec_get(k) == old(self).docs.spec_get(k)
                &&& final(self).state == old(self).state
                &&& final(self).language == old(self).language
                &&& final(self).correlator == old(self).correlator
                &&& final(self).init_request_id == old(self).init_request_id
                &&& final(self).diagnostics == old(self).diagnostics
            },
    {
        match self.state {
            SessionState::Ready => {
                self.docs.set(uri.to_owned(), 1);
                Some(1)
            },
            _ => None,
        }
    }

    /// Synchronizes a change: an untracked document is implicitly opened at
    /// version 1, a tracked one advances by exactly 1 while the counter has
    /// room.  Returns the version the change travels under.
    pub fn change_doc(&mut self, uri: &str) -> (r: Option<u64>)
        requires
            old(self).wf(),
        ensures
            final(self).wf(),
            r is Some <==> old(self).state is Ready,
            r is None ==> *final(self) == *old(self),
            r is Some ==> {
                &&& r->Some_0 == (match old(self).docs.spec_get(uri@) {
                    None => 1u64,
                    Some(v0) => if v0 < u64::MAX {
                        (v0 + 1) as u64
                    } else {
                        v0
                    },
                })
                &&& final(self).docs.spec_get(uri@) == Some(r->Some_0)
                &&& forall|k: Seq<char>|
                    k != uri@ ==> final(self).docs.spec_get(k) == old(self).docs.spec_get(k)
                &&& final(self).state == old(self).state
                &&& final(self).language == old(self).language
                &&& final(self).correlator == old(self).correlator
                &&& final(self).init_request_id == old(self).init_request_id
                &&& final(self).diagnostics == old(self).diagnostics
            },
    {
        match self.state {
            SessionState::Ready => {
                let v: u64 = match self.docs.get(uri) {
                    None => 1,
                    Some(v0) => {
                        if *v0 < u64::MAX {
                            *v0 + 1
                        } else {
                            *v0
                        }
                    },
                };
                self.docs.set(uri.to_owned(), v);
                Some(v)
            },
            _ => None,
        }
    }

    /// Closes a document: its version counter is discarded.  Returns whether
    /// the closing notification is to be emitted, which it is exactly when
    /// the session is ready.
    pub fn close_doc(&mut self, uri: &str) -> (r: bool)
        requires
            old(self).wf(),
        ensures
            final(self).wf(),
            r <==> old(self).state is Ready,
            !r ==> *final(self) == *old(self),
            r ==> {
                &&& final(self).docs.spec_get(uri@) == None::<u64>
                &&& forall|k: Seq<char>|
                    k != uri@ ==> final(self).docs.spec_get(k) == old(self).docs.spec_get(k)
                &&& final(self).state == old(self).state
                &&& final(self).language == old(self).language
                &&& final(self).correlator == old(self).correlator
                &&& final(self).init_request_id == old(self).init_request_id
                &&& final(self).diagnostics == old(self).diagnostics
            },
    {
        match self.state {
            SessionState::Ready => {
                self.docs.remove(uri);
                true
            },
            _ => false,
        }
    }

    /// Stores a pushed diagnostic set, replacing wholesale whatever was
    /// cached for that URI before.
    pub fn record_diagnostics(&mut self, uri: &str, diags: Vec<LspDiagnostic>)
        requires
            old(self).wf(),
        ensures
            final(self).wf(),
            final(self).diagnostics.spec_get(uri@) == Some(diags),
            forall|k: Seq<char>|
                k != uri@ ==> final(self).diagnostics.spec_get(k) == old(
                    self,
                ).diagnostics.spec_get(k),
            final(self).state == old(self).state,
            final(self).language == old(self).language,
            final(self).correlator == old(self).correlator,
            final(self).init_request_id == old(self).init_request_id,
            final(self).docs == old(self).docs,
    {
        self.diagnostics.set(uri.to_owned(), diags);
    }

    /// The latest diagnostic set pushed for a URI, or `None` when nothing was
    /// ever published for it: a snapshot read, independent of any in-flight
    /// request.
    pub fn diagnostics_for(&self, uri: &str) -> (r: Option<&Vec<LspDiagnostic>>)
        requires
            self.wf(),
        ensures
            match r {
                Some(v) => self.diagnostics.spec_get(uri@) == Some(*v),
                None => self.diagnostics.spec_get(uri@) == None::<Vec<LspDiagnostic>>,
            },
    {
        self.diagnostics.get(uri)
    }
}

} // verus!
