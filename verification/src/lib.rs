//! A verified core for a language-server session manager.
//!
//! The library models the session lifecycle, request correlation, document
//! version tracking, diagnostics caching and wire framing of a
//! code-intelligence backend.  All process spawning and byte I/O is left to an
//! unverified shell around the library; every decision the manager takes is
//! proved here.

pub mod correlator;
pub mod framing;
pub mod gitmodel;
pub mod language;
pub mod service;
pub mod session;
pub mod strutil;
pub mod table;
pub mod types;
