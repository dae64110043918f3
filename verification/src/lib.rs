//! Core of a turn-based match-setup coordinator for competitive team games:
//! captain assignment, player drafting, map veto and side selection, driven by
//! untrusted remote participants through an external chat transport.
//!
//! The library holds the authoritative in-memory state and every rule about
//! who may act next and what their action does.  All I/O — the transport, the
//! membership provider, durable storage — lives outside and hands the library
//! plain values.

pub mod auth;
pub mod command;
pub mod laws;
pub mod ledger;
pub mod registry;
pub mod riotid;
pub mod session;

pub use auth::{AuthDecision, DenialReason, RoleLookup, RoleMembership};
