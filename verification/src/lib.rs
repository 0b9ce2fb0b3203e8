//! Session and admission-control core of a self-hosted music-sync service.
//!
//! Clients connect over a persistent socket, authenticate, issue text
//! commands against a catalog/playlist store, and relay playback-control
//! messages to other sessions sharing the same identity.  This crate holds
//! the verified core: the connection registry and per-connection
//! authentication state machine, the command parser and router, the
//! identity-based rate limiter and temporary ban list, and the bounded
//! download queue.  The persistent store, the media resolver and all
//! socket, process and file I/O are external collaborators, reached only
//! through the surrounding (unverified) binary.

use vstd::prelude::*;

pub mod assoc;
pub mod block;
pub mod bytes;
pub mod command;
pub mod hashing;
pub mod numbers;
pub mod rate;
pub mod registry;
pub mod router;
pub mod session;
pub mod songs;

verus! {

} // verus!
