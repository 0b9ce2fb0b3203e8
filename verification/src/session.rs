//! Per-connection session state machine.
//!
//! While a session is unauthenticated, only `AUTH` and `SIGN` mean
//! anything: any other frame is ignored and the connection stays open.
//! `AUTH` asks the identity store to verify the credentials; on success
//! exactly one session — this one — is bound to the identity derived from
//! the username, on failure the session is removed from the registry.
//! `SIGN` (with the correct instance key) asks the store to create the
//! account; it never authenticates the connection by itself.  Once a
//! session is authenticated, every frame goes through admission control
//! and the command router.

use crate::block::BlockList;
use crate::bytes::bytes_eq;
use crate::bytes::lemma_token_len_is;
use crate::bytes::sub_bytes;
use crate::bytes::token_len;
use crate::bytes::tokenize;
use crate::bytes::tokens_of;
use crate::bytes::SPACE;
use crate::hashing::hash_bytes;
use crate::hashing::sea_hash_of;
use crate::rate::RateLimiter;
use crate::registry::AuthState;
use crate::registry::Registry;
use crate::router::handle_message;
use crate::router::route_post;
use crate::router::Outcome;
use crate::songs::clone_bytes;
use crate::songs::SongManager;
use vstd::prelude::*;

verus! {

/// What an unauthenticated session's frame asks the caller to do.
pub enum PreAuth {
    /// Verify these credentials against the identity store, then apply
    /// the result with `apply_auth_result`.
    Auth { user: Vec<u8>, pass: Vec<u8>, wants_admin: bool },
    /// The instance key matched: create this account unless the username
    /// is taken.  The connection stays unauthenticated either way.
    Sign { user: Vec<u8>, pass: Vec<u8> },
    /// Anything else: logged and ignored, the connection stays open.
    Ignore,
}

/// The mathematical shape of a pre-authentication step.
pub enum PreAuthModel {
    Auth { user: Seq<u8>, pass: Seq<u8>, wants_admin: bool },
    Sign { user: Seq<u8>, pass: Seq<u8> },
    Ignore,
}

impl View for PreAuth {
    type V = PreAuthModel;

    open spec fn view(&self) -> PreAuthModel {
        match self {
            PreAuth::Auth { user, pass, wants_admin } => PreAuthModel::Auth {
                user: user@,
                pass: pass@,
                wants_admin: *wants_admin,
            },
            PreAuth::Sign { user, pass } => PreAuthModel::Sign { user: user@, pass: pass@ },
            PreAuth::Ignore => PreAuthModel::Ignore,
        }
    }
}

/// What an unauthenticated session's line means.  `AUTH <user> <pass>`
/// may carry one more argument; admin standing is looked up only when
/// that argument equals the configured admin key.  `SIGN <user> <pass>
/// <instancekey>` is ignored unless the instance key matches.
pub open spec fn preauth_model(line: Seq<u8>, admin_key: Seq<u8>, instance_key: Seq<u8>) -> PreAuthModel {
    let verb = line.take(token_len(line) as int);
    let toks = tokens_of(line);
    if verb == seq![65u8, 85u8, 84u8, 72u8] {
        if toks.len() == 3 {
            PreAuthModel::Auth { user: toks[1], pass: toks[2], wants_admin: false }
        } else if toks.len() == 4 {
            PreAuthModel::Auth { user: toks[1], pass: toks[2], wants_admin: toks[3] == admin_key }
        } else {
            PreAuthModel::Ignore
        }
    } else if verb == seq![83u8, 73u8, 71u8, 78u8] {
        if toks.len() == 4 && toks[3] == instance_key {
            PreAuthModel::Sign { user: toks[1], pass: toks[2] }
        } else {
            PreAuthModel::Ignore
        }
    } else {
        PreAuthModel::Ignore
    }
}

/// Parses one frame from an unauthenticated session.
pub fn parse_preauth(line: &Vec<u8>, admin_key: &Vec<u8>, instance_key: &Vec<u8>) -> (r: PreAuth)
    ensures
        r@ == preauth_model(line@, admin_key@, instance_key@),
{
    let n = line.len();
    if n == 0 || line[0] == SPACE {
        proof {
            assert(token_len(line@) == 0);
            assert(line@.take(0) =~= Seq::<u8>::empty());
            assert(seq![65u8, 85u8, 84u8, 72u8].len() == 4);
            assert(seq![83u8, 73u8, 71u8, 78u8].len() == 4);
        }
        return PreAuth::Ignore;
    }
    let mut ve: usize = 1;
    while ve < n && line[ve] != SPACE
        invariant
            n == line@.len(),
            1 <= ve <= n,
            forall|k: int| 0 <= k < ve ==> line@[k] != SPACE,
        decreases n - ve,
    {
        ve += 1;
    }
    proof {
        lemma_token_len_is(line@, ve as int);
    }
    let verb = sub_bytes(line, 0, ve);
    proof {
        assert(verb@ =~= line@.take(token_len(line@) as int));
    }
    let toks = tokenize(line);
    let is_auth = bytes_eq(&verb, &vec![65u8, 85u8, 84u8, 72u8]);
    let is_sign = bytes_eq(&verb, &vec![83u8, 73u8, 71u8, 78u8]);
    if is_auth {
        if toks.len() == 3 {
            PreAuth::Auth {
                user: clone_bytes(&toks[1]),
                pass: clone_bytes(&toks[2]),
                wants_admin: false,
            }
        } else if toks.len() == 4 {
            let wants_admin = bytes_eq(&toks[3], admin_key);
            PreAuth::Auth {
                user: clone_bytes(&toks[1]),
                pass: clone_bytes(&toks[2]),
                wants_admin,
            }
        } else {
            PreAuth::Ignore
        }
    } else if is_sign {
        if toks.len() == 4 {
            if bytes_eq(&toks[3], instance_key) {
                PreAuth::Sign { user: clone_bytes(&toks[1]), pass: clone_bytes(&toks[2]) }
            } else {
                PreAuth::Ignore
            }
        } else {
            PreAuth::Ignore
        }
    } else {
        PreAuth::Ignore
    }
}

/// What one inbound frame asks the caller to do, by session state.
pub enum Step {
    /// The session is unauthenticated: nothing but this pre-auth step
    /// happens — no command is processed, no state besides it changes.
    PreAuth(PreAuth),
    /// The session is authenticated: the frame was routed.
    Routed(Outcome),
    /// No such session: the frame is discarded.
    Gone,
}

/// Handles one inbound frame for the session `conn_id`.  Unauthenticated
/// sessions get nothing but `AUTH`/`SIGN` handling: the rate limiter and
/// the download queue are untouched and no command reaches the router.
pub fn session_step(
    registry: &Registry,
    conn_id: u64,
    blocks: &BlockList,
    rate: &mut RateLimiter,
    manager: &mut SongManager,
    admin_key: &Vec<u8>,
    instance_key: &Vec<u8>,
    line: &Vec<u8>,
) -> (r: Step)
    requires
        registry.wf(),
    ensures
        !registry@.contains_key(conn_id) ==> (r is Gone && *final(rate) == *old(rate)
            && *final(manager) == *old(manager)),
        (registry@.contains_key(conn_id) && registry@[conn_id] is Unauthenticated) ==> (r matches
            Step::PreAuth(p) && p@ == preauth_model(line@, admin_key@, instance_key@)
            && *final(rate) == *old(rate) && *final(manager) == *old(manager)),
        registry@.contains_key(conn_id) ==> (registry@[conn_id] matches AuthState::Authenticated {
            identity,
            ..
        } ==> (r matches Step::Routed(o) && route_post(
            registry@,
            identity,
            blocks@,
            *old(rate),
            *final(rate),
            *old(manager),
            *final(manager),
            line@,
            o@,
        ))),
{
    match registry.get_state(conn_id) {
        None => Step::Gone,
        Some(AuthState::Unauthenticated) => Step::PreAuth(
            parse_preauth(line, admin_key, instance_key),
        ),
        Some(AuthState::Authenticated { identity, .. }) => Step::Routed(
            handle_message(registry, identity, blocks, rate, manager, line),
        ),
    }
}

/// How an `AUTH` attempt ended.
pub enum AuthOutcome {
    /// The session is now bound to this identity.
    Authenticated { identity: u64 },
    /// Bad credentials or a store error: the session was removed.
    Removed,
    /// The session disappeared before the store answered.
    Gone,
}

/// The identity an account name derives to.
pub open spec fn identity_of(user: Seq<u8>) -> u64 {
    sea_hash_of(user)
}

/// Applies the identity store's answer to an `AUTH` attempt.  On success
/// exactly this one session is bound to the identity derived from the
/// username and moves to `Authenticated`; on failure the session is
/// removed from the registry and its connection is to be closed.
pub fn apply_auth_result(registry: &mut Registry, conn_id: u64, user: &Vec<u8>, ok: bool) -> (r:
    AuthOutcome)
    requires
        old(registry).wf(),
    ensures
        final(registry).wf(),
        (ok && old(registry)@.contains_key(conn_id)) ==> (final(registry)@ == old(
            registry,
        )@.insert(
            conn_id,
            AuthState::Authenticated { identity: identity_of(user@), admin: false },
        ) && r == (AuthOutcome::Authenticated { identity: identity_of(user@) })),
        (ok && !old(registry)@.contains_key(conn_id)) ==> (final(registry)@ == old(registry)@ && r
            is Gone),
        !ok ==> (final(registry)@ == old(registry)@.remove(conn_id) && r is Removed),
{
    if ok {
        let identity = hash_bytes(user.as_slice());
        if registry.authenticate(conn_id, identity) {
            AuthOutcome::Authenticated { identity }
        } else {
            AuthOutcome::Gone
        }
    } else {
        registry.remove(conn_id);
        AuthOutcome::Removed
    }
}

} // verus!
