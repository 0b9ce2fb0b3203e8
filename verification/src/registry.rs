//! Connection registry and per-connection authentication state.
//!
//! The registry owns the set of live sessions, keyed by a connection id
//! that is unique for the process lifetime.  A session starts out
//! unauthenticated; a successful credential check binds it to exactly one
//! identity.  Closing a connection removes it from the registry, which is
//! the terminal state of the lifecycle.

use crate::assoc::key_in;
use crate::assoc::lemma_map_of_domain;
use crate::assoc::lemma_map_of_value;
use crate::assoc::map_of;
use crate::assoc::unique_keys;
use vstd::map::*;
use vstd::prelude::*;

verus! {

/// Authentication state of one live connection.  A closed connection does
/// not appear in the registry at all.
#[derive(Clone, Copy, PartialEq, Eq, Structural, Debug)]
pub enum AuthState {
    Unauthenticated,
    Authenticated { identity: u64, admin: bool },
}

/// Whether a state is an authenticated binding to identity `ident`.
pub open spec fn has_identity(st: AuthState, ident: u64) -> bool {
    st matches AuthState::Authenticated { identity, .. } && identity == ident
}

/// The set of live sessions, keyed by connection id.
pub struct Registry {
    conns: Vec<(u64, AuthState)>,
    next_id: u64,
}

impl View for Registry {
    type V = Map<u64, AuthState>;

    closed spec fn view(&self) -> Map<u64, AuthState> {
        map_of(self.conns@)
    }
}

impl Registry {
    pub closed spec fn next_id(&self) -> u64 {
        self.next_id
    }

    pub closed spec fn wf(&self) -> bool {
        &&& unique_keys(self.conns@)
        &&& forall|k: int| 0 <= k < self.conns@.len() ==> self.conns@[k].0 < self.next_id
    }

    pub fn new() -> (r: Registry)
        ensures
            r.wf(),
            r@ == Map::<u64, AuthState>::empty(),
    {
        Registry { conns: Vec::new(), next_id: 0 }
    }

    /// Whether the process-lifetime supply of connection ids is spent.
    pub fn ids_exhausted(&self) -> (r: bool)
        ensures
            r == (self.next_id() == u64::MAX),
    {
        self.next_id == u64::MAX
    }

    /// Accepts a connection: a fresh id is bound to an unauthenticated
    /// session; every other session is untouched.
    pub fn insert(&mut self) -> (id: u64)
        requires
            old(self).wf(),
            old(self).next_id() < u64::MAX,
        ensures
            final(self).wf(),
            !old(self)@.contains_key(id),
            final(self)@ == old(self)@.insert(id, AuthState::Unauthenticated),
    {
        let id = self.next_id;
        let ghost s = self.conns@;
        proof {
            lemma_map_of_domain(s);
            if key_in(s, id) {
                let k = choose|k: int| 0 <= k < s.len() && s[k].0 == id;
                assert(s[k].0 < self.next_id);
                assert(false);
            }
        }
        self.conns.push((id, AuthState::Unauthenticated));
        self.next_id = self.next_id + 1;
        proof {
            assert(self.conns@.drop_last() =~= s);
            assert(map_of(self.conns@) == map_of(s).insert(id, AuthState::Unauthenticated));
        }
        id
    }

    /// The state of the session with id `id`, if it is registered.
    pub fn get_state(&self, id: u64) -> (r: Option<AuthState>)
        requires
            self.wf(),
        ensures
            r == if self@.contains_key(id) {
                Some(self@[id])
            } else {
                Option::<AuthState>::None
            },
    {
        let n = self.conns.len();
        let mut i: usize = 0;
        while i < n
            invariant
                self.wf(),
                n == self.conns@.len(),
                0 <= i <= n,
                forall|k: int| 0 <= k < i ==> self.conns@[k].0 != id,
            decreases n - i,
        {
            let e = self.conns[i];
            if e.0 == id {
                proof {
                    lemma_map_of_value(self.conns@, i as int);
                }
                return Some(e.1);
            }
            i += 1;
        }
        proof {
            lemma_map_of_domain(self.conns@);
            assert(!key_in(self.conns@, id));
        }
        None
    }

    /// Rebinds (or binds) `id` to `st`; every other session is untouched.
    fn set_state(&mut self, id: u64, st: AuthState)
        requires
            old(self).wf(),
            old(self)@.contains_key(id),
        ensures
            final(self).wf(),
            final(self)@ == old(self)@.insert(id, st),
            final(self).next_id() == old(self).next_id(),
    {
        let ghost s = self.conns@;
        let n = self.conns.len();
        let mut out: Vec<(u64, AuthState)> = Vec::new();
        let mut i: usize = 0;
        proof {
            assert(s.take(0) =~= Seq::<(u64, AuthState)>::empty());
        }
        while i < n
            invariant
                self.conns@ == s,
                self.wf(),
                n == s.len(),
                0 <= i <= n,
                unique_keys(out@),
                forall|k: int| 0 <= k < out@.len() ==> out@[k].0 < self.next_id,
                forall|x: u64|
                    #[trigger] map_of(out@).contains_key(x) <==> (x != id && map_of(
                        s.take(i as int),
                    ).contains_key(x)),
                forall|x: u64|
                    map_of(out@).contains_key(x) ==> map_of(out@)[x] == map_of(s.take(i as int))[x],
            decreases n - i,
        {
            let e = self.conns[i];
            proof {
                assert(s.take(i + 1).drop_last() =~= s.take(i as int));
                assert(s.take(i + 1).last() == s[i as int]);
                lemma_map_of_domain(out@);
                lemma_map_of_domain(s.take(i as int));
                if key_in(out@, e.0) {
                    assert(map_of(out@).contains_key(e.0));
                    assert(map_of(s.take(i as int)).contains_key(e.0));
                    assert(key_in(s.take(i as int), e.0));
                    let k = choose|k: int| 0 <= k < s.take(i as int).len() && s.take(i as int)[k].0
                        == e.0;
                    assert(s.take(i as int)[k] == s[k]);
                    assert(s[k].0 == s[i as int].0);
                    assert(false);
                }
            }
            if e.0 != id {
                let ghost prev = out@;
                out.push(e);
                proof {
                    assert(out@.drop_last() =~= prev);
                    assert(map_of(out@) == map_of(prev).insert(e.0, e.1));
                }
            }
            i += 1;
        }
        proof {
            assert(s.take(n as int) =~= s);
        }
        let ghost prev = out@;
        proof {
            lemma_map_of_domain(prev);
            if key_in(prev, id) {
                assert(map_of(prev).contains_key(id));
                assert(false);
            }
            lemma_map_of_domain(s);
            assert(key_in(s, id));
            let k = choose|k: int| 0 <= k < s.len() && s[k].0 == id;
            assert(s[k].0 < self.next_id);
        }
        out.push((id, st));
        proof {
            assert(out@.drop_last() =~= prev);
            assert(map_of(out@) == map_of(prev).insert(id, st));
        }
        self.conns = out;
        proof {
            assert_maps_equal!(map_of(out@), map_of(s).insert(id, st), x => {
                if x != id {
                    if map_of(out@).contains_key(x) {
                        assert(map_of(prev).contains_key(x));
                    }
                    if map_of(s).contains_key(x) {
                        assert(map_of(prev).contains_key(x));
                        assert(map_of(prev)[x] == map_of(s)[x]);
                    }
                }
            });
        }
    }

    /// A successful credential check: binds the session to its identity
    /// and moves it to `Authenticated`.  Exactly this one session changes;
    /// an unknown id changes nothing.
    pub fn authenticate(&mut self, id: u64, identity: u64) -> (ok: bool)
        requires
            old(self).wf(),
        ensures
            final(self).wf(),
            final(self).next_id() == old(self).next_id(),
            ok == old(self)@.contains_key(id),
            ok ==> final(self)@ == old(self)@.insert(
                id,
                AuthState::Authenticated { identity, admin: false },
            ),
            !ok ==> final(self)@ == old(self)@,
    {
        let st = self.get_state(id);
        match st {
            Some(_) => {
                self.set_state(id, AuthState::Authenticated { identity, admin: false });
                true
            },
            None => false,
        }
    }

    /// Grants or withdraws admin standing on an authenticated session,
    /// keeping its identity.  Any other session state changes nothing.
    pub fn set_admin(&mut self, id: u64, admin: bool) -> (ok: bool)
        requires
            old(self).wf(),
        ensures
            final(self).wf(),
            final(self).next_id() == old(self).next_id(),
            ok == (old(self)@.contains_key(id) && old(self)@[id] matches
                AuthState::Authenticated { .. }),
            ok ==> (old(self)@[id] matches AuthState::Authenticated { identity, .. }
                && final(self)@ == old(self)@.insert(
                id,
                AuthState::Authenticated { identity, admin },
            )),
            !ok ==> final(self)@ == old(self)@,
    {
        let st = self.get_state(id);
        match st {
            Some(AuthState::Authenticated { identity, .. }) => {
                self.set_state(id, AuthState::Authenticated { identity, admin });
                true
            },
            _ => false,
        }
    }

    /// Removes a session (failed authentication, `CLOSE`, socket error);
    /// every other session is untouched.
    pub fn remove(&mut self, id: u64)
        requires
            old(self).wf(),
        ensures
            final(self).wf(),
            final(self).next_id() == old(self).next_id(),
            final(self)@ == old(self)@.remove(id),
    {
        let ghost s = self.conns@;
        let n = self.conns.len();
        let mut out: Vec<(u64, AuthState)> = Vec::new();
        let mut i: usize = 0;
        proof {
            assert(s.take(0) =~= Seq::<(u64, AuthState)>::empty());
        }
        while i < n
            invariant
                self.conns@ == s,
                self.wf(),
                n == s.len(),
                0 <= i <= n,
                unique_keys(out@),
                forall|k: int| 0 <= k < out@.len() ==> out@[k].0 < self.next_id,
                forall|x: u64|
                    #[trigger] map_of(out@).contains_key(x) <==> (x != id && map_of(
                        s.take(i as int),
                    ).contains_key(x)),
                forall|x: u64|
                    map_of(out@).contains_key(x) ==> map_of(out@)[x] == map_of(s.take(i as int))[x],
            decreases n - i,
        {
            let e = self.conns[i];
            proof {
                assert(s.take(i + 1).drop_last() =~= s.take(i as int));
                assert(s.take(i + 1).last() == s[i as int]);
                lemma_map_of_domain(out@);
                lemma_map_of_domain(s.take(i as int));
                if key_in(out@, e.0) {
                    assert(map_of(out@).contains_key(e.0));
                    assert(map_of(s.take(i as int)).contains_key(e.0));
                    assert(key_in(s.take(i as int), e.0));
                    let k = choose|k: int| 0 <= k < s.take(i as int).len() && s.take(i as int)[k].0
                        == e.0;
                    assert(s.take(i as int)[k] == s[k]);
                    assert(s[k].0 == s[i as int].0);
                    assert(false);
                }
            }
            if e.0 != id {
                let ghost prev = out@;
                out.push(e);
                proof {
                    assert(out@.drop_last() =~= prev);
                    assert(map_of(out@) == map_of(prev).insert(e.0, e.1));
                }
            }
            i += 1;
        }
        proof {
            assert(s.take(n as int) =~= s);
        }
        let ghost outv = out@;
        self.conns = out;
        proof {
            assert_maps_equal!(map_of(outv), map_of(s).remove(id), x => {});
        }
    }

    /// The connection ids a relay verb from `ident` must reach: exactly
    /// the registered sessions authenticated as that identity, each once.
    pub fn relay_targets(&self, ident: u64) -> (r: Vec<u64>)
        requires
            self.wf(),
        ensures
            forall|id: u64|
                #[trigger] r@.contains(id) <==> (self@.contains_key(id) && has_identity(
                    self@[id],
                    ident,
                )),
            r@.no_duplicates(),
    {
        let n = self.conns.len();
        let mut out: Vec<u64> = Vec::new();
        let mut i: usize = 0;
        while i < n
            invariant
                self.wf(),
                n == self.conns@.len(),
                0 <= i <= n,
                forall|j: int|
                    0 <= j < out@.len() ==> self@.contains_key(#[trigger] out@[j]) && has_identity(
                        self@[out@[j]],
                        ident,
                    ),
                forall|j: int|
                    0 <= j < out@.len() ==> exists|k: int|
                        0 <= k < i && self.conns@[k].0 == #[trigger] out@[j],
                forall|k: int|
                    0 <= k < i && has_identity(#[trigger] self.conns@[k].1, ident)
                        ==> out@.contains(self.conns@[k].0),
                out@.no_duplicates(),
            decreases n - i,
        {
            let e = self.conns[i];
            if let AuthState::Authenticated { identity, .. } = e.1 {
                if identity == ident {
                    proof {
                        lemma_map_of_value(self.conns@, i as int);
                        if out@.contains(e.0) {
                            let j = choose|j: int| 0 <= j < out@.len() && out@[j] == e.0;
                            let k = choose|k: int|
                                0 <= k < i && self.conns@[k].0 == out@[j as int];
                            assert(self.conns@[k].0 == self.conns@[i as int].0);
                            assert(false);
                        }
                    }
                    let ghost prev = out@;
                    out.push(e.0);
                    proof {
                        assert(out@[out@.len() - 1] == e.0);
                        assert(out@.contains(e.0));
                        assert forall|x: u64| prev.contains(x) implies out@.contains(x) by {
                            let j = choose|j: int| 0 <= j < prev.len() && prev[j] == x;
                            assert(out@[j] == x);
                        }
                        assert forall|j: int| 0 <= j < out@.len() implies exists|k: int|
                            0 <= k < i + 1 && self.conns@[k].0 == #[trigger] out@[j] by {
                            if j < prev.len() {
                                let k = choose|k: int|
                                    0 <= k < i && self.conns@[k].0 == prev[j as int];
                                assert(0 <= k < i + 1 && self.conns@[k].0 == out@[j]);
                            } else {
                                assert(self.conns@[i as int].0 == out@[j]);
                            }
                        }
                    }
                }
            }
            i += 1;
        }
        proof {
            lemma_map_of_domain(self.conns@);
            assert forall|id: u64|
                #[trigger] out@.contains(id) <==> (self@.contains_key(id) && has_identity(
                    self@[id],
                    ident,
                )) by {
                if self@.contains_key(id) && has_identity(self@[id], ident) {
                    assert(key_in(self.conns@, id));
                    let k = choose|k: int| 0 <= k < self.conns@.len() && self.conns@[k].0 == id;
                    lemma_map_of_value(self.conns@, k);
                    assert(self.conns@[k].1 == self@[id]);
                    assert(out@.contains(self.conns@[k].0));
                }
            }
        }
        out
    }
}

} // verus!
