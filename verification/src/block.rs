//! Temporary ban list.
//!
//! Maps an identity to the number of ticks its ban still has to run.  A
//! periodic ticker decrements every counter by exactly 1 and removes an
//! entry exactly when its counter reaches 0: never negative, never early.

use crate::assoc::key_in;
use crate::assoc::lemma_map_of_domain;
use crate::assoc::lemma_map_of_value;
use crate::assoc::map_of;
use crate::assoc::unique_keys;
use vstd::map::*;
use vstd::prelude::*;

verus! {

/// `x`'s ban entry is the same in `post` as in `pre`: present in one iff
/// present in the other, and with the same remaining duration.
pub open spec fn ban_preserved(pre: Map<u64, u64>, post: Map<u64, u64>, x: u64) -> bool {
    &&& post.contains_key(x) <==> pre.contains_key(x)
    &&& pre.contains_key(x) ==> post[x] == pre[x]
}

/// Identity -> remaining ban ticks.
pub struct BlockList {
    entries: Vec<(u64, u64)>,
}

/// One tick applied to a ban map: every counter drops by 1, entries that
/// hit 0 disappear.
pub open spec fn ticked(m: Map<u64, u64>) -> Map<u64, u64> {
    Map::new(|k: u64| m.contains_key(k) && m[k] > 1, |k: u64| (m[k] - 1) as u64)
}

/// `k` ticks applied to a ban map.
pub open spec fn ticked_n(m: Map<u64, u64>, k: nat) -> Map<u64, u64>
    decreases k,
{
    if k == 0 {
        m
    } else {
        ticked(ticked_n(m, (k - 1) as nat))
    }
}

impl View for BlockList {
    type V = Map<u64, u64>;

    closed spec fn view(&self) -> Map<u64, u64> {
        map_of(self.entries@)
    }
}

impl BlockList {
    pub closed spec fn wf(&self) -> bool {
        &&& unique_keys(self.entries@)
        &&& forall|k: int| 0 <= k < self.entries@.len() ==> self.entries@[k].1 >= 1
    }

    pub fn new() -> (r: BlockList)
        ensures
            r.wf(),
            r@ == Map::<u64, u64>::empty(),
    {
        BlockList { entries: Vec::new() }
    }

    /// Whether `id` is currently banned.
    pub fn contains(&self, id: u64) -> (r: bool)
        ensures
            r == self@.contains_key(id),
    {
        proof {
            lemma_map_of_domain(self.entries@);
        }
        let n = self.entries.len();
        let mut i: usize = 0;
        while i < n
            invariant
                n == self.entries@.len(),
                0 <= i <= n,
                forall|k: int| 0 <= k < i ==> self.entries@[k].0 != id,
            decreases n - i,
        {
            if self.entries[i].0 == id {
                proof {
                    lemma_map_of_domain(self.entries@);
                    assert(key_in(self.entries@, id));
                }
                return true;
            }
            i += 1;
        }
        proof {
            lemma_map_of_domain(self.entries@);
            assert(!key_in(self.entries@, id));
        }
        false
    }

    /// Inserts a ban, or refreshes an existing one to the full duration.
    pub fn insert(&mut self, id: u64, ticks: u64)
        requires
            old(self).wf(),
            ticks >= 1,
        ensures
            final(self).wf(),
            final(self)@ == old(self)@.insert(id, ticks),
    {
        let ghost s = self.entries@;
        let n = self.entries.len();
        let mut out: Vec<(u64, u64)> = Vec::new();
        let mut i: usize = 0;
        proof {
            assert(s.take(0) =~= Seq::<(u64, u64)>::empty());
        }
        while i < n
            invariant
                self.entries@ == s,
                n == s.len(),
                0 <= i <= n,
                unique_keys(s),
                forall|k: int| 0 <= k < s.len() ==> s[k].1 >= 1,
                unique_keys(out@),
                forall|k: int| 0 <= k < out@.len() ==> out@[k].1 >= 1,
                forall|x: u64|
                    #[trigger] map_of(out@).contains_key(x) <==> (x != id && map_of(
                        s.take(i as int),
                    ).contains_key(x)),
                forall|x: u64|
                    map_of(out@).contains_key(x) ==> map_of(out@)[x] == map_of(s.take(i as int))[x],
            decreases n - i,
        {
            let e = self.entries[i];
            proof {
                assert(s.take(i + 1).drop_last() =~= s.take(i as int));
                assert(s.take(i + 1).last() == s[i as int]);
                lemma_map_of_domain(out@);
                lemma_map_of_domain(s.take(i as int));
                if key_in(out@, e.0) {
                    assert(map_of(out@).contains_key(e.0));
                    assert(map_of(s.take(i as int)).contains_key(e.0));
                    assert(key_in(s.take(i as int), e.0));
                    let k = choose|k: int| 0 <= k < s.take(i as int).len() && s.take(i as int)[k].0
                        == e.0;
                    assert(s.take(i as int)[k] == s[k]);
                    assert(s[k].0 == s[i as int].0);
                    assert(false);
                }
            }
            if e.0 != id {
                let ghost prev = out@;
                out.push(e);
                proof {
                    assert(out@.drop_last() =~= prev);
                    assert(map_of(out@) == map_of(prev).insert(e.0, e.1));
                }
            }
            i += 1;
        }
        proof {
            assert(s.take(n as int) =~= s);
        }
        let ghost prev = out@;
        proof {
            lemma_map_of_domain(prev);
            if key_in(prev, id) {
                assert(map_of(prev).contains_key(id));
                assert(false);
            }
        }
        out.push((id, ticks));
        proof {
            assert(out@.drop_last() =~= prev);
            assert(map_of(out@) == map_of(prev).insert(id, ticks));
        }
        self.entries = out;
        proof {
            assert_maps_equal!(map_of(out@), map_of(s).insert(id, ticks), x => {
                if x != id {
                    if map_of(out@).contains_key(x) {
                        assert(map_of(prev).contains_key(x));
                    }
                    if map_of(s).contains_key(x) {
                        assert(map_of(prev).contains_key(x));
                        assert(map_of(prev)[x] == map_of(s)[x]);
                    }
                }
            });
        }
    }

    /// One ban tick: every remaining counter decreases by exactly 1, and an
    /// entry is removed exactly when it reaches 0.
    pub fn tick(&mut self)
        requires
            old(self).wf(),
        ensures
            final(self).wf(),
            final(self)@ == ticked(old(self)@),
    {
        let ghost s = self.entries@;
        let n = self.entries.len();
        let mut out: Vec<(u64, u64)> = Vec::new();
        let mut i: usize = 0;
        proof {
            assert(s.take(0) =~= Seq::<(u64, u64)>::empty());
        }
        while i < n
            invariant
                self.entries@ == s,
                n == s.len(),
                0 <= i <= n,
                unique_keys(s),
                forall|k: int| 0 <= k < s.len() ==> s[k].1 >= 1,
                unique_keys(out@),
                forall|k: int| 0 <= k < out@.len() ==> out@[k].1 >= 1,
                forall|x: u64|
                    #[trigger] map_of(out@).contains_key(x) <==> (map_of(
                        s.take(i as int),
                    ).contains_key(x) && map_of(s.take(i as int))[x] > 1),
                forall|x: u64|
                    map_of(out@).contains_key(x) ==> map_of(out@)[x] == map_of(s.take(i as int))[x]
                        - 1,
            decreases n - i,
        {
            let e = self.entries[i];
            proof {
                assert(s.take(i + 1).drop_last() =~= s.take(i as int));
                assert(s.take(i + 1).last() == s[i as int]);
                lemma_map_of_domain(out@);
                lemma_map_of_domain(s.take(i as int));
                if key_in(out@, e.0) {
                    assert(map_of(out@).contains_key(e.0));
                    assert(map_of(s.take(i as int)).contains_key(e.0));
                    assert(key_in(s.take(i as int), e.0));
                    let k = choose|k: int| 0 <= k < s.take(i as int).len() && s.take(i as int)[k].0
                        == e.0;
                    assert(s.take(i as int)[k] == s[k]);
                    assert(s[k].0 == s[i as int].0);
                    assert(false);
                }
            }
            if e.1 > 1 {
                let ghost prev = out@;
                out.push((e.0, e.1 - 1));
                proof {
                    assert(out@.drop_last() =~= prev);
                    assert(map_of(out@) == map_of(prev).insert(e.0, (e.1 - 1) as u64));
                }
            }
            i += 1;
        }
        proof {
            assert(s.take(n as int) =~= s);
        }
        let ghost outv = out@;
        self.entries = out;
        proof {
            assert_maps_equal!(map_of(outv), ticked(map_of(s)), x => {});
        }
    }
}

/// A ban of `d` ticks still holds after any `k < d` ticks, with exactly
/// `d - k` remaining.
pub proof fn lemma_ban_countdown(m: Map<u64, u64>, h: u64, k: nat)
    requires
        m.contains_key(h),
        k < m[h],
    ensures
        ticked_n(m, k).contains_key(h),
        ticked_n(m, k)[h] == m[h] - k,
    decreases k,
{
    if k > 0 {
        lemma_ban_countdown(m, h, (k - 1) as nat);
    }
}

/// A ban of `d` ticks is gone after exactly `d` ticks.
pub proof fn lemma_ban_expires(m: Map<u64, u64>, h: u64)
    requires
        m.contains_key(h),
        m[h] >= 1,
    ensures
        !ticked_n(m, m[h] as nat).contains_key(h),
{
    lemma_ban_countdown(m, h, (m[h] - 1) as nat);
}

/// Every ban that exists has a positive number of ticks left: a counter
/// reaches 0 only by leaving the list.
pub proof fn lemma_bans_positive(b: &BlockList)
    requires
        b.wf(),
    ensures
        forall|x: u64| #[trigger] b@.contains_key(x) ==> b@[x] >= 1,
{
    assert forall|x: u64| #[trigger] b@.contains_key(x) implies b@[x] >= 1 by {
        lemma_map_of_domain(b.entries@);
        assert(key_in(b.entries@, x));
        let k = choose|k: int| 0 <= k < b.entries@.len() && b.entries@[k].0 == x;
        lemma_map_of_value(b.entries@, k);
    }
}

} // verus!

