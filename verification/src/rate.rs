//! Identity-based rate limiter.
//!
//! A bounded window records the identities seen on admission checks.  When
//! the window is full, new observations are dropped (never blocking, never
//! evicting).  A periodic cycle evicts one entry from the front and then
//! bans every identity that appears in the remaining window more often
//! than the threshold allows.

use crate::block::ban_preserved;
use crate::block::lemma_ban_countdown;
use crate::block::lemma_ban_expires;
use crate::block::ticked_n;
use crate::block::BlockList;
use vstd::prelude::*;

verus! {

/// How many times `id` occurs in `s`.
pub open spec fn count_of(s: Seq<u64>, id: u64) -> nat
    decreases s.len(),
{
    if s.len() == 0 {
        0
    } else {
        count_of(s.drop_last(), id) + if s.last() == id {
            1nat
        } else {
            0nat
        }
    }
}

pub proof fn lemma_count_le_len(s: Seq<u64>, id: u64)
    ensures
        count_of(s, id) <= s.len(),
    decreases s.len(),
{
    if s.len() > 0 {
        lemma_count_le_len(s.drop_last(), id);
    }
}

/// An identity that occurs at all occurs at some index.
pub proof fn lemma_count_pos(s: Seq<u64>, id: u64)
    requires
        count_of(s, id) > 0,
    ensures
        exists|k: int| 0 <= k < s.len() && s[k] == id,
    decreases s.len(),
{
    if s.last() == id {
        assert(s[s.len() - 1] == id);
    } else {
        lemma_count_pos(s.drop_last(), id);
        let k = choose|k: int| 0 <= k < s.len() - 1 && s.drop_last()[k] == id;
        assert(s[k] == id);
    }
}

/// Bounded window of recently admitted identities.
pub struct RateLimiter {
    window: Vec<u64>,
    capacity: usize,
    threshold: usize,
    ban_ticks: u64,
}

impl View for RateLimiter {
    type V = Seq<u64>;

    closed spec fn view(&self) -> Seq<u64> {
        self.window@
    }
}

impl RateLimiter {
    pub closed spec fn capacity(&self) -> usize {
        self.capacity
    }

    pub closed spec fn threshold(&self) -> usize {
        self.threshold
    }

    pub closed spec fn ban_ticks(&self) -> u64 {
        self.ban_ticks
    }

    pub open spec fn wf(&self) -> bool {
        &&& self.ban_ticks() >= 1
        &&& self@.len() <= self.capacity()
    }

    /// Same window capacity, ban threshold and ban duration.
    pub open spec fn same_config(&self, other: &RateLimiter) -> bool {
        &&& self.capacity() == other.capacity()
        &&& self.threshold() == other.threshold()
        &&& self.ban_ticks() == other.ban_ticks()
    }

    pub fn new(capacity: usize, threshold: usize, ban_ticks: u64) -> (r: RateLimiter)
        requires
            ban_ticks >= 1,
        ensures
            r.wf(),
            r@ == Seq::<u64>::empty(),
            r.capacity() == capacity,
            r.threshold() == threshold,
            r.ban_ticks() == ban_ticks,
    {
        RateLimiter { window: Vec::new(), capacity, threshold, ban_ticks }
    }

    /// Records one admitted message.  A full window drops the
    /// observation, so the window never outgrows its capacity.
    pub fn add(&mut self, id: u64)
        ensures
            final(self).same_config(old(self)),
            final(self).wf() == old(self).wf(),
            old(self)@.len() < old(self).capacity() ==> final(self)@ == old(self)@.push(id),
            old(self)@.len() >= old(self).capacity() ==> final(self)@ == old(self)@,
    {
        if self.window.len() < self.capacity {
            self.window.push(id);
        }
    }

    /// Bans every identity that appears in the window more often than the
    /// threshold allows; every other ban entry is left exactly as it was.
    pub fn check_if_limited(&self, blocks: &mut BlockList)
        requires
            old(blocks).wf(),
            self.wf(),
        ensures
            final(blocks).wf(),
            forall|x: u64|
                count_of(self@, x) > self.threshold() ==> #[trigger] final(blocks)@.contains_key(x)
                    && final(blocks)@[x] == self.ban_ticks(),
            forall|x: u64|
                count_of(self@, x) <= self.threshold() ==> #[trigger] ban_preserved(
                    old(blocks)@,
                    final(blocks)@,
                    x,
                ),
    {
        let n = self.window.len();
        let ghost b0 = blocks@;
        let mut i: usize = 0;
        while i < n
            invariant
                n == self.window@.len(),
                0 <= i <= n,
                self.wf(),
                blocks.wf(),
                b0 == old(blocks)@,
                forall|k: int|
                    0 <= k < i && count_of(self.window@, #[trigger] self.window@[k])
                        > self.threshold ==> blocks@.contains_key(self.window@[k])
                        && blocks@[self.window@[k]] == self.ban_ticks,
                forall|x: u64|
                    count_of(self.window@, x) <= self.threshold() ==> #[trigger] ban_preserved(
                        b0,
                        blocks@,
                        x,
                    ),
            decreases n - i,
        {
            let id = self.window[i];
            let c = count_matching(&self.window, id);
            let ghost bprev = blocks@;
            if c > self.threshold {
                blocks.insert(id, self.ban_ticks);
            }
            proof {
                assert forall|x: u64| count_of(self.window@, x) <= self.threshold() implies
                #[trigger] ban_preserved(b0, blocks@, x) by {
                    assert(ban_preserved(b0, bprev, x));
                    if c > self.threshold {
                        assert(x != id);
                        assert(blocks@ == bprev.insert(id, self.ban_ticks));
                    } else {
                        assert(blocks@ == bprev);
                    }
                }
            }
            i += 1;
        }
        proof {
            assert forall|x: u64| count_of(self@, x) > self.threshold() implies #[trigger] blocks@.contains_key(
                x,
            ) && blocks@[x] == self.ban_ticks() by {
                lemma_count_pos(self.window@, x);
                let k = choose|k: int| 0 <= k < self.window@.len() && self.window@[k] == x;
                assert(count_of(self.window@, self.window@[k]) > self.threshold);
            }
            assert forall|x: u64| count_of(self@, x) <= self.threshold() implies
            #[trigger] ban_preserved(old(blocks)@, blocks@, x) by {
                assert(count_of(self.window@, x) <= self.threshold());
                assert(ban_preserved(b0, blocks@, x));
            }
        }
    }

    /// One rate-limit cycle: the oldest window entry (if any) is evicted,
    /// then every identity still over the threshold is banned for the
    /// configured duration.
    pub fn cycle(&mut self, blocks: &mut BlockList)
        requires
            old(blocks).wf(),
            old(self).wf(),
        ensures
            final(self).same_config(old(self)),
            final(self).wf(),
            final(blocks).wf(),
            old(self)@.len() > 0 ==> final(self)@ == old(self)@.drop_first(),
            old(self)@.len() == 0 ==> final(self)@ == old(self)@,
            forall|x: u64|
                count_of(final(self)@, x) > old(self).threshold()
                    ==> #[trigger] final(blocks)@.contains_key(x)
                    && final(blocks)@[x] == old(self).ban_ticks(),
            forall|x: u64|
                count_of(final(self)@, x) <= old(self).threshold() ==> #[trigger] ban_preserved(
                    old(blocks)@,
                    final(blocks)@,
                    x,
                ),
    {
        if self.window.len() > 0 {
            self.window.remove(0);
            proof {
                assert(old(self)@.remove(0) =~= old(self)@.drop_first());
            }
        }
        self.check_if_limited(blocks);
    }
}

/// How many window entries equal `id`.
fn count_matching(v: &Vec<u64>, id: u64) -> (r: usize)
    ensures
        r == count_of(v@, id),
{
    let n = v.len();
    let mut c: usize = 0;
    let mut j: usize = 0;
    proof {
        assert(v@.take(0) =~= Seq::<u64>::empty());
        lemma_count_le_len(v@, id);
    }
    while j < n
        invariant
            n == v@.len(),
            0 <= j <= n,
            c == count_of(v@.take(j as int), id),
            c <= j,
        decreases n - j,
    {
        proof {
            assert(v@.take(j + 1).drop_last() =~= v@.take(j as int));
            assert(v@.take(j + 1).last() == v@[j as int]);
        }
        if v[j] == id {
            c += 1;
        }
        j += 1;
    }
    proof {
        assert(v@.take(n as int) =~= v@);
    }
    c
}

/// The ban lifecycle: when a cycle check finds identity `h` over the
/// threshold, `h` is banned for exactly the configured duration `d`:
/// after any `k < d` further ban ticks `h` is still banned, with exactly
/// `d - k` ticks to run, and after exactly `d` ticks it is unblocked.
pub proof fn lemma_rate_ban_lifecycle(r: RateLimiter, b: Map<u64, u64>, h: u64, k: nat)
    requires
        r.wf(),
        count_of(r@, h) > r.threshold(),
        b.contains_key(h),
        b[h] == r.ban_ticks(),
    ensures
        k < r.ban_ticks() ==> ticked_n(b, k).contains_key(h) && ticked_n(b, k)[h] == r.ban_ticks()
            - k,
        !ticked_n(b, r.ban_ticks() as nat).contains_key(h),
{
    if k < r.ban_ticks() {
        lemma_ban_countdown(b, h, k);
    }
    lemma_ban_expires(b, h);
}

} // verus!

