//! Association lists with unique `u64` keys, viewed as maps.
//!
//! Both the ban list and the connection registry store their entries in a
//! vector and present them as a `Map` in contracts; the lemmas here bridge
//! the two.

use vstd::prelude::*;

verus! {

/// The map an association list denotes (later entries win).
pub open spec fn map_of<V>(s: Seq<(u64, V)>) -> Map<u64, V>
    decreases s.len(),
{
    if s.len() == 0 {
        Map::empty()
    } else {
        map_of(s.drop_last()).insert(s.last().0, s.last().1)
    }
}

pub open spec fn unique_keys<V>(s: Seq<(u64, V)>) -> bool {
    forall|i: int, j: int| 0 <= i < j < s.len() ==> s[i].0 != s[j].0
}

pub open spec fn key_in<V>(s: Seq<(u64, V)>, id: u64) -> bool {
    exists|k: int| 0 <= k < s.len() && s[k].0 == id
}

pub proof fn lemma_map_of_domain<V>(s: Seq<(u64, V)>)
    ensures
        forall|id: u64| #[trigger] map_of(s).contains_key(id) <==> key_in(s, id),
    decreases s.len(),
{
    if s.len() > 0 {
        let t = s.drop_last();
        lemma_map_of_domain(t);
        assert forall|id: u64| #[trigger] map_of(s).contains_key(id) <==> key_in(s, id) by {
            if map_of(s).contains_key(id) {
                if id == s.last().0 {
                    assert(s[s.len() - 1].0 == id);
                } else {
                    assert(map_of(t).contains_key(id));
                    assert(key_in(t, id));
                    let k = choose|k: int| 0 <= k < t.len() && t[k].0 == id;
                    assert(s[k].0 == id);
                }
            }
            if key_in(s, id) {
                let k = choose|k: int| 0 <= k < s.len() && s[k].0 == id;
                if k < s.len() - 1 {
                    assert(t[k].0 == id);
                    assert(key_in(t, id));
                    assert(map_of(t).contains_key(id));
                } else {
                    assert(id == s.last().0);
                }
            }
        }
    }
}

pub proof fn lemma_map_of_value<V>(s: Seq<(u64, V)>, k: int)
    requires
        unique_keys(s),
        0 <= k < s.len(),
    ensures
        map_of(s).contains_key(s[k].0),
        map_of(s)[s[k].0] == s[k].1,
    decreases s.len(),
{
    if k < s.len() - 1 {
        let t = s.drop_last();
        assert(t[k] == s[k]);
        lemma_map_of_value(t, k);
        assert(s[k].0 != s.last().0);
    }
}

} // verus!
