//! Byte-string utilities for the wire protocol.
//!
//! One command arrives per text frame as a byte line: a verb, then
//! space-delimited arguments.  Everything here is plain tokenization:
//! a token is a maximal run of non-space bytes.

use vstd::prelude::*;

verus! {

pub const SPACE: u8 = 32;

/// The views of a sequence of byte vectors.
pub open spec fn views_of(s: Seq<Vec<u8>>) -> Seq<Seq<u8>> {
    s.map_values(|t: Vec<u8>| t@)
}

/// Length of the token starting at the head of `s` (0 if `s` is empty or
/// starts with a space).
pub open spec fn token_len(s: Seq<u8>) -> nat
    decreases s.len(),
{
    if s.len() == 0 || s[0] == SPACE {
        0
    } else {
        1 + token_len(s.drop_first())
    }
}

pub proof fn lemma_token_len_le(s: Seq<u8>)
    ensures
        token_len(s) <= s.len(),
    decreases s.len(),
{
    if s.len() != 0 && s[0] != SPACE {
        lemma_token_len_le(s.drop_first());
    }
}

/// The token at the head of `s` runs to exactly `l` when the first `l`
/// bytes are non-spaces and byte `l` (if any) is a space.
pub proof fn lemma_token_len_is(s: Seq<u8>, l: int)
    requires
        0 <= l <= s.len(),
        forall|k: int| 0 <= k < l ==> s[k] != SPACE,
        l == s.len() || s[l] == SPACE,
    ensures
        token_len(s) == l,
    decreases l,
{
    if l > 0 {
        assert(s[0] != SPACE);
        let t = s.drop_first();
        assert(forall|k: int| 0 <= k < l - 1 ==> t[k] == s[k + 1] && t[k] != SPACE);
        lemma_token_len_is(t, l - 1);
    }
}

/// `s` with its leading spaces removed.
pub open spec fn drop_spaces(s: Seq<u8>) -> Seq<u8>
    decreases s.len(),
{
    if s.len() > 0 && s[0] == SPACE {
        drop_spaces(s.drop_first())
    } else {
        s
    }
}

/// The space-delimited tokens of `s`, in order.
pub open spec fn tokens_of(s: Seq<u8>) -> Seq<Seq<u8>>
    decreases s.len(),
    via tokens_of_decreases
{
    if s.len() == 0 {
        Seq::empty()
    } else if s[0] == SPACE {
        tokens_of(s.drop_first())
    } else {
        seq![s.take(token_len(s) as int)] + tokens_of(s.skip(token_len(s) as int))
    }
}

#[via_fn]
proof fn tokens_of_decreases(s: Seq<u8>) {
    if s.len() != 0 && s[0] != SPACE {
        lemma_token_len_le(s);
        assert(token_len(s) >= 1);
    }
}

/// Skipping one leading space keeps the token list.
pub proof fn lemma_tokens_skip_space(s: Seq<u8>, i: int)
    requires
        0 <= i < s.len(),
        s[i] == SPACE,
    ensures
        tokens_of(s.skip(i)) == tokens_of(s.skip(i + 1)),
{
    let t = s.skip(i);
    assert(t[0] == SPACE);
    assert(t.drop_first() =~= s.skip(i + 1));
}

/// A suffix that starts with a token contributes that token, then the rest.
pub proof fn lemma_tokens_head(s: Seq<u8>, i: int, j: int)
    requires
        0 <= i < j <= s.len(),
        forall|k: int| i <= k < j ==> s[k] != SPACE,
        j == s.len() || s[j] == SPACE,
    ensures
        token_len(s.skip(i)) == j - i,
        tokens_of(s.skip(i)) == seq![s.subrange(i, j)] + tokens_of(s.skip(j)),
{
    let t = s.skip(i);
    assert(forall|k: int| 0 <= k < j - i ==> t[k] == s[k + i] && t[k] != SPACE);
    lemma_token_len_is(t, j - i);
    assert(t.take(j - i) =~= s.subrange(i, j));
    assert(t.skip(j - i) =~= s.skip(j));
}

/// The first token of `s`, ignoring leading spaces (empty if `s` holds
/// no token).
pub open spec fn first_token(s: Seq<u8>) -> Seq<u8> {
    drop_spaces(s).take(token_len(drop_spaces(s)) as int)
}

/// Skipping a run of spaces reaches the same suffix as `drop_spaces`.
pub proof fn lemma_drop_spaces_skip(s: Seq<u8>, i: int, j: int)
    requires
        0 <= i <= j <= s.len(),
        forall|k: int| i <= k < j ==> s[k] == SPACE,
        j == s.len() || s[j] != SPACE,
    ensures
        drop_spaces(s.skip(i)) == s.skip(j),
    decreases j - i,
{
    if i < j {
        assert(s.skip(i)[0] == s[i]);
        assert(s.skip(i).drop_first() =~= s.skip(i + 1));
        lemma_drop_spaces_skip(s, i + 1, j);
    } else {
        if i < s.len() {
            assert(s.skip(i)[0] == s[i]);
        }
    }
}

/// Byte-for-byte equality of two byte strings.
pub fn bytes_eq(a: &Vec<u8>, b: &Vec<u8>) -> (r: bool)
    ensures
        r == (a@ == b@),
{
    if a.len() != b.len() {
        assert(a@ != b@);
        return false;
    }
    let n = a.len();
    let mut i: usize = 0;
    while i < n
        invariant
            n == a.len() == b.len(),
            0 <= i <= n,
            forall|k: int| 0 <= k < i ==> a@[k] == b@[k],
        decreases n - i,
    {
        if a[i] != b[i] {
            return false;
        }
        i += 1;
    }
    assert(a@ =~= b@);
    true
}

/// The bytes of `v` from `a` (inclusive) to `b` (exclusive).
pub fn sub_bytes(v: &Vec<u8>, a: usize, b: usize) -> (r: Vec<u8>)
    requires
        a <= b <= v@.len(),
    ensures
        r@ == v@.subrange(a as int, b as int),
{
    let mut r: Vec<u8> = Vec::new();
    let mut i: usize = a;
    while i < b
        invariant
            a <= i <= b <= v@.len(),
            r@ =~= v@.subrange(a as int, i as int),
        decreases b - i,
    {
        r.push(v[i]);
        i += 1;
    }
    proof {
        assert(r@ =~= v@.subrange(a as int, b as int));
    }
    r
}

/// The space-delimited tokens of `line`, each as its own byte string.
pub fn tokenize(line: &Vec<u8>) -> (r: Vec<Vec<u8>>)
    ensures
        views_of(r@) == tokens_of(line@),
        r@.len() == tokens_of(line@).len(),
        forall|k: int| 0 <= k < r@.len() ==> r@[k]@ == tokens_of(line@)[k],
{
    let n = line.len();
    let mut out: Vec<Vec<u8>> = Vec::new();
    let ghost full = tokens_of(line@);
    let mut i: usize = 0;
    proof {
        assert(line@.skip(0) =~= line@);
        assert(views_of(out@) =~= Seq::<Seq<u8>>::empty());
    }
    while i < n
        invariant
            n == line.len(),
            0 <= i <= n,
            full == tokens_of(line@),
            full == views_of(out@) + tokens_of(line@.skip(i as int)),
        decreases n - i,
    {
        if line[i] == SPACE {
            proof {
                lemma_tokens_skip_space(line@, i as int);
            }
            i += 1;
        } else {
            let start = i;
            let mut tok: Vec<u8> = Vec::new();
            while i < n && line[i] != SPACE
                invariant
                    n == line.len(),
                    start <= i <= n,
                    forall|k: int| start <= k < i ==> line@[k] != SPACE,
                    tok@ =~= line@.subrange(start as int, i as int),
                decreases n - i,
            {
                tok.push(line[i]);
                i += 1;
            }
            proof {
                lemma_tokens_head(line@, start as int, i as int);
            }
            let ghost tokv = tok@;
            let ghost prev = views_of(out@);
            out.push(tok);
            proof {
                assert(views_of(out@) =~= prev.push(tokv));
                assert(prev.push(tokv) + tokens_of(line@.skip(i as int)) =~= prev + (seq![tokv]
                    + tokens_of(line@.skip(i as int))));
            }
        }
    }
    proof {
        assert(line@.skip(n as int) =~= Seq::<u8>::empty());
        assert(full =~= views_of(out@));
        assert(forall|k: int| 0 <= k < out@.len() ==> out@[k]@ == views_of(out@)[k]);
    }
    out
}

} // verus!
