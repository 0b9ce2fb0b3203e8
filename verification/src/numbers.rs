//! Decimal text for content-ids.
//!
//! A content-id travels over the wire as its decimal digits: clients send
//! one with `ADD_SONG_HASH` and receive one from `FIND_SONG`.

use vstd::prelude::*;

verus! {

pub const DIGIT_ZERO: u8 = 48;

pub open spec fn is_digit(b: u8) -> bool {
    DIGIT_ZERO <= b <= 57
}

pub open spec fn all_digits(s: Seq<u8>) -> bool {
    forall|k: int| 0 <= k < s.len() ==> is_digit(s[k])
}

/// The number the digit string `s` denotes, most significant digit first.
pub open spec fn dec_val(s: Seq<u8>) -> nat
    decreases s.len(),
{
    if s.len() == 0 {
        0
    } else {
        dec_val(s.drop_last()) * 10 + (s.last() - DIGIT_ZERO) as nat
    }
}

/// The value the low-order-first digit string `s` denotes.
pub open spec fn dec_val_rev(s: Seq<u8>) -> nat
    decreases s.len(),
{
    if s.len() == 0 {
        0
    } else {
        (s[0] - DIGIT_ZERO) as nat + 10 * dec_val_rev(s.drop_first())
    }
}

pub open spec fn pow10(k: nat) -> nat
    decreases k,
{
    if k == 0 {
        1
    } else {
        10 * pow10((k - 1) as nat)
    }
}

proof fn lemma_dec_val_prefix_le(s: Seq<u8>, i: int)
    requires
        0 <= i <= s.len(),
    ensures
        dec_val(s.take(i)) <= dec_val(s),
    decreases s.len() - i,
{
    if i < s.len() {
        lemma_dec_val_prefix_le(s, i + 1);
        assert(s.take(i + 1).drop_last() =~= s.take(i));
        assert(dec_val(s.take(i + 1)) == dec_val(s.take(i)) * 10 + (s.take(i + 1).last()
            - DIGIT_ZERO) as nat);
    } else {
        assert(s.take(i) =~= s);
    }
}

proof fn lemma_dec_rev_push(s: Seq<u8>, d: u8)
    requires
        d >= DIGIT_ZERO,
    ensures
        dec_val_rev(s.push(d)) == dec_val_rev(s) + (d - DIGIT_ZERO) as nat * pow10(s.len()),
    decreases s.len(),
{
    if s.len() == 0 {
        assert(s.push(d).drop_first() =~= Seq::<u8>::empty());
        assert(dec_val_rev(s.push(d)) == (s.push(d)[0] - DIGIT_ZERO) as nat + 10 * dec_val_rev(
            s.push(d).drop_first(),
        ));
        assert(s.push(d)[0] == d);
        assert(dec_val_rev(Seq::<u8>::empty()) == 0);
        assert(pow10(0) == 1);
    } else {
        assert(s.push(d).drop_first() =~= s.drop_first().push(d));
        lemma_dec_rev_push(s.drop_first(), d);
        assert(dec_val_rev(s.push(d)) == (s.push(d)[0] - DIGIT_ZERO) as nat + 10 * dec_val_rev(
            s.push(d).drop_first(),
        ));
        assert(s.push(d)[0] == s[0]);
        assert(dec_val_rev(s) == (s[0] - DIGIT_ZERO) as nat + 10 * dec_val_rev(s.drop_first()));
        assert(10 * ((d - DIGIT_ZERO) as nat * pow10((s.len() - 1) as nat)) == (d
            - DIGIT_ZERO) as nat * pow10(s.len())) by (nonlinear_arith)
            requires
                pow10(s.len()) == 10 * pow10((s.len() - 1) as nat),
        ;
    }
}

/// A digit string read most-significant-first equals its mirror image read
/// low-order-first.
proof fn lemma_dec_mirror(a: Seq<u8>, b: Seq<u8>)
    requires
        a.len() == b.len(),
        forall|k: int| 0 <= k < a.len() ==> a[k] == b[b.len() - 1 - k],
    ensures
        dec_val(a) == dec_val_rev(b),
    decreases a.len(),
{
    if a.len() > 0 {
        let a2 = a.drop_last();
        let b2 = b.drop_first();
        assert(forall|k: int| 0 <= k < a2.len() ==> a2[k] == b2[b2.len() - 1 - k]);
        lemma_dec_mirror(a2, b2);
        assert(a.last() == b[0]);
    }
}

/// Parses an unsigned decimal number, exactly as the wire format allows it:
/// one or more digits denoting a value that fits in 64 bits.
pub fn parse_u64(s: &Vec<u8>) -> (r: Option<u64>)
    ensures
        r is Some <==> (s@.len() > 0 && all_digits(s@) && dec_val(s@) <= u64::MAX),
        r matches Some(v) ==> v == dec_val(s@),
{
    let n = s.len();
    if n == 0 {
        return None;
    }
    let mut acc: u64 = 0;
    let mut i: usize = 0;
    while i < n
        invariant
            n == s.len(),
            0 <= i <= n,
            all_digits(s@.take(i as int)),
            acc == dec_val(s@.take(i as int)),
        decreases n - i,
    {
        let b = s[i];
        if b < DIGIT_ZERO || b > 57 {
            assert(!is_digit(s@[i as int]));
            return None;
        }
        let d = (b - DIGIT_ZERO) as u64;
        proof {
            assert(s@.take(i + 1).drop_last() =~= s@.take(i as int));
            assert(dec_val(s@.take(i + 1)) == dec_val(s@.take(i as int)) * 10 + d);
        }
        if acc > (u64::MAX - d) / 10 {
            proof {
                assert(acc * 10 + d > u64::MAX) by (nonlinear_arith)
                    requires
                        acc > (u64::MAX - d) / 10,
                        0 <= d <= 9,
                        acc >= 0,
                ;
                lemma_dec_val_prefix_le(s@, i + 1);
            }
            return None;
        }
        proof {
            assert(acc * 10 + d <= u64::MAX) by (nonlinear_arith)
                requires
                    acc <= (u64::MAX - d) / 10,
                    0 <= d <= 9,
                    acc >= 0,
            ;
        }
        acc = acc * 10 + d;
        i += 1;
    }
    proof {
        assert(s@.take(n as int) =~= s@);
    }
    Some(acc)
}

/// Prints a number as decimal digits, no leading zero except for zero
/// itself.
pub fn u64_to_dec(n: u64) -> (r: Vec<u8>)
    ensures
        r@.len() > 0,
        all_digits(r@),
        dec_val(r@) == n,
        r@.len() > 1 ==> r@[0] != DIGIT_ZERO,
{
    if n == 0 {
        let mut out: Vec<u8> = Vec::new();
        out.push(DIGIT_ZERO);
        proof {
            assert(out@.drop_last() =~= Seq::<u8>::empty());
            assert(dec_val(Seq::<u8>::empty()) == 0);
            assert(dec_val(out@) == dec_val(out@.drop_last()) * 10 + (out@.last()
                - DIGIT_ZERO) as nat);
        }
        return out;
    }
    let mut rev: Vec<u8> = Vec::new();
    let mut m = n;
    proof {
        assert(dec_val_rev(Seq::<u8>::empty()) == 0);
        assert(pow10(0) == 1);
    }
    while m > 0
        invariant
            dec_val_rev(rev@) + m * pow10(rev@.len()) == n,
            all_digits(rev@),
            m == 0 ==> rev@.len() > 0 && rev@.last() != DIGIT_ZERO,
            m <= n,
        decreases m,
    {
        let d = (m % 10) as u8 + DIGIT_ZERO;
        let ghost prev = rev@;
        let ghost m0 = m;
        rev.push(d);
        m = m / 10;
        proof {
            lemma_dec_rev_push(prev, d);
            assert((m0 % 10) as nat * pow10(prev.len()) + (m0 / 10) as nat * pow10(prev.len() + 1)
                == m0 as nat * pow10(prev.len())) by (nonlinear_arith)
                requires
                    m0 > 0,
                    pow10(prev.len() + 1) == 10 * pow10(prev.len()),
            ;
        }
    }
    let len = rev.len();
    let mut out: Vec<u8> = Vec::new();
    let mut i: usize = len;
    while i > 0
        invariant
            len == rev.len(),
            0 <= i <= len,
            out@.len() == len - i,
            forall|k: int| 0 <= k < out@.len() ==> out@[k] == rev@[len - 1 - k],
        decreases i,
    {
        i -= 1;
        out.push(rev[i]);
    }
    proof {
        lemma_dec_mirror(out@, rev@);
        assert(out@[0] == rev@[len - 1]);
    }
    out
}

} // verus!
