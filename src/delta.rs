//! The byte delta filter that ZIP and ZIPS apply before deflating.
use vstd::prelude::*;

use vstd::arithmetic::div_mod::lemma_add_mod_noop;

verus! {

/// Each byte minus the one before it, modulo 256; the first byte is kept.
pub open spec fn delta_encoded(s: Seq<u8>) -> Seq<u8> {
    Seq::new(
        s.len(),
        |i: int|
            if i == 0 {
                s[0]
            } else {
                ((s[i] + 256 - s[i - 1]) % 256) as u8
            },
    )
}

/// The sum of the first `n` bytes of `t`.
pub open spec fn prefix_sum(t: Seq<u8>, n: int) -> int
    decreases n,
{
    if n <= 0 {
        0
    } else {
        prefix_sum(t, n - 1) + t[n - 1]
    }
}

/// Each byte replaced by the sum of it and all bytes before it, modulo 256.
pub open spec fn delta_decoded(t: Seq<u8>) -> Seq<u8> {
    Seq::new(t.len(), |i: int| (prefix_sum(t, i + 1) % 256) as u8)
}

proof fn lemma_prefix_of_delta(s: Seq<u8>, i: int)
    requires
        0 <= i < s.len(),
    ensures
        prefix_sum(delta_encoded(s), i + 1) % 256 == s[i],
    decreases i,
{
    let d = delta_encoded(s);
    assert(prefix_sum(d, i + 1) == prefix_sum(d, i) + d[i]);
    if i == 0 {
        assert(prefix_sum(d, 0) == 0);
    } else {
        let p = prefix_sum(d, i);
        let x = s[i] + 256 - s[i - 1];
        lemma_prefix_of_delta(s, i - 1);
        assert(p % 256 == s[i - 1]);
        lemma_add_mod_noop(p, d[i] as int, 256);
        assert(d[i] == x % 256);
        assert((d[i] as int) % 256 == d[i]);
        assert((p + d[i]) % 256 == (s[i - 1] + x % 256) % 256);
        lemma_add_mod_noop(s[i - 1] as int, x, 256);
        assert((s[i - 1] as int) % 256 == s[i - 1]);
        assert((s[i - 1] + x % 256) % 256 == (s[i - 1] + x) % 256);
        assert(s[i - 1] + x == s[i] + 256);
        assert((s[i] + 256) % 256 == s[i]);
    }
}

/// Decoding undoes the filter.
pub proof fn lemma_delta_round_trip(s: Seq<u8>)
    ensures
        delta_decoded(delta_encoded(s)) == s,
{
    assert forall|i: int| 0 <= i < s.len() implies #[trigger] delta_decoded(delta_encoded(s))[i] == s[i] by {
        lemma_prefix_of_delta(s, i);
    }
    assert(delta_decoded(delta_encoded(s)) =~= s);
}

/// Replaces each byte by its difference from the byte before it, modulo 256.
pub fn encode_delta(s: &Vec<u8>) -> (r: Vec<u8>)
    ensures
        r@ == delta_encoded(s@),
{
    let n = s.len();
    let mut r: Vec<u8> = Vec::new();
    let mut i: usize = 0;
    while i < n
        invariant
            n == s@.len(),
            i <= n,
            r@ == delta_encoded(s@).take(i as int),
        decreases n - i,
    {
        let v: u8 = if i == 0 {
            s[0]
        } else {
            ((s[i] as u16 + 256 - s[i - 1] as u16) % 256) as u8
        };
        r.push(v);
        i = i + 1;
        assert(r@ =~= delta_encoded(s@).take(i as int));
    }
    assert(delta_encoded(s@).take(n as int) =~= delta_encoded(s@));
    r
}

/// Replaces each byte by the sum of it and all bytes before it, modulo 256.
pub fn decode_delta(t: &Vec<u8>) -> (r: Vec<u8>)
    ensures
        r@ == delta_decoded(t@),
{
    let n = t.len();
    let mut r: Vec<u8> = Vec::new();
    let mut acc: u8 = 0;
    let mut i: usize = 0;
    while i < n
        invariant
            n == t@.len(),
            i <= n,
            acc == prefix_sum(t@, i as int) % 256,
            r@ == delta_decoded(t@).take(i as int),
        decreases n - i,
    {
        proof {
            lemma_add_mod_noop(prefix_sum(t@, i as int), t@[i as int] as int, 256);
        }
        acc = ((acc as u16 + t[i] as u16) % 256) as u8;
        r.push(acc);
        i = i + 1;
        assert(r@ =~= delta_decoded(t@).take(i as int));
    }
    assert(delta_decoded(t@).take(n as int) =~= delta_decoded(t@));
    r
}

} // verus!
