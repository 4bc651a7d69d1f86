//! Deterministic addresses: a pair of 64-bit identities packed into one
//! 128-bit key, and the lifting of maps keyed that way to maps keyed by pairs.
use vstd::prelude::*;

verus! {

/// The number of distinct values of the low half of a packed key.
pub const HALF: u128 = 0x1_0000_0000_0000_0000;

/// The packed key of the pair `(hi, lo)`.
pub open spec fn pack(hi: u64, lo: u64) -> u128 {
    ((hi as int) * (HALF as int) + (lo as int)) as u128
}

/// Packing is injective: distinct pairs never share a key.
pub proof fn lemma_pack_injective(a: u64, b: u64, c: u64, d: u64)
    ensures
        pack(a, b) == pack(c, d) <==> (a == c && b == d),
{
    let k: int = HALF as int;
    assert(0 <= (a as int) * k + (b as int) < k * k) by (nonlinear_arith)
        requires
            k == 0x1_0000_0000_0000_0000,
            0 <= a < k,
            0 <= b < k,
    ;
    assert(0 <= (c as int) * k + (d as int) < k * k) by (nonlinear_arith)
        requires
            k == 0x1_0000_0000_0000_0000,
            0 <= c < k,
            0 <= d < k,
    ;
    if pack(a, b) == pack(c, d) {
        assert((a as int) * k + (b as int) == (c as int) * k + (d as int));
        assert(a == c && b == d) by (nonlinear_arith)
            requires
                k == 0x1_0000_0000_0000_0000,
                (a as int) * k + (b as int) == (c as int) * k + (d as int),
                0 <= b < k,
                0 <= d < k,
                0 <= a,
                0 <= c,
        ;
    }
}

/// Computes the packed key of `(hi, lo)`.
pub fn pack_key(hi: u64, lo: u64) -> (r: u128)
    ensures
        r == pack(hi, lo),
{
    proof {
        let k: int = HALF as int;
        assert(0 <= (hi as int) * k + (lo as int) < k * k) by (nonlinear_arith)
            requires
                k == 0x1_0000_0000_0000_0000,
                0 <= hi < k,
                0 <= lo < k,
        ;
        assert((hi as int) * k <= k * k - k) by (nonlinear_arith)
            requires
                k == 0x1_0000_0000_0000_0000,
                0 <= hi < k,
        ;
    }
    hi as u128 * HALF + lo as u128
}

/// A map keyed by packed keys, seen as a map keyed by pairs.
pub open spec fn by_pair<V>(m: Map<u128, V>) -> Map<(u64, u64), V> {
    Map::new(|p: (u64, u64)| m.contains_key(pack(p.0, p.1)), |p: (u64, u64)| m[pack(p.0, p.1)])
}

/// Inserting at a packed key inserts at its pair.
pub proof fn lemma_by_pair_insert<V>(m: Map<u128, V>, hi: u64, lo: u64, v: V)
    ensures
        by_pair(m.insert(pack(hi, lo), v)) == by_pair(m).insert((hi, lo), v),
{
    assert forall|p: (u64, u64)| #[trigger] pack(p.0, p.1) == pack(hi, lo) <==> p == (hi, lo) by {
        lemma_pack_injective(p.0, p.1, hi, lo);
    }
    assert(by_pair(m.insert(pack(hi, lo), v)) =~= by_pair(m).insert((hi, lo), v));
}

/// Removing a packed key removes its pair.
pub proof fn lemma_by_pair_remove<V>(m: Map<u128, V>, hi: u64, lo: u64)
    ensures
        by_pair(m.remove(pack(hi, lo))) == by_pair(m).remove((hi, lo)),
{
    assert forall|p: (u64, u64)| #[trigger] pack(p.0, p.1) == pack(hi, lo) <==> p == (hi, lo) by {
        lemma_pack_injective(p.0, p.1, hi, lo);
    }
    assert(by_pair(m.remove(pack(hi, lo))) =~= by_pair(m).remove((hi, lo)));
}

/// The empty map stays empty.
pub proof fn lemma_by_pair_empty<V>()
    ensures
        by_pair(Map::<u128, V>::empty()) == Map::<(u64, u64), V>::empty(),
{
    assert(by_pair(Map::<u128, V>::empty()) =~= Map::<(u64, u64), V>::empty());
}

} // verus!
