//! Stable ordering of records by an integer key.
use vstd::prelude::*;

verus! {

/// Record `a` comes before record `b` in a stable ordering by key: a
/// strictly better key wins, equal keys keep their original order.
pub open spec fn precedes(keys: Seq<u128>, a: int, b: int, desc: bool) -> bool {
    if keys[a] == keys[b] {
        a < b
    } else if desc {
        keys[a] > keys[b]
    } else {
        keys[a] < keys[b]
    }
}

/// `ord` lists the indices `0..n` of `keys`, each once, in stable order:
/// by decreasing key when `desc`, by increasing key otherwise.
pub open spec fn is_stable_order(keys: Seq<u128>, ord: Seq<usize>, n: int, desc: bool) -> bool {
    &&& ord.len() == n
    &&& forall|i: int| 0 <= i < n ==> #[trigger] ord[i] < n
    &&& forall|i: int, j: int|
        0 <= i < j < n ==> precedes(keys, #[trigger] ord[i] as int, #[trigger] ord[j] as int, desc)
}

proof fn lemma_precedes_transitive(keys: Seq<u128>, a: int, b: int, c: int, desc: bool)
    requires
        precedes(keys, a, b, desc),
        precedes(keys, b, c, desc),
    ensures
        precedes(keys, a, c, desc),
{
}

/// Keys made of a time and a position (`time * 2^64 + position`) fit in
/// 128 bits and compare as the times do, then as the positions.
pub proof fn lemma_recency_arith(ta: int, tb: int, a: int, b: int)
    by (nonlinear_arith)
    requires
        0 <= ta < 0x1_0000_0000_0000_0000,
        0 <= tb < 0x1_0000_0000_0000_0000,
        0 <= a < 0x1_0000_0000_0000_0000,
        0 <= b < 0x1_0000_0000_0000_0000,
    ensures
        0 <= ta * 0x1_0000_0000_0000_0000 + a < 0x1_0000_0000_0000_0000_0000_0000_0000_0000,
        ta * 0x1_0000_0000_0000_0000 + a == tb * 0x1_0000_0000_0000_0000 + b ==> ta == tb && a == b,
        ta * 0x1_0000_0000_0000_0000 + a > tb * 0x1_0000_0000_0000_0000 + b ==> ta > tb || (ta == tb
            && a > b),
{
    if ta > tb {
    } else if ta < tb {
        assert(ta * 0x1_0000_0000_0000_0000 + a < (ta + 1) * 0x1_0000_0000_0000_0000);
        assert((ta + 1) * 0x1_0000_0000_0000_0000 <= tb * 0x1_0000_0000_0000_0000);
    }
}

/// The indices of `keys` in stable order (an insertion sort).
pub fn stable_order(keys: &Vec<u128>, desc: bool) -> (ord: Vec<usize>)
    ensures
        is_stable_order(keys@, ord@, keys@.len() as int, desc),
{
    let n = keys.len();
    let mut ord: Vec<usize> = Vec::new();
    let mut i: usize = 0;
    while i < n
        invariant
            i <= n == keys@.len(),
            is_stable_order(keys@, ord@, i as int, desc),
        decreases n - i,
    {
        let mut p: usize = 0;
        while p < ord.len()
            invariant
                p <= ord@.len() == i,
                i < n == keys@.len(),
                is_stable_order(keys@, ord@, i as int, desc),
                forall|k: int| 0 <= k < p ==> !precedes(keys@, i as int, #[trigger] ord@[k] as int, desc),
            ensures
                p <= ord@.len() == i,
                forall|k: int| 0 <= k < p ==> !precedes(keys@, i as int, #[trigger] ord@[k] as int, desc),
                p < ord@.len() ==> precedes(keys@, i as int, ord@[p as int] as int, desc),
            decreases ord@.len() - p,
        {
            let o = ord[p];
            let before = if keys[i] == keys[o] {
                i < o
            } else if desc {
                keys[i] > keys[o]
            } else {
                keys[i] < keys[o]
            };
            if before {
                break;
            }
            p = p + 1;
        }
        let ghost old_ord = ord@;
        proof {
            if p < old_ord.len() {
                assert(precedes(keys@, i as int, old_ord[p as int] as int, desc));
            }
        }
        ord.insert(p, i);
        proof {
            assert forall|a: int, b: int| 0 <= a < b < i + 1 implies precedes(
                keys@,
                #[trigger] ord@[a] as int,
                #[trigger] ord@[b] as int,
                desc,
            ) by {
                if a < p && b < p {
                    assert(ord@[a] == old_ord[a] && ord@[b] == old_ord[b]);
                } else if a < p && b == p {
                    assert(ord@[a] == old_ord[a]);
                    assert(!precedes(keys@, i as int, old_ord[a] as int, desc));
                } else if a < p {
                    assert(ord@[a] == old_ord[a] && ord@[b] == old_ord[b - 1]);
                } else if a == p {
                    assert(ord@[b] == old_ord[b - 1]);
                    if b - 1 > p {
                        lemma_precedes_transitive(
                            keys@,
                            i as int,
                            old_ord[p as int] as int,
                            old_ord[b - 1] as int,
                            desc,
                        );
                    }
                } else {
                    assert(ord@[a] == old_ord[a - 1] && ord@[b] == old_ord[b - 1]);
                }
            }
            assert forall|a: int| 0 <= a < i + 1 implies #[trigger] ord@[a] < i + 1 by {
                if a < p {
                    assert(ord@[a] == old_ord[a]);
                } else if a > p {
                    assert(ord@[a] == old_ord[a - 1]);
                }
            }
        }
        i = i + 1;
    }
    ord
}

} // verus!
