//! Which enemies are pushed out of a crowded formation: with more enemies
//! inside than the formation allows, the ones nearest its commander are
//! pushed out and the outermost ones stay, up to the cap.
use vstd::prelude::*;

verus! {

/// Enemy `a` comes before enemy `b`: it is nearer (by order key), or as
/// near and listed earlier.
pub open spec fn nearer_first(keys: Seq<u32>, a: int, b: int) -> bool {
    keys[a] < keys[b] || (keys[a] == keys[b] && a < b)
}

/// `order` lists distinct enemy indices, each before the next.
pub open spec fn listed_nearest_first(keys: Seq<u32>, order: Seq<usize>) -> bool {
    &&& forall|k: int| 0 <= k < order.len() ==> #[trigger] order[k] < keys.len()
    &&& forall|a: int, b: int|
        0 <= a < b < order.len() ==> nearer_first(keys, #[trigger] order[a] as int, #[trigger] order[b] as int)
}

/// How many enemies must leave: those beyond the cap.
pub open spec fn overflow_count(inside: nat, cap: nat) -> nat {
    if inside <= cap {
        0
    } else {
        (inside - cap) as nat
    }
}

/// `overflow` lists, nearest first, the `overflow_count` enemies nearest
/// the commander: every enemy it leaves out comes after all it lists.
pub open spec fn is_innermost_overflow(keys: Seq<u32>, cap: nat, overflow: Seq<usize>) -> bool {
    &&& overflow.len() == overflow_count(keys.len(), cap)
    &&& listed_nearest_first(keys, overflow)
    &&& forall|j: int, k: int|
        0 <= j < keys.len() && !overflow.contains(j as usize) && 0 <= k < overflow.len() ==> #[trigger] nearer_first(
            keys,
            overflow[k] as int,
            j,
        )
}

/// The enemies inside a formation to push out, given their distances to
/// the commander as order keys and the number the formation allows: the
/// nearest ones beyond the cap, nearest first (see `is_innermost_overflow`).
pub fn overflow_indices_by_distance(distance_keys: &[u32], cap: usize) -> (r: Vec<usize>)
    ensures
        is_innermost_overflow(distance_keys@, cap as nat, r@),
{
    let ghost keys = distance_keys@;
    let n = distance_keys.len();
    let mut sorted: Vec<usize> = Vec::new();
    let mut i: usize = 0;
    while i < n
        invariant
            n == keys.len(),
            keys == distance_keys@,
            i <= n,
            sorted@.len() == i,
            forall|k: int| 0 <= k < sorted@.len() ==> #[trigger] sorted@[k] < i,
            forall|j: int| 0 <= j < i ==> #[trigger] sorted@.contains(j as usize),
            listed_nearest_first(keys, sorted@),
        decreases n - i,
    {
        let mut p: usize = 0;
        while p < sorted.len() && !(distance_keys[i] < distance_keys[sorted[p]])
            invariant
                n == keys.len(),
                keys == distance_keys@,
                i < n,
                p <= sorted@.len(),
                forall|k: int| 0 <= k < sorted@.len() ==> #[trigger] sorted@[k] < i,
                forall|k: int| 0 <= k < p ==> nearer_first(keys, #[trigger] sorted@[k] as int, i as int),
            decreases sorted@.len() - p,
        {
            p = p + 1;
        }
        let ghost before = sorted@;
        proof {
            if p < before.len() {
                assert forall|k: int| p <= k < before.len() implies nearer_first(keys, i as int, #[trigger] before[k] as int) by {
                    if k > p {
                        assert(nearer_first(keys, before[p as int] as int, before[k] as int));
                    }
                }
            }
        }
        sorted.insert(p, i);
        proof {
            let after = sorted@;
            assert(after == before.insert(p as int, i));
            assert forall|k: int| 0 <= k < after.len() implies #[trigger] after[k] < i + 1 by {
                if k < p {
                    assert(after[k] == before[k]);
                } else if k > p {
                    assert(after[k] == before[k - 1]);
                }
            }
            assert forall|j: int| 0 <= j < i + 1 implies #[trigger] after.contains(j as usize) by {
                if j == i {
                    assert(after[p as int] == i);
                } else {
                    assert(before.contains(j as usize));
                    let q = choose|q: int| 0 <= q < before.len() && before[q] == j as usize;
                    if q < p {
                        assert(after[q] == before[q]);
                    } else {
                        assert(after[q + 1] == before[q]);
                    }
                }
            }
            assert forall|a: int, b: int| 0 <= a < b < after.len() implies nearer_first(
                keys,
                #[trigger] after[a] as int,
                #[trigger] after[b] as int,
            ) by {
                if b < p {
                    assert(after[a] == before[a] && after[b] == before[b]);
                } else if b == p {
                    assert(after[a] == before[a]);
                } else if a < p {
                    assert(after[a] == before[a] && after[b] == before[b - 1]);
                    if p < before.len() {
                        assert(nearer_first(keys, before[a] as int, i as int));
                        assert(nearer_first(keys, i as int, before[b - 1] as int));
                    }
                } else if a == p {
                    assert(after[b] == before[b - 1]);
                } else {
                    assert(after[a] == before[a - 1] && after[b] == before[b - 1]);
                }
            }
        }
        i = i + 1;
    }
    let m: usize = if n <= cap {
        0
    } else {
        n - cap
    };
    let mut overflow: Vec<usize> = Vec::new();
    let mut k: usize = 0;
    while k < m
        invariant
            n == keys.len(),
            m <= n,
            sorted@.len() == n,
            k <= m,
            overflow@ == sorted@.subrange(0, k as int),
        decreases m - k,
    {
        overflow.push(sorted[k]);
        k = k + 1;
    }
    proof {
        let all = sorted@;
        let out = overflow@;
        assert(out =~= all.subrange(0, m as int));
        assert forall|j: int, t: int| 0 <= j < keys.len() && !out.contains(j as usize) && 0 <= t < out.len() implies #[trigger] nearer_first(
            keys,
            out[t] as int,
            j,
        ) by {
            assert(all.contains(j as usize));
            let q = choose|q: int| 0 <= q < all.len() && all[q] == j as usize;
            if q < m {
                assert(out[q] == j as usize);
                assert(out.contains(j as usize));
            }
            assert(out[t] == all[t]);
        }
    }
    overflow
}

} // verus!
