//! Target selection for the chasing enemies.
use vstd::prelude::*;

verus! {

/// Some friendly is not the commander.
pub open spec fn has_retinue<P>(all_friendlies: Seq<(P, bool)>) -> bool {
    exists|i: int| 0 <= i < all_friendlies.len() && !#[trigger] all_friendlies[i].1
}

/// The friendlies an enemy may chase: all but the commander while he has
/// a retinue.
pub open spec fn chase_target_filter<P>(retinue: bool) -> spec_fn((P, bool)) -> bool {
    |entry: (P, bool)| !(retinue && entry.1)
}

/// The positions enemies chase: those of every friendly that is not the
/// commander, or the commander's alone where he has no retinue (each
/// entry is a position and whether it is the commander's), in order.
pub open spec fn spec_chase_target_positions<P>(all_friendlies: Seq<(P, bool)>) -> Seq<P> {
    all_friendlies.filter(chase_target_filter(has_retinue(all_friendlies))).map_values(|entry: (P, bool)| entry.0)
}

proof fn lemma_filter_map_push<P>(s: Seq<(P, bool)>, x: (P, bool), pred: spec_fn((P, bool)) -> bool)
    ensures
        s.push(x).filter(pred).map_values(|entry: (P, bool)| entry.0) == (if pred(x) {
            s.filter(pred).map_values(|entry: (P, bool)| entry.0).push(x.0)
        } else {
            s.filter(pred).map_values(|entry: (P, bool)| entry.0)
        }),
{
    reveal(Seq::filter);
    assert(s.push(x).drop_last() =~= s);
    assert(s.push(x).last() == x);
    if pred(x) {
        assert(s.filter(pred).push(x).map_values(|entry: (P, bool)| entry.0) =~= s.filter(pred).map_values(
            |entry: (P, bool)| entry.0,
        ).push(x.0));
    }
}

pub fn chase_target_positions<P: Copy>(all_friendlies: &[(P, bool)]) -> (r: Vec<P>)
    ensures
        r@ == spec_chase_target_positions(all_friendlies@),
{
    let ghost all = all_friendlies@;
    let mut retinue = false;
    let mut i: usize = 0;
    while i < all_friendlies.len()
        invariant
            all == all_friendlies@,
            i <= all.len(),
            retinue == exists|k: int| 0 <= k < i && !#[trigger] all[k].1,
        decreases all.len() - i,
    {
        if !all_friendlies[i].1 {
            retinue = true;
        }
        i = i + 1;
    }
    let ghost pred = chase_target_filter::<P>(retinue);
    let mut targets: Vec<P> = Vec::new();
    let mut j: usize = 0;
    while j < all_friendlies.len()
        invariant
            all == all_friendlies@,
            j <= all.len(),
            retinue == has_retinue(all),
            pred == chase_target_filter::<P>(retinue),
            targets@ == all.take(j as int).filter(pred).map_values(|entry: (P, bool)| entry.0),
        decreases all.len() - j,
    {
        let entry = all_friendlies[j];
        proof {
            assert(all.take(j + 1) =~= all.take(j as int).push(all[j as int]));
            lemma_filter_map_push(all.take(j as int), all[j as int], pred);
        }
        if !(retinue && entry.1) {
            targets.push(entry.0);
        }
        j = j + 1;
    }
    proof {
        assert(all.take(all.len() as int) =~= all);
    }
    targets
}

} // verus!
