//! Morale thresholds: the edges a morale bar can cross and the order in
//! which crossing them is announced.
use vstd::prelude::*;

verus! {

/// How many threshold edges the morale bar has (at a quarter, half,
/// four fifths and all of it).
pub const MORALE_THRESHOLD_EDGE_COUNT: usize = 4;

/// Whether morale rose or fell across an edge.
#[derive(Clone, Copy, Debug, PartialEq, Eq, Structural)]
pub enum MoraleThresholdDirection {
    Rising,
    Falling,
}

/// The edges crossed moving from one morale bucket to another, by index:
/// rising, the edges `from..to` in ascending order; falling, the edges
/// `to..from` in descending order; only edges that exist.
pub open spec fn spec_crossed_edges(from_bucket: u8, to_bucket: u8) -> Seq<(usize, MoraleThresholdDirection)> {
    if to_bucket > from_bucket {
        let hi: int = if to_bucket > 4 { 4 } else { to_bucket as int };
        let lo: int = if from_bucket > hi { hi } else { from_bucket as int };
        Seq::new((hi - lo) as nat, |k: int| ((lo + k) as usize, MoraleThresholdDirection::Rising))
    } else {
        let hi: int = if from_bucket > 4 { 4 } else { from_bucket as int };
        let lo: int = if to_bucket > hi { hi } else { to_bucket as int };
        Seq::new((hi - lo) as nat, |k: int| ((hi - 1 - k) as usize, MoraleThresholdDirection::Falling))
    }
}

pub fn crossed_threshold_edges(from_bucket: u8, to_bucket: u8) -> (r: Vec<(usize, MoraleThresholdDirection)>)
    ensures
        r@ == spec_crossed_edges(from_bucket, to_bucket),
{
    let mut out: Vec<(usize, MoraleThresholdDirection)> = Vec::new();
    if from_bucket == to_bucket {
        proof {
            assert(out@ =~= spec_crossed_edges(from_bucket, to_bucket));
        }
        return out;
    }
    if to_bucket > from_bucket {
        let hi: usize = if to_bucket > 4 { 4 } else { to_bucket as usize };
        let lo: usize = if from_bucket as usize > hi { hi } else { from_bucket as usize };
        let mut edge_index: usize = lo;
        while edge_index < hi
            invariant
                lo <= edge_index <= hi,
                hi <= 4,
                out@ =~= Seq::new(
                    (edge_index - lo) as nat,
                    |k: int| ((lo + k) as usize, MoraleThresholdDirection::Rising),
                ),
            decreases hi - edge_index,
        {
            out.push((edge_index, MoraleThresholdDirection::Rising));
            edge_index = edge_index + 1;
        }
    } else {
        let hi: usize = if from_bucket > 4 { 4 } else { from_bucket as usize };
        let lo: usize = if to_bucket as usize > hi { hi } else { to_bucket as usize };
        let mut edge_index: usize = hi;
        while edge_index > lo
            invariant
                lo <= edge_index <= hi,
                hi <= 4,
                out@ =~= Seq::new(
                    (hi - edge_index) as nat,
                    |k: int| ((hi - 1 - k) as usize, MoraleThresholdDirection::Falling),
                ),
            decreases edge_index - lo,
        {
            edge_index = edge_index - 1;
            out.push((edge_index, MoraleThresholdDirection::Falling));
        }
    }
    out
}

/// Crossing back undoes a crossing: going from `a` to `b` and from `b` to
/// `a` crosses the same edges, in reverse order and opposite directions.
pub proof fn lemma_crossing_back_reverses(a: u8, b: u8)
    requires
        a != b,
    ensures
        spec_crossed_edges(a, b).len() == spec_crossed_edges(b, a).len(),
        forall|k: int|
            0 <= k < spec_crossed_edges(a, b).len() ==> #[trigger] spec_crossed_edges(a, b)[k].0
                == spec_crossed_edges(b, a)[spec_crossed_edges(a, b).len() - 1 - k].0
                && spec_crossed_edges(a, b)[k].1 != spec_crossed_edges(b, a)[spec_crossed_edges(a, b).len() - 1 - k].1,
{
}

} // verus!
