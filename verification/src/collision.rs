//! Which pairs of units push each other apart, and the spatial grid the
//! collision pass walks.
use vstd::prelude::*;

use crate::model::{Team, Unit, UnitKind};

verus! {

/// A retinue unit in the commander's inner ring: a friendly other than
/// the commander, standing within the inner radius of a commander.
pub open spec fn spec_is_inner_ring_retinue(unit: Unit, within_inner_radius: bool) -> bool {
    unit.team == Team::Friendly && unit.kind != UnitKind::Commander && within_inner_radius
}

/// `within_inner_radius` says whether there is a commander and the unit
/// stands within the inner radius of him.
pub fn is_inner_ring_retinue(unit: Unit, within_inner_radius: bool) -> (r: bool)
    ensures
        r == spec_is_inner_ring_retinue(unit, within_inner_radius),
{
    if unit.team != Team::Friendly || unit.kind == UnitKind::Commander {
        return false;
    }
    within_inner_radius
}

/// Enemies push each other apart; an enemy and a friendly only where the
/// friendly is a retinue unit of the inner ring; friendlies never push
/// each other.
pub fn should_resolve_collision_pair(
    unit_a: Unit,
    a_within_inner_radius: bool,
    unit_b: Unit,
    b_within_inner_radius: bool,
) -> (r: bool)
    ensures
        r == (if unit_a.team == Team::Enemy && unit_b.team == Team::Enemy {
            true
        } else if (unit_a.team == Team::Enemy) == (unit_b.team == Team::Enemy) {
            false
        } else if unit_a.team == Team::Enemy {
            spec_is_inner_ring_retinue(unit_b, b_within_inner_radius)
        } else {
            spec_is_inner_ring_retinue(unit_a, a_within_inner_radius)
        }),
{
    let enemy_a = unit_a.team == Team::Enemy;
    let enemy_b = unit_b.team == Team::Enemy;
    if enemy_a && enemy_b {
        return true;
    }
    if enemy_a == enemy_b {
        return false;
    }
    if enemy_a {
        return is_inner_ring_retinue(unit_b, b_within_inner_radius);
    }
    is_inner_ring_retinue(unit_a, a_within_inner_radius)
}

/// The cell and its eight neighbours, row by row from the one below.
pub fn neighboring_cells(cell: (i32, i32)) -> (r: [(i32, i32); 9])
    requires
        i32::MIN < cell.0 < i32::MAX,
        i32::MIN < cell.1 < i32::MAX,
    ensures
        forall|k: int|
            0 <= k < 9 ==> #[trigger] r@[k] == ((cell.0 + k % 3 - 1) as i32, (cell.1 + k / 3 - 1) as i32),
{
    let (x, y) = cell;
    let r = [
        (x - 1, y - 1),
        (x, y - 1),
        (x + 1, y - 1),
        (x - 1, y),
        (x, y),
        (x + 1, y),
        (x - 1, y + 1),
        (x, y + 1),
        (x + 1, y + 1),
    ];
    proof {
        assert forall|k: int| 0 <= k < 9 implies #[trigger] r@[k] == ((cell.0 + k % 3 - 1) as i32, (cell.1
            + k / 3 - 1) as i32) by {
            if k == 0 {
            } else if k == 1 {
            } else if k == 2 {
            } else if k == 3 {
            } else if k == 4 {
            } else if k == 5 {
            } else if k == 6 {
            } else if k == 7 {
            } else {
            }
        }
    }
    r
}

} // verus!
