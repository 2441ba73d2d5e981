//! The map's decorations: which floor tiles carry foliage, decided by a
//! hash of the tile's grid position so that the layout is the same on
//! every run.
use vstd::prelude::*;

verus! {

/// `v` rotated left by 11 bits.
pub open spec fn rotate_left_11(v: u32) -> u32 {
    ((v << 11u32) | (v >> 21u32)) as u32
}

/// The hash of a grid position: both coordinates taken as their 32-bit
/// patterns, mixed by multiply-add modulo 2^32, then rotated left by 11.
pub open spec fn spec_pseudo_hash(grid_x: i32, grid_y: i32) -> u32 {
    rotate_left_11(
        vstd::wrapping::u32_specs::wrapping_add(
            vstd::wrapping::u32_specs::wrapping_mul(grid_x as u32, 1_103_515_245u32),
            vstd::wrapping::u32_specs::wrapping_mul(grid_y as u32, 97_867_311u32),
        ),
    )
}

pub fn pseudo_hash(grid_x: i32, grid_y: i32) -> (r: u32)
    ensures
        r == spec_pseudo_hash(grid_x, grid_y),
{
    let x = grid_x as u32;
    let y = grid_y as u32;
    let mixed = x.wrapping_mul(1_103_515_245).wrapping_add(y.wrapping_mul(97_867_311));
    (mixed << 11) | (mixed >> 21)
}

/// A floor tile carries foliage where its hash is a multiple of 29.
pub fn should_place_foliage_tile(grid_x: i32, grid_y: i32) -> (r: bool)
    ensures
        r == (spec_pseudo_hash(grid_x, grid_y) % 29 == 0),
{
    pseudo_hash(grid_x, grid_y) % 29 == 0
}

} // verus!
