//! Game rules of a crusade-themed survival roguelite: unit identities,
//! inventory and equipment slots, formations, enemy waves, drops and the
//! run-modal state, with their contracts proved.
pub mod ai;
pub mod archive;
pub mod collision;
pub mod combat;
pub mod data;
pub mod drops;
pub mod enemies;
pub mod enemy_batch;
pub mod formation;
pub mod formation_overflow;
pub mod game_core;
pub mod heroes;
pub mod inventory;
pub mod map;
pub mod model;
pub mod morale;
pub mod text;
pub mod unit_line;
pub mod wave_progress;
