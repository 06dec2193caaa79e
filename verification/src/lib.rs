//! Game logic of Populous: The Beginning: level data, movement, AI scripting
//! and its bytecode decompiler, campaign, saves, landscape and viewer helpers.
use vstd::prelude::*;

pub mod flags;
pub mod text;
pub mod game_state;
pub mod tick;
pub mod target;
pub mod shaman_cmd;
pub mod campaign;
pub mod movement;
pub mod units;
pub mod state;
pub mod save;
pub mod decompiler;
pub mod ai;
pub mod ai_constants;
pub mod flyby;
pub mod spells;
pub mod viewer;
pub mod terrain;

verus! {

/// Tribe slots in a level.
pub const NUM_TRIBES: usize = 4;

} // verus!
