//! Subsystem hooks called by the simulation tick loop, one per tick update,
//! and a no-op implementation used in viewer mode.
use vstd::prelude::*;

verus! {

/// Terrain modification processing.
pub trait TerrainTick {
    fn tick_update_terrain(&mut self);
}

/// Object system update (all object types).
pub trait ObjectTick {
    fn tick_update_objects(&mut self);
}

/// Water simulation and effects.
pub trait WaterTick {
    fn tick_update_water(&mut self);
}

/// Network message processing.
pub trait NetworkTick {
    /// Process incoming network messages; `true` if the tick should continue,
    /// `false` to abort it (e.g. waiting for sync).
    fn tick_process_network(&mut self) -> bool;
}

/// Pending player action queue processing.
pub trait ActionTick {
    fn tick_process_actions(&mut self);
}

/// Per-tribe game time updates.
pub trait GameTimeTick {
    fn tick_update_game_time(&mut self);
}

/// Single-player per-tick update.
pub trait SinglePlayerTick {
    fn tick_update_single_player(&mut self);
}

/// Tutorial mode per-tick update.
pub trait TutorialTick {
    fn tick_update_tutorial(&mut self);
}

/// AI tribe update (all computer-controlled tribes).
pub trait AiTick {
    fn tick_update_ai(&mut self);
}

/// Population spawning.
pub trait PopulationTick {
    fn tick_update_population(&mut self);
}

/// Main update dispatcher (object state updates, movement, building combat, cleanup).
pub trait ManaTick {
    fn tick_update_mana(&mut self);
}

/// A subsystem that does nothing, for subsystems not implemented yet.
pub struct NoOp;

impl TerrainTick for NoOp {
    fn tick_update_terrain(&mut self) {
    }
}

impl ObjectTick for NoOp {
    fn tick_update_objects(&mut self) {
    }
}

impl WaterTick for NoOp {
    fn tick_update_water(&mut self) {
    }
}

impl NetworkTick for NoOp {
    /// Never holds the tick back.
    fn tick_process_network(&mut self) -> (r: bool)
        ensures
            r,
    {
        true
    }
}

impl ActionTick for NoOp {
    fn tick_process_actions(&mut self) {
    }
}

impl GameTimeTick for NoOp {
    fn tick_update_game_time(&mut self) {
    }
}

impl SinglePlayerTick for NoOp {
    fn tick_update_single_player(&mut self) {
    }
}

impl TutorialTick for NoOp {
    fn tick_update_tutorial(&mut self) {
    }
}

impl AiTick for NoOp {
    fn tick_update_ai(&mut self) {
    }
}

impl PopulationTick for NoOp {
    fn tick_update_population(&mut self) {
    }
}

impl ManaTick for NoOp {
    fn tick_update_mana(&mut self) {
    }
}

} // verus!
