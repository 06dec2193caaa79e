//! Per-game state carried in save files: the simulation random generator's
//! seed and the per-tribe counters.
use vstd::prelude::*;

verus! {

/// Simulation random generator state.
#[derive(Debug, Clone, Copy, PartialEq, Eq, Structural)]
pub struct GameRng {
    seed: u32,
}

impl View for GameRng {
    type V = u32;

    closed spec fn view(&self) -> u32 {
        self.seed
    }
}

impl GameRng {
    pub fn new(seed: u32) -> (r: Self)
        ensures
            r@ == seed,
    {
        GameRng { seed }
    }

    /// The generator's current seed.
    pub fn seed(&self) -> (s: u32)
        ensures
            s == self@,
    {
        self.seed
    }
}

/// Counters of one tribe.
#[derive(Debug, Clone, Copy, PartialEq, Eq, Structural)]
pub struct TribeData {
    pub active: bool,
    pub population: u32,
    pub mana: u32,
    pub wood_gathered: u32,
}

/// An inactive tribe with all counters zero.
pub open spec fn empty_tribe() -> TribeData {
    TribeData { active: false, population: 0, mana: 0, wood_gathered: 0 }
}

/// The four tribes of a level.
#[derive(Debug, Clone, Copy)]
pub struct TribeArray {
    pub tribes: [TribeData; 4],
}

impl TribeArray {
    /// Four inactive tribes with all counters zero.
    pub fn new() -> (a: Self)
        ensures
            forall|i: int| 0 <= i < 4 ==> #[trigger] a.tribes@[i] == empty_tribe(),
    {
        let t = TribeData { active: false, population: 0, mana: 0, wood_gathered: 0 };
        TribeArray { tribes: [t, t, t, t] }
    }
}

} // verus!
