//! The data bridge between the game and the AI scripts: what the PopScript
//! functions read (tick, populations, mana) and what they write (configuration
//! per tribe, markers, and the commands queued for the game to carry out).
use vstd::prelude::*;
use std::collections::HashMap;
use crate::movement::WorldCoord;
use crate::text::{decimal, push_decimal_u64};

verus! {

/// Tribe slots the scripts address.
pub const AI_TRIBES: usize = 4;
/// Spell slots per tribe.
pub const AI_SPELL_SLOTS: usize = 21;
/// Building-type slots per tribe.
pub const AI_BUILDING_SLOTS: usize = 16;
/// Script variables per tribe.
pub const SCRIPT_VARIABLES: usize = 64;

/// ATTACK / ATTACK_MARKER: attack a tribe, optionally via a marker.
#[derive(Debug, Clone, Copy, PartialEq, Eq)]
pub struct AiAttackCommand {
    pub target_tribe: u8,
    pub num_people: u32,
    pub attack_type: u32,
    pub marker: Option<(i32, i32)>,
}

/// BUILD_AT: place a building.
#[derive(Debug, Clone, Copy, PartialEq, Eq)]
pub struct AiBuildCommand {
    pub building_type: u8,
    pub marker_x: i32,
    pub marker_y: i32,
}

/// SPELL_AT_MARKER: cast a spell.
#[derive(Debug, Clone, Copy, PartialEq, Eq)]
pub struct AiSpellCommand {
    pub spell_type: u8,
    pub target_x: i32,
    pub target_y: i32,
}

/// TRAIN_PEOPLE_NOW: train units.
#[derive(Debug, Clone, Copy, PartialEq, Eq)]
pub struct AiTrainCommand {
    pub unit_type: u8,
    pub count: u32,
}

/// SEND_PEOPLE_TO_MARKER: move people to a marker.
#[derive(Debug, Clone, Copy, PartialEq, Eq)]
pub struct AiMoveCommand {
    pub marker: i32,
    pub num_people: u32,
}

/// PRAY_AT_HEAD: pray at a head.
#[derive(Debug, Clone, Copy, PartialEq, Eq)]
pub struct AiPrayCommand {
    pub head_num: i32,
}

/// DELETE_SMOKE_STUFF: clean up at a position.
#[derive(Debug, Clone, Copy, PartialEq, Eq)]
pub struct AiCleanupCommand {
    pub x: i32,
    pub y: i32,
}

/// CONVERT_AT_MARKER: convert wild people at a marker.
#[derive(Debug, Clone, Copy, PartialEq, Eq)]
pub struct AiConvertCommand {
    pub marker: i32,
}

/// SEND_SHAMAN_DEFENDERS_HOME: move the shaman to a marker.
#[derive(Debug, Clone, Copy, PartialEq, Eq)]
pub struct AiShamanMoveCommand {
    pub marker: i32,
}

/// SET_MARKER_ENTRY: a marker's position.
#[derive(Debug, Clone, Copy, PartialEq, Eq)]
pub struct MarkerEntry {
    pub marker: i32,
    pub x: i32,
    pub y: i32,
}

/// What the AI scripts read from and write to the game. The game fills the
/// readable part before each AI tick and drains the commands after it.
pub struct AiGameBridge {
    pub game_tick: u32,
    pub current_tribe: u8,
    pub player_tribe: u8,
    pub tribe_populations: [u32; 4],
    pub tribe_mana: [u32; 4],
    pub tribe_active: [bool; 4],
    pub tribe_num_buildings: [u32; 4],
    pub defence_radius: [u32; 4],
    pub base_radius: [u32; 4],
    pub attack_variable: [u32; 4],
    pub reincarnation: [bool; 4],
    pub bucket_usage: [bool; 4],
    pub bucket_count_for_spell: [[u32; 21]; 4],
    pub max_building_type: [[u32; 16]; 4],
    pub building_type_enabled: [[bool; 16]; 4],
    pub spell_entry: [[bool; 21]; 4],
    pub marker_entries: Vec<MarkerEntry>,
    pub pending_attacks: Vec<AiAttackCommand>,
    pub pending_builds: Vec<AiBuildCommand>,
    pub pending_spells: Vec<AiSpellCommand>,
    pub pending_trains: Vec<AiTrainCommand>,
    pub pending_moves: Vec<AiMoveCommand>,
    pub pending_pray: Vec<AiPrayCommand>,
    pub pending_cleanup: Vec<AiCleanupCommand>,
    pub pending_convert: Vec<AiConvertCommand>,
    pub pending_shaman_move: Vec<AiShamanMoveCommand>,
}

/// No command is queued.
pub open spec fn no_pending(b: AiGameBridge) -> bool {
    &&& b.pending_attacks@.len() == 0
    &&& b.pending_builds@.len() == 0
    &&& b.pending_spells@.len() == 0
    &&& b.pending_trains@.len() == 0
    &&& b.pending_moves@.len() == 0
    &&& b.pending_pray@.len() == 0
    &&& b.pending_cleanup@.len() == 0
    &&& b.pending_convert@.len() == 0
    &&& b.pending_shaman_move@.len() == 0
}

/// Every counter, radius, flag and table of the bridge is zero or off, and
/// no marker or command is recorded.
pub open spec fn is_fresh(b: AiGameBridge) -> bool {
    &&& b.game_tick == 0
    &&& b.current_tribe == 0
    &&& b.player_tribe == 0
    &&& forall|t: int|
        0 <= t < 4 ==> {
            &&& b.tribe_populations[t] == 0
            &&& b.tribe_mana[t] == 0
            &&& !b.tribe_active[t]
            &&& b.tribe_num_buildings[t] == 0
            &&& b.defence_radius[t] == 0
            &&& b.base_radius[t] == 0
            &&& b.attack_variable[t] == 0
            &&& !b.reincarnation[t]
            &&& !b.bucket_usage[t]
            &&& (forall|s: int| 0 <= s < 21 ==> b.bucket_count_for_spell[t][s] == 0 && !b.spell_entry[t][s])
            &&& (forall|k: int|
                0 <= k < 16 ==> b.max_building_type[t][k] == 0 && !b.building_type_enabled[t][k])
        }
    &&& b.marker_entries@.len() == 0
    &&& no_pending(b)
}

/// `new` is `old` with element `i` set to `x`, the other elements kept.
pub open spec fn updated<T, const N: usize>(old: [T; N], new: [T; N], i: int, x: T) -> bool {
    forall|j: int| 0 <= j < N ==> new[j] == if j == i { x } else { old[j] }
}

/// `new` is `old` with entry `(i, j)` set to `x` where `j` is in range, and unchanged otherwise.
pub open spec fn updated_in_row<T, const N: usize>(old: [[T; N]; 4], new: [[T; N]; 4], i: int, j: int, x: T) -> bool {
    forall|a: int, b: int|
        0 <= a < 4 && 0 <= b < N ==> new[a][b] == if a == i && b == j && 0 <= j < N {
            x
        } else {
            old[a][b]
        }
}

/// The configuration the scripts wrote, and the markers, agree in `a` and `b`.
pub open spec fn same_config(a: AiGameBridge, b: AiGameBridge) -> bool {
    &&& a.defence_radius == b.defence_radius
    &&& a.base_radius == b.base_radius
    &&& a.attack_variable == b.attack_variable
    &&& a.reincarnation == b.reincarnation
    &&& a.bucket_usage == b.bucket_usage
    &&& a.bucket_count_for_spell == b.bucket_count_for_spell
    &&& a.max_building_type == b.max_building_type
    &&& a.building_type_enabled == b.building_type_enabled
    &&& a.spell_entry == b.spell_entry
    &&& a.marker_entries@ == b.marker_entries@
}

impl AiGameBridge {
    /// A bridge with everything zero, off and empty.
    pub fn new() -> (b: Self)
        ensures
            is_fresh(b),
    {
        AiGameBridge {
            game_tick: 0,
            current_tribe: 0,
            player_tribe: 0,
            tribe_populations: [0u32; 4],
            tribe_mana: [0u32; 4],
            tribe_active: [false; 4],
            tribe_num_buildings: [0u32; 4],
            defence_radius: [0u32; 4],
            base_radius: [0u32; 4],
            attack_variable: [0u32; 4],
            reincarnation: [false; 4],
            bucket_usage: [false; 4],
            bucket_count_for_spell: [[0u32; 21]; 4],
            max_building_type: [[0u32; 16]; 4],
            building_type_enabled: [[false; 16]; 4],
            spell_entry: [[false; 21]; 4],
            marker_entries: Vec::new(),
            pending_attacks: Vec::new(),
            pending_builds: Vec::new(),
            pending_spells: Vec::new(),
            pending_trains: Vec::new(),
            pending_moves: Vec::new(),
            pending_pray: Vec::new(),
            pending_cleanup: Vec::new(),
            pending_convert: Vec::new(),
            pending_shaman_move: Vec::new(),
        }
    }
    /// GAME_TURN: the current game tick.
    pub fn game_turn(&self) -> (r: i32)
        ensures
            r == self.game_tick as i32,
    {
        self.game_tick as i32
    }

    /// MY_NUM_PEOPLE: the population of the tribe whose script runs.
    pub fn my_num_people(&self) -> (r: i32)
        requires
            self.current_tribe < 4,
        ensures
            r == self.tribe_populations[self.current_tribe as int] as i32,
    {
        self.tribe_populations[self.current_tribe as usize] as i32
    }

    /// BLUE_PEOPLE, RED_PEOPLE, YELLOW_PEOPLE, GREEN_PEOPLE: the population of tribe `tribe`.
    pub fn tribe_people(&self, tribe: usize) -> (r: i32)
        requires
            tribe < 4,
        ensures
            r == self.tribe_populations[tribe as int] as i32,
    {
        self.tribe_populations[tribe] as i32
    }

    /// MY_MANA: the mana of the tribe whose script runs.
    pub fn my_mana(&self) -> (r: i32)
        requires
            self.current_tribe < 4,
        ensures
            r == self.tribe_mana[self.current_tribe as int] as i32,
    {
        self.tribe_mana[self.current_tribe as usize] as i32
    }

    /// ATTACK(target, num, type): queue an attack without a marker.
    pub fn attack(&mut self, target: i32, num: i32, atype: i32)
        ensures
            final(self).pending_attacks@ == old(self).pending_attacks@.push(
                AiAttackCommand {
                    target_tribe: target as u8,
                    num_people: num as u32,
                    attack_type: atype as u32,
                    marker: None,
                },
            ),
            *final(self) == (AiGameBridge { pending_attacks: final(self).pending_attacks, ..*old(self) }),
    {
        self.pending_attacks.push(
            AiAttackCommand {
                target_tribe: target as u8,
                num_people: num as u32,
                attack_type: atype as u32,
                marker: None,
            },
        );
    }
    /// ATTACK_MARKER(target, marker, num, type): queue an attack via a marker.
    pub fn attack_marker(&mut self, target: i32, marker: i32, num: i32, atype: i32)
        ensures
            final(self).pending_attacks@ == old(self).pending_attacks@.push(AiAttackCommand { target_tribe: target as u8, num_people: num as u32, attack_type: atype as u32, marker: Some((marker, 0i32)) }),
            *final(self) == (AiGameBridge { pending_attacks: final(self).pending_attacks, ..*old(self) }),
    {
        self.pending_attacks.push(AiAttackCommand { target_tribe: target as u8, num_people: num as u32, attack_type: atype as u32, marker: Some((marker, 0i32)) });
    }

    /// BUILD_AT(type, x, y): queue a building.
    pub fn build_at(&mut self, btype: i32, x: i32, y: i32)
        ensures
            final(self).pending_builds@ == old(self).pending_builds@.push(AiBuildCommand { building_type: btype as u8, marker_x: x, marker_y: y }),
            *final(self) == (AiGameBridge { pending_builds: final(self).pending_builds, ..*old(self) }),
    {
        self.pending_builds.push(AiBuildCommand { building_type: btype as u8, marker_x: x, marker_y: y });
    }

    /// TRAIN_PEOPLE_NOW(type, count): queue training.
    pub fn train_people_now(&mut self, utype: i32, count: i32)
        ensures
            final(self).pending_trains@ == old(self).pending_trains@.push(AiTrainCommand { unit_type: utype as u8, count: count as u32 }),
            *final(self) == (AiGameBridge { pending_trains: final(self).pending_trains, ..*old(self) }),
    {
        self.pending_trains.push(AiTrainCommand { unit_type: utype as u8, count: count as u32 });
    }

    /// SPELL_AT_MARKER(spell, marker): queue a spell aimed at a marker.
    pub fn spell_at_marker(&mut self, spell: i32, marker: i32)
        ensures
            final(self).pending_spells@ == old(self).pending_spells@.push(AiSpellCommand { spell_type: spell as u8, target_x: marker, target_y: 0i32 }),
            *final(self) == (AiGameBridge { pending_spells: final(self).pending_spells, ..*old(self) }),
    {
        self.pending_spells.push(AiSpellCommand { spell_type: spell as u8, target_x: marker, target_y: 0i32 });
    }

    /// CONVERT_AT_MARKER(marker): queue a conversion.
    pub fn convert_at_marker(&mut self, marker: i32)
        ensures
            final(self).pending_convert@ == old(self).pending_convert@.push(AiConvertCommand { marker }),
            *final(self) == (AiGameBridge { pending_convert: final(self).pending_convert, ..*old(self) }),
    {
        self.pending_convert.push(AiConvertCommand { marker });
    }

    /// SEND_PEOPLE_TO_MARKER(marker, num): queue a move.
    pub fn send_people_to_marker(&mut self, marker: i32, num: i32)
        ensures
            final(self).pending_moves@ == old(self).pending_moves@.push(AiMoveCommand { marker, num_people: num as u32 }),
            *final(self) == (AiGameBridge { pending_moves: final(self).pending_moves, ..*old(self) }),
    {
        self.pending_moves.push(AiMoveCommand { marker, num_people: num as u32 });
    }

    /// SEND_SHAMAN_DEFENDERS_HOME: queue a shaman move to marker 0.
    pub fn send_shaman_defenders_home(&mut self)
        ensures
            final(self).pending_shaman_move@ == old(self).pending_shaman_move@.push(AiShamanMoveCommand { marker: 0 }),
            *final(self) == (AiGameBridge { pending_shaman_move: final(self).pending_shaman_move, ..*old(self) }),
    {
        self.pending_shaman_move.push(AiShamanMoveCommand { marker: 0 });
    }

    /// PRAY_AT_HEAD(head): queue prayer at a head.
    pub fn pray_at_head(&mut self, head_num: i32)
        ensures
            final(self).pending_pray@ == old(self).pending_pray@.push(AiPrayCommand { head_num }),
            *final(self) == (AiGameBridge { pending_pray: final(self).pending_pray, ..*old(self) }),
    {
        self.pending_pray.push(AiPrayCommand { head_num });
    }

    /// SET_MARKER_ENTRY(marker, x, y): record a marker's position.
    pub fn set_marker_entry(&mut self, marker: i32, x: i32, y: i32)
        ensures
            final(self).marker_entries@ == old(self).marker_entries@.push(MarkerEntry { marker, x, y }),
            *final(self) == (AiGameBridge { marker_entries: final(self).marker_entries, ..*old(self) }),
    {
        self.marker_entries.push(MarkerEntry { marker, x, y });
    }

    /// DELETE_SMOKE_STUFF(x, y): queue a cleanup.
    pub fn delete_smoke_stuff(&mut self, x: i32, y: i32)
        ensures
            final(self).pending_cleanup@ == old(self).pending_cleanup@.push(AiCleanupCommand { x, y }),
            *final(self) == (AiGameBridge { pending_cleanup: final(self).pending_cleanup, ..*old(self) }),
    {
        self.pending_cleanup.push(AiCleanupCommand { x, y });
    }

    /// SET_DEFENSE_RADIUS(r): the current tribe's defence radius.
    pub fn set_defense_radius(&mut self, r: i32)
        requires
            old(self).current_tribe < 4,
        ensures
            updated(old(self).defence_radius, final(self).defence_radius, old(self).current_tribe as int, r as u32),
            *final(self) == (AiGameBridge { defence_radius: final(self).defence_radius, ..*old(self) }),
    {
        let t = self.current_tribe as usize;
        self.defence_radius.set(t, r as u32);
    }

    /// SET_BASE_RADIUS(r): the current tribe's base radius.
    pub fn set_base_radius(&mut self, r: i32)
        requires
            old(self).current_tribe < 4,
        ensures
            updated(old(self).base_radius, final(self).base_radius, old(self).current_tribe as int, r as u32),
            *final(self) == (AiGameBridge { base_radius: final(self).base_radius, ..*old(self) }),
    {
        let t = self.current_tribe as usize;
        self.base_radius.set(t, r as u32);
    }

    /// SET_ATTACK_VARIABLE(v): the current tribe's attack variable.
    pub fn set_attack_variable(&mut self, v: i32)
        requires
            old(self).current_tribe < 4,
        ensures
            updated(old(self).attack_variable, final(self).attack_variable, old(self).current_tribe as int, v as u32),
            *final(self) == (AiGameBridge { attack_variable: final(self).attack_variable, ..*old(self) }),
    {
        let t = self.current_tribe as usize;
        self.attack_variable.set(t, v as u32);
    }

    /// SET_REINCARNATION(on): whether the current tribe's shaman reincarnates.
    pub fn set_reincarnation(&mut self, on: i32)
        requires
            old(self).current_tribe < 4,
        ensures
            updated(old(self).reincarnation, final(self).reincarnation, old(self).current_tribe as int, on != 0),
            *final(self) == (AiGameBridge { reincarnation: final(self).reincarnation, ..*old(self) }),
    {
        let t = self.current_tribe as usize;
        self.reincarnation.set(t, on != 0);
    }

    /// SET_BUCKET_USAGE(on): whether the current tribe uses spell buckets.
    pub fn set_bucket_usage(&mut self, on: i32)
        requires
            old(self).current_tribe < 4,
        ensures
            updated(old(self).bucket_usage, final(self).bucket_usage, old(self).current_tribe as int, on != 0),
            *final(self) == (AiGameBridge { bucket_usage: final(self).bucket_usage, ..*old(self) }),
    {
        let t = self.current_tribe as usize;
        self.bucket_usage.set(t, on != 0);
    }

    /// SET_SPELL_ENTRY(spell, enabled): enable or disable a spell of the current
    /// tribe; a spell number outside 0..21 changes nothing.
    pub fn set_spell_entry(&mut self, spell: i32, enabled: i32)
        requires
            old(self).current_tribe < 4,
        ensures
            updated_in_row(
                old(self).spell_entry,
                final(self).spell_entry,
                old(self).current_tribe as int,
                spell as int,
                enabled != 0,
            ),
            *final(self) == (AiGameBridge { spell_entry: final(self).spell_entry, ..*old(self) }),
    {
        let t = self.current_tribe as usize;
        if 0 <= spell && spell < 21 {
            let mut row = self.spell_entry[t];
            row.set(spell as usize, enabled != 0);
            self.spell_entry.set(t, row);
        }
    }

    /// MAX_BUILDING_TYPE(type, count): the current tribe's limit for a building
    /// type; a type outside 0..16 changes nothing.
    pub fn max_building_type(&mut self, btype: i32, count: i32)
        requires
            old(self).current_tribe < 4,
        ensures
            updated_in_row(
                old(self).max_building_type,
                final(self).max_building_type,
                old(self).current_tribe as int,
                btype as int,
                count as u32,
            ),
            *final(self) == (AiGameBridge { max_building_type: final(self).max_building_type, ..*old(self) }),
    {
        let t = self.current_tribe as usize;
        if 0 <= btype && btype < 16 {
            let mut row = self.max_building_type[t];
            row.set(btype as usize, count as u32);
            self.max_building_type.set(t, row);
        }
    }

    /// Fill the readable state for a new AI tick and drop the commands of the
    /// previous one; configuration and markers are kept.
    pub fn update_bridge(
        &mut self,
        game_tick: u32,
        player_tribe: u8,
        tribe_populations: [u32; 4],
        tribe_mana: [u32; 4],
        tribe_active: [bool; 4],
        tribe_num_buildings: [u32; 4],
    )
        ensures
            final(self).game_tick == game_tick,
            final(self).player_tribe == player_tribe,
            final(self).tribe_populations == tribe_populations,
            final(self).tribe_mana == tribe_mana,
            final(self).tribe_active == tribe_active,
            final(self).tribe_num_buildings == tribe_num_buildings,
            final(self).current_tribe == old(self).current_tribe,
            no_pending(*final(self)),
            same_config(*old(self), *final(self)),
    {
        self.game_tick = game_tick;
        self.player_tribe = player_tribe;
        self.tribe_populations = tribe_populations;
        self.tribe_mana = tribe_mana;
        self.tribe_active = tribe_active;
        self.tribe_num_buildings = tribe_num_buildings;
        self.pending_attacks.clear();
        self.pending_builds.clear();
        self.pending_spells.clear();
        self.pending_trains.clear();
        self.pending_moves.clear();
        self.pending_pray.clear();
        self.pending_cleanup.clear();
        self.pending_convert.clear();
        self.pending_shaman_move.clear();
    }
}


/// Per-tribe script state: its variables, the tick counters of its EVERY
/// blocks, and whether its script runs.
pub struct TribeScriptState {
    pub variables: Vec<i32>,
    pub every_counters: HashMap<String, u32>,
    pub active: bool,
}

impl TribeScriptState {
    /// Sixty-four zero variables, no counters, inactive.
    pub fn new() -> (s: Self)
        ensures
            s.variables@ == Seq::new(SCRIPT_VARIABLES as nat, |i: int| 0i32),
            s.every_counters@ == Map::<String, u32>::empty(),
            !s.active,
    {
        let mut variables: Vec<i32> = Vec::new();
        let mut i: usize = 0;
        while i < SCRIPT_VARIABLES
            invariant
                0 <= i <= SCRIPT_VARIABLES,
                variables@ == Seq::new(i as nat, |k: int| 0i32),
            decreases SCRIPT_VARIABLES - i,
        {
            variables.push(0);
            i = i + 1;
            assert(variables@ =~= Seq::new(i as nat, |k: int| 0i32));
        }
        TribeScriptState { variables, every_counters: HashMap::new(), active: false }
    }
}

/// Whether tribe slot `tribe_idx` is the human player's.
pub fn is_player(tribe_idx: usize, player_tribe: u8) -> (r: bool)
    ensures
        r == (tribe_idx == player_tribe as usize),
{
    tribe_idx == player_tribe as usize
}

/// Tribe `t` runs its script this tick: it is not the player's, it is active,
/// and its script loaded.
pub open spec fn runs_script(t: int, player_tribe: u8, active: [bool; 4], loaded: [bool; 4]) -> bool {
    t != player_tribe as int && active[t] && loaded[t]
}

/// The tribes among `0..n` that run their script, in increasing order.
pub open spec fn script_tribes(n: int, player_tribe: u8, active: [bool; 4], loaded: [bool; 4]) -> Seq<u8>
    decreases n,
{
    if n <= 0 {
        Seq::empty()
    } else {
        let rest = script_tribes(n - 1, player_tribe, active, loaded);
        if runs_script(n - 1, player_tribe, active, loaded) {
            rest.push((n - 1) as u8)
        } else {
            rest
        }
    }
}

/// The tribes whose script an AI tick runs, in slot order: each of the four
/// slots that is not the player's, is active, and has a loaded script.
pub fn tribes_to_tick(player_tribe: u8, active: [bool; 4], loaded: [bool; 4]) -> (r: Vec<u8>)
    ensures
        r@ == script_tribes(4, player_tribe, active, loaded),
{
    let mut r: Vec<u8> = Vec::new();
    let mut t: u8 = 0;
    while t < 4
        invariant
            0 <= t <= 4,
            r@ == script_tribes(t as int, player_tribe, active, loaded),
        decreases 4 - t,
    {
        if t != player_tribe && active[t as usize] && loaded[t as usize] {
            r.push(t);
        }
        t = t + 1;
    }
    r
}

/// Name of the Lua function holding tribe `tribe`'s script.
pub open spec fn tick_function_name(tribe: u8) -> Seq<char> {
    "_tribe_"@ + decimal(tribe as int) + "_tick"@
}

/// `_tribe_N_tick`, the Lua function that runs tribe `N`'s script.
pub fn tribe_tick_function(tribe: u8) -> (r: String)
    ensures
        r@ == tick_function_name(tribe),
{
    let mut r = String::from_str("_tribe_");
    push_decimal_u64(&mut r, tribe as u64);
    r.append("_tick");
    r
}

/// A tribe's script source wrapped as the body of its tick function.
pub fn wrap_tribe_script(tribe: u8, source: &str) -> (r: String)
    ensures
        r@ == "function "@ + tick_function_name(tribe) + "()\n"@ + source@ + "\nend"@,
{
    let name = tribe_tick_function(tribe);
    let mut r = String::from_str("function ");
    r.append(name.as_str());
    r.append("()\n");
    r.append(source);
    r.append("\nend");
    r
}

/// The world position of marker `marker_id`: that of the first entry with that
/// marker, coordinates narrowed to 16 bits; `None` when no entry has it.
pub fn resolve_marker(marker_entries: &[MarkerEntry], marker_id: i32) -> (r: Option<WorldCoord>)
    ensures
        match r {
            None => forall|i: int| 0 <= i < marker_entries@.len() ==> marker_entries@[i].marker != marker_id,
            Some(w) => exists|i: int|
                0 <= i < marker_entries@.len() && marker_entries@[i].marker == marker_id && (forall|j: int|
                    0 <= j < i ==> marker_entries@[j].marker != marker_id) && w == (WorldCoord {
                    x: marker_entries@[i].x as i16,
                    z: marker_entries@[i].y as i16,
                }),
        },
{
    let mut i: usize = 0;
    while i < marker_entries.len()
        invariant
            0 <= i <= marker_entries@.len(),
            forall|j: int| 0 <= j < i ==> marker_entries@[j].marker != marker_id,
        decreases marker_entries@.len() - i,
    {
        let m = marker_entries[i];
        if m.marker == marker_id {
            return Some(WorldCoord { x: m.x as i16, z: m.y as i16 });
        }
        i = i + 1;
    }
    None
}


/// The tribes an AI tick runs are exactly the slots below `n` that are not the
/// player's, are active and have a loaded script, each once, in increasing
/// order; in particular the player's tribe never runs a script.
pub proof fn lemma_script_tribes(n: int, player_tribe: u8, active: [bool; 4], loaded: [bool; 4])
    requires
        0 <= n <= 4,
    ensures
        forall|i: int|
            0 <= i < script_tribes(n, player_tribe, active, loaded).len() ==> {
                let t = #[trigger] script_tribes(n, player_tribe, active, loaded)[i];
                &&& t < n
                &&& t != player_tribe
                &&& runs_script(t as int, player_tribe, active, loaded)
            },
        forall|i: int, j: int|
            0 <= i < j < script_tribes(n, player_tribe, active, loaded).len() ==> script_tribes(
                n,
                player_tribe,
                active,
                loaded,
            )[i] < script_tribes(n, player_tribe, active, loaded)[j],
        forall|t: int|
            0 <= t < n && runs_script(t, player_tribe, active, loaded) ==> script_tribes(
                n,
                player_tribe,
                active,
                loaded,
            ).contains(t as u8),
    decreases n,
{
    if n > 0 {
        lemma_script_tribes(n - 1, player_tribe, active, loaded);
        let rest = script_tribes(n - 1, player_tribe, active, loaded);
        if runs_script(n - 1, player_tribe, active, loaded) {
            let r = rest.push((n - 1) as u8);
            assert(r[r.len() - 1] == (n - 1) as u8);
            assert forall|t: int| 0 <= t < n && runs_script(t, player_tribe, active, loaded) implies r.contains(
                t as u8,
            ) by {
                if t < n - 1 {
                    let k = choose|k: int| 0 <= k < rest.len() && rest[k] == t as u8;
                    assert(r[k] == t as u8);
                } else {
                    assert(r[r.len() - 1] == t as u8);
                }
            }
        }
    }
}

} // verus!
