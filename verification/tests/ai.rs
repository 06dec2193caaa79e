use faithful::ai::{
    is_player, resolve_marker, tribe_tick_function, tribes_to_tick, wrap_tribe_script, AiAttackCommand,
    AiGameBridge, MarkerEntry, TribeScriptState,
};
use faithful::movement::WorldCoord;

#[test]
fn bridge_starts_empty() {
    let b = AiGameBridge::new();
    assert_eq!(b.game_tick, 0);
    assert_eq!(b.current_tribe, 0);
    assert_eq!(b.tribe_populations, [0; 4]);
    assert!(!b.spell_entry.iter().flatten().any(|&x| x));
    assert!(b.marker_entries.is_empty());
    assert!(b.pending_attacks.is_empty());
    assert!(b.pending_shaman_move.is_empty());
}

#[test]
fn game_turn_returns_tick() {
    let mut b = AiGameBridge::new();
    b.game_tick = 42;
    assert_eq!(b.game_turn(), 42);
}

#[test]
fn my_num_people_returns_population() {
    let mut b = AiGameBridge::new();
    b.current_tribe = 1;
    b.tribe_populations[1] = 25;
    assert_eq!(b.my_num_people(), 25);
}

#[test]
fn my_mana_returns_mana() {
    let mut b = AiGameBridge::new();
    b.current_tribe = 2;
    b.tribe_mana[2] = 50000;
    assert_eq!(b.my_mana(), 50000);
}

#[test]
fn color_people_functions() {
    let mut b = AiGameBridge::new();
    b.tribe_populations = [10, 20, 30, 40];
    assert_eq!(b.tribe_people(0), 10);
    assert_eq!(b.tribe_people(1), 20);
    assert_eq!(b.tribe_people(2), 30);
    assert_eq!(b.tribe_people(3), 40);
}

#[test]
fn attack_pushes_command() {
    let mut b = AiGameBridge::new();
    b.attack(1, 10, 0);
    assert_eq!(b.pending_attacks.len(), 1);
    assert_eq!(b.pending_attacks[0].target_tribe, 1);
    assert_eq!(b.pending_attacks[0].num_people, 10);
    assert_eq!(b.pending_attacks[0].attack_type, 0);
    assert!(b.pending_attacks[0].marker.is_none());
}

#[test]
fn attack_marker_records_marker() {
    let mut b = AiGameBridge::new();
    b.attack_marker(2, 7, 5, 1);
    assert_eq!(b.pending_attacks[0].marker, Some((7, 0)));
    assert_eq!(b.pending_attacks[0].attack_type, 1);
    assert_eq!(b.pending_attacks[0].num_people, 5);
}

#[test]
fn build_at_pushes_command() {
    let mut b = AiGameBridge::new();
    b.build_at(1, 100, 200);
    assert_eq!(b.pending_builds.len(), 1);
    assert_eq!(b.pending_builds[0].building_type, 1);
    assert_eq!(b.pending_builds[0].marker_x, 100);
    assert_eq!(b.pending_builds[0].marker_y, 200);
}

#[test]
fn train_people_now_pushes_command() {
    let mut b = AiGameBridge::new();
    b.train_people_now(3, 5);
    assert_eq!(b.pending_trains.len(), 1);
    assert_eq!(b.pending_trains[0].unit_type, 3);
    assert_eq!(b.pending_trains[0].count, 5);
}

#[test]
fn spell_at_marker_pushes_command() {
    let mut b = AiGameBridge::new();
    b.spell_at_marker(2, 5);
    assert_eq!(b.pending_spells.len(), 1);
    assert_eq!(b.pending_spells[0].spell_type, 2);
    assert_eq!(b.pending_spells[0].target_x, 5);
    assert_eq!(b.pending_spells[0].target_y, 0);
}

#[test]
fn set_defence_radius_stores_value() {
    let mut b = AiGameBridge::new();
    b.current_tribe = 2;
    b.set_defense_radius(512);
    assert_eq!(b.defence_radius[2], 512);
}

#[test]
fn set_base_radius_stores_value() {
    let mut b = AiGameBridge::new();
    b.current_tribe = 1;
    b.set_base_radius(256);
    assert_eq!(b.base_radius[1], 256);
}

#[test]
fn set_attack_variable_stores_value() {
    let mut b = AiGameBridge::new();
    b.current_tribe = 0;
    b.set_attack_variable(42);
    assert_eq!(b.attack_variable[0], 42);
}

#[test]
fn send_people_to_marker_pushes_command() {
    let mut b = AiGameBridge::new();
    b.send_people_to_marker(3, 8);
    assert_eq!(b.pending_moves.len(), 1);
    assert_eq!(b.pending_moves[0].marker, 3);
    assert_eq!(b.pending_moves[0].num_people, 8);
}

#[test]
fn pray_at_head_pushes_command() {
    let mut b = AiGameBridge::new();
    b.pray_at_head(2);
    assert_eq!(b.pending_pray.len(), 1);
    assert_eq!(b.pending_pray[0].head_num, 2);
}

#[test]
fn set_spell_entry_stores_config() {
    let mut b = AiGameBridge::new();
    b.current_tribe = 1;
    b.set_spell_entry(3, 1);
    assert!(b.spell_entry[1][3]);
}

#[test]
fn set_reincarnation_stores_flag() {
    let mut b = AiGameBridge::new();
    b.current_tribe = 0;
    b.set_reincarnation(1);
    assert!(b.reincarnation[0]);
}

#[test]
fn set_bucket_usage_stores_flag() {
    let mut b = AiGameBridge::new();
    b.current_tribe = 3;
    b.set_bucket_usage(1);
    assert!(b.bucket_usage[3]);
}

#[test]
fn delete_smoke_stuff_pushes_cleanup() {
    let mut b = AiGameBridge::new();
    b.delete_smoke_stuff(10, 20);
    assert_eq!(b.pending_cleanup.len(), 1);
    assert_eq!(b.pending_cleanup[0].x, 10);
    assert_eq!(b.pending_cleanup[0].y, 20);
}

#[test]
fn set_marker_entry_stores_marker() {
    let mut b = AiGameBridge::new();
    b.set_marker_entry(3, 100, 200);
    assert_eq!(b.marker_entries.len(), 1);
    assert_eq!(b.marker_entries[0].marker, 3);
    assert_eq!(b.marker_entries[0].x, 100);
    assert_eq!(b.marker_entries[0].y, 200);
}

#[test]
fn convert_at_marker_pushes_command() {
    let mut b = AiGameBridge::new();
    b.convert_at_marker(5);
    assert_eq!(b.pending_convert.len(), 1);
    assert_eq!(b.pending_convert[0].marker, 5);
}

#[test]
fn max_building_type_stores_config() {
    let mut b = AiGameBridge::new();
    b.current_tribe = 2;
    b.max_building_type(1, 4);
    assert_eq!(b.max_building_type[2][1], 4);
}

#[test]
fn max_building_type_multiple_types() {
    let mut b = AiGameBridge::new();
    b.current_tribe = 0;
    b.max_building_type(0, 2);
    b.max_building_type(1, 3);
    b.max_building_type(2, 5);
    assert_eq!(b.max_building_type[0][0], 2);
    assert_eq!(b.max_building_type[0][1], 3);
    assert_eq!(b.max_building_type[0][2], 5);
}

#[test]
fn attack_with_negative_count() {
    let mut b = AiGameBridge::new();
    b.attack(1, -5, 0);
    assert_eq!(b.pending_attacks.len(), 1);
}

#[test]
fn negative_count_wraps_to_unsigned() {
    let mut b = AiGameBridge::new();
    b.attack(1, -5, 0);
    assert_eq!(b.pending_attacks[0].num_people, (-5i32) as u32);
}

#[test]
fn build_at_with_large_coordinates() {
    let mut b = AiGameBridge::new();
    b.build_at(1, 99999, -99999);
    assert_eq!(b.pending_builds.len(), 1);
    assert_eq!(b.pending_builds[0].marker_x, 99999);
    assert_eq!(b.pending_builds[0].marker_y, -99999);
}

#[test]
fn set_marker_entry_multiple_entries() {
    let mut b = AiGameBridge::new();
    b.set_marker_entry(0, 0, 0);
    b.set_marker_entry(1, 10, 10);
    b.set_marker_entry(2, 20, 20);
    assert_eq!(b.marker_entries.len(), 3);
    assert_eq!(b.marker_entries[0].marker, 0);
    assert_eq!(b.marker_entries[1].marker, 1);
    assert_eq!(b.marker_entries[2].marker, 2);
}

#[test]
fn set_spell_entry_bounds_check() {
    let mut b = AiGameBridge::new();
    b.current_tribe = 0;
    b.set_spell_entry(25, 1);
    assert!(!b.spell_entry[0].iter().any(|&x| x));
}

#[test]
fn set_spell_entry_negative_and_clear() {
    let mut b = AiGameBridge::new();
    b.current_tribe = 1;
    b.set_spell_entry(3, 1);
    b.set_spell_entry(-1, 1);
    assert_eq!(b.spell_entry[1].iter().filter(|&&x| x).count(), 1);
    b.set_spell_entry(3, 0);
    assert!(!b.spell_entry[1][3]);
}

#[test]
fn max_building_type_bounds_check() {
    let mut b = AiGameBridge::new();
    b.current_tribe = 0;
    b.max_building_type(20, 5);
    assert_eq!(b.max_building_type[0].iter().sum::<u32>(), 0);
}

#[test]
fn tribe_population_all_zeros() {
    let mut b = AiGameBridge::new();
    b.tribe_populations = [0, 0, 0, 0];
    b.current_tribe = 0;
    assert_eq!(b.my_num_people(), 0);
}

#[test]
fn tribe_mana_zero() {
    let mut b = AiGameBridge::new();
    b.tribe_mana = [0, 0, 0, 0];
    b.current_tribe = 1;
    assert_eq!(b.my_mana(), 0);
}

#[test]
fn game_tick_zero() {
    let mut b = AiGameBridge::new();
    b.game_tick = 0;
    assert_eq!(b.game_turn(), 0);
}

#[test]
fn game_tick_large_value() {
    let mut b = AiGameBridge::new();
    b.game_tick = 999999;
    assert_eq!(b.game_turn(), 999999);
}

#[test]
fn send_people_to_marker_negative_marker() {
    let mut b = AiGameBridge::new();
    b.send_people_to_marker(-1, 10);
    assert_eq!(b.pending_moves.len(), 1);
    assert_eq!(b.pending_moves[0].marker, -1);
}

#[test]
fn pray_at_head_negative_head() {
    let mut b = AiGameBridge::new();
    b.pray_at_head(-5);
    assert_eq!(b.pending_pray.len(), 1);
    assert_eq!(b.pending_pray[0].head_num, -5);
}

#[test]
fn delete_smoke_stuff_large_coordinates() {
    let mut b = AiGameBridge::new();
    b.delete_smoke_stuff(999999, -999999);
    assert_eq!(b.pending_cleanup.len(), 1);
    assert_eq!(b.pending_cleanup[0].x, 999999);
    assert_eq!(b.pending_cleanup[0].y, -999999);
}

#[test]
fn set_reincarnation_off() {
    let mut b = AiGameBridge::new();
    b.current_tribe = 0;
    b.set_reincarnation(0);
    assert!(!b.reincarnation[0]);
}

#[test]
fn set_bucket_usage_off() {
    let mut b = AiGameBridge::new();
    b.current_tribe = 0;
    b.set_bucket_usage(0);
    assert!(!b.bucket_usage[0]);
}

#[test]
fn spell_at_marker_negative_spell() {
    let mut b = AiGameBridge::new();
    b.spell_at_marker(-1, 5);
    assert_eq!(b.pending_spells.len(), 1);
    assert_eq!(b.pending_spells[0].spell_type, 255);
}

#[test]
fn train_people_now_zero_count() {
    let mut b = AiGameBridge::new();
    b.train_people_now(1, 0);
    assert_eq!(b.pending_trains.len(), 1);
    assert_eq!(b.pending_trains[0].count, 0);
}

#[test]
fn convert_at_marker_negative_marker() {
    let mut b = AiGameBridge::new();
    b.convert_at_marker(-3);
    assert_eq!(b.pending_convert.len(), 1);
    assert_eq!(b.pending_convert[0].marker, -3);
}

#[test]
fn shaman_defenders_go_to_marker_zero() {
    let mut b = AiGameBridge::new();
    b.send_shaman_defenders_home();
    assert_eq!(b.pending_shaman_move.len(), 1);
    assert_eq!(b.pending_shaman_move[0].marker, 0);
}

#[test]
fn integration_tribe_state_isolation() {
    let mut b = AiGameBridge::new();
    b.current_tribe = 0;
    b.tribe_populations[0] = 100;
    b.tribe_populations[1] = 50;
    b.game_tick = 64;
    b.current_tribe = 0;
    let v = if b.my_num_people() > 75 { 100 } else { 50 };
    b.set_attack_variable(v);
    assert_eq!(b.attack_variable[0], 100);
    b.current_tribe = 1;
    b.game_tick = 128;
    let v = if b.my_num_people() > 75 { 100 } else { 50 };
    b.set_attack_variable(v);
    assert_eq!(b.attack_variable[1], 50);
    assert_eq!(b.attack_variable[0], 100);
}

#[test]
fn update_bridge_populates_state() {
    let mut b = AiGameBridge::new();
    b.update_bridge(42, 0, [10, 20, 30, 40], [100, 200, 300, 400], [true, true, false, false], [5, 3, 0, 0]);
    assert_eq!(b.game_tick, 42);
    assert_eq!(b.player_tribe, 0);
    assert_eq!(b.tribe_populations, [10, 20, 30, 40]);
    assert_eq!(b.tribe_mana, [100, 200, 300, 400]);
}

#[test]
fn update_bridge_clears_pending_commands() {
    let mut b = AiGameBridge::new();
    b.pending_attacks.push(AiAttackCommand { target_tribe: 1, num_people: 10, attack_type: 0, marker: None });
    assert_eq!(b.pending_attacks.len(), 1);
    b.update_bridge(0, 0, [0; 4], [0; 4], [false; 4], [0; 4]);
    assert_eq!(b.pending_attacks.len(), 0);
}

#[test]
fn update_bridge_keeps_configuration() {
    let mut b = AiGameBridge::new();
    b.current_tribe = 1;
    b.set_defense_radius(9);
    b.set_marker_entry(1, 2, 3);
    b.build_at(1, 2, 3);
    b.update_bridge(77, 3, [1, 2, 3, 4], [5, 6, 7, 8], [true, false, true, false], [0, 1, 0, 1]);
    assert_eq!(b.tribe_active, [true, false, true, false]);
    assert!(b.pending_builds.is_empty());
    assert_eq!(b.defence_radius[1], 9);
    assert_eq!(b.marker_entries.len(), 1);
    assert_eq!(b.current_tribe, 1);
}

#[test]
fn tribe_script_state_defaults() {
    let state = TribeScriptState::new();
    assert_eq!(state.variables.len(), 64);
    assert!(state.every_counters.is_empty());
    assert!(!state.active);
}

#[test]
fn tribe_script_variables_start_at_zero() {
    let state = TribeScriptState::new();
    assert!(state.variables.iter().all(|&v| v == 0));
}

#[test]
fn is_player_check() {
    assert!(is_player(0, 0));
    assert!(!is_player(1, 0));
    assert!(is_player(2, 2));
}

#[test]
fn tick_skips_player_inactive_and_unloaded() {
    let r = tribes_to_tick(0, [true, true, true, false], [true, true, false, true]);
    assert_eq!(r, vec![1]);
    let r = tribes_to_tick(2, [true; 4], [true; 4]);
    assert_eq!(r, vec![0, 1, 3]);
    let r = tribes_to_tick(0, [false; 4], [true; 4]);
    assert!(r.is_empty());
}

#[test]
fn tribe_scripts_are_wrapped_in_tick_functions() {
    assert_eq!(tribe_tick_function(3), "_tribe_3_tick");
    assert_eq!(
        wrap_tribe_script(1, "SET_DEFENSE_RADIUS(100)"),
        "function _tribe_1_tick()\nSET_DEFENSE_RADIUS(100)\nend"
    );
}

#[test]
fn resolve_marker_finds_first_entry() {
    let entries = [
        MarkerEntry { marker: 4, x: 10, y: 20 },
        MarkerEntry { marker: 7, x: 70000, y: -3 },
        MarkerEntry { marker: 4, x: 1, y: 1 },
    ];
    assert_eq!(resolve_marker(&entries, 4), Some(WorldCoord { x: 10, z: 20 }));
    assert_eq!(resolve_marker(&entries, 7), Some(WorldCoord { x: 70000i32 as i16, z: -3 }));
    assert_eq!(resolve_marker(&entries, 5), None);
}
