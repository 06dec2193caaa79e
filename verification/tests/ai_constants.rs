use faithful::ai_constants::{
    constant_value, defines_constants, popscript_constants, FUNCTION_STUB_NAMES, UNSERVED_FUNCTION_NAMES,
};
use std::collections::HashSet;

fn all() -> Vec<(String, i32)> {
    let mut v = popscript_constants();
    v.extend(defines_constants());
    v
}

fn get(name: &str) -> i32 {
    constant_value(&all(), name).unwrap()
}

#[test]
fn test_int_my_num_people() {
    assert_eq!(get("INT_MY_NUM_PEOPLE"), 1048);
}

#[test]
fn test_attr_expansion() {
    assert_eq!(get("ATTR_EXPANSION"), 0);
}

#[test]
fn test_int_blue_is_zero() {
    assert_eq!(get("INT_BLUE"), 0);
}

#[test]
fn test_attack_normal() {
    assert_eq!(get("ATTACK_NORMAL"), 0);
}

#[test]
fn test_int_brave() {
    assert_eq!(get("INT_BRAVE"), 2);
}

#[test]
fn test_spell_constants() {
    assert_eq!(get("INT_BURN"), 1);
    assert_eq!(get("INT_LIGHTNING"), 3);
    assert_eq!(get("INT_ARMAGEDDON"), 18);
    assert_eq!(get("INT_TELEPORT"), 21);
}

#[test]
fn test_building_constants() {
    assert_eq!(get("INT_SMALL_HUT"), 1);
    assert_eq!(get("INT_DRUM_TOWER"), 4);
    assert_eq!(get("INT_BOAT_HUT"), 13);
    assert_eq!(get("INT_GUARD_TOWER"), 15);
}

#[test]
fn test_unit_constants() {
    assert_eq!(get("INT_WARRIOR"), 3);
    assert_eq!(get("INT_SHAMAN"), 7);
}

#[test]
fn test_tribe_constants() {
    assert_eq!(get("INT_RED"), 1);
    assert_eq!(get("INT_YELLOW"), 2);
    assert_eq!(get("INT_GREEN"), 3);
}

#[test]
fn test_total_registered_constants_at_least_3469() {
    let mut names: HashSet<String> = all().into_iter().map(|(n, _)| n).collect();
    for n in FUNCTION_STUB_NAMES.iter() {
        names.insert(n.to_string());
    }
    assert!(names.len() >= 3469, "Expected at least 3469 registered globals, got {}", names.len());
}

#[test]
fn test_marker_constants_range() {
    assert_eq!(get("INT_MARKER_0"), 0);
    assert_eq!(get("INT_MARKER_255"), 255);
}

#[test]
fn test_attr_constants() {
    assert_eq!(get("ATTR_PREF_SPY_TRAINS"), 1);
    assert_eq!(get("ATTR_MAX_BUILDINGS_ON_GO"), 9);
    assert_eq!(get("ATTR_SPELL_DELAY"), 42);
}

#[test]
fn test_defines_constants() {
    assert_eq!(get("ATTACK_BY_BOAT"), 1);
    assert_eq!(get("ATTACK_BY_BALLOON"), 2);
    assert_eq!(get("ON"), 1);
    assert_eq!(get("OFF"), 0);
}

#[test]
fn test_attack_type_constants() {
    assert_eq!(get("ATTACK_NORMAL"), 0);
    assert_eq!(get("ATTACK_BY_BOAT"), 1);
    assert_eq!(get("ATTACK_BY_BALLOON"), 2);
}

#[test]
fn test_attribute_flag_constants() {
    assert_eq!(get("ATTR_AWAY_MEDICINE_MAN"), 48);
    assert_eq!(get("ATTR_EXTENSION"), 49);
    assert_eq!(get("ATTR_INFO_EXTENSION"), 50);
    assert_eq!(get("ATTR_PREFIX"), 51);
    assert_eq!(get("ATTR_PREF_BALLOON_DRIVERS"), 52);
    assert_eq!(get("ATTR_PREF_BOAT_DRIVERS"), 53);
    assert_eq!(get("ATTR_VERSION_NUM"), 54);
}

#[test]
fn test_object_flags() {
    assert_eq!(get("ABF_END_LIST"), 0xFFFF);
    assert_eq!(get("AOF_END_LIST"), 0xFFFF);
    assert_eq!(get("AMBIENT_FLAG_HIGH_LAND"), 0x01);
    assert_eq!(get("AMBIENT_FLAG_LOW_LAND"), 0x02);
    assert_eq!(get("AMBIENT_FLAG_SPACE"), 0x04);
    assert_eq!(get("AMBIENT_FLAG_WATER"), 0x08);
    assert_eq!(get("AOD2_FLAG_EXPLODE_PENDING"), 0x01);
    assert_eq!(get("AOD2_FLAG_WHIRLWIND_AFFECTED"), 0x02);
}

#[test]
fn test_effect_constants() {
    assert_eq!(get("AFFECT_ALTITUDE"), 0x01);
    assert_eq!(get("AFFECT_FIRE"), 0x02);
    assert_eq!(get("AFFECT_RAISE_LOWER"), 0x04);
}

#[test]
fn test_addon_type_constants() {
    assert_eq!(get("ADD_ON_TYPE_NONE"), 0);
    assert_eq!(get("ADD_ON_TYPE_WELL"), 1);
    assert_eq!(get("ADD_ON_TYPE_WINDMIL"), 2);
    assert_eq!(get("ADD_ON_TYPE_WOODHUT"), 3);
}

#[test]
fn test_terrain_constants() {
    assert_eq!(get("AAM_FLATTEN"), 0);
    assert_eq!(get("AAM_RAISE_LOWER"), 1);
}

#[test]
fn test_map_constants() {
    assert_eq!(get("AE_MAP_SIZE"), 0);
    assert_eq!(get("AE_MAP_XZ_SIZE"), 1);
    assert_eq!(get("AE_MAX_NUM_THINGS"), 2048);
}

#[test]
fn test_angel_ai_constants() {
    assert_eq!(get("ANGEL_HOVER_ALT"), 100);
    assert_eq!(get("ANGEL_HOVER_COUNT"), 32);
    assert_eq!(get("ANGEL_KILL_LIMIT"), 10);
    assert_eq!(get("ANGEL_WAIT_TIME"), 60);
}

#[test]
fn test_animation_constants() {
    assert_eq!(get("AT_NONE"), 0);
    assert_eq!(get("AT_OBJ_MORPH"), 1);
    assert_eq!(get("AT_SPR_ANIM"), 3);
}

#[test]
fn test_armed_state_constants() {
    assert_eq!(get("ARMA_SS_FIGHTING"), 0);
    assert_eq!(get("ARMA_SS_PREPARE_FIGHTERS"), 1);
    assert_eq!(get("ARMA_SS_PREPARE_LAND"), 2);
}

#[test]
fn numbered_families() {
    let c = all();
    assert_eq!(constant_value(&c, "INT_ATTR_0"), Some(1000));
    assert_eq!(constant_value(&c, "INT_ATTR_47"), Some(1047));
    assert_eq!(constant_value(&c, "INT_ATTR_48"), None);
    assert_eq!(constant_value(&c, "LEVEL_1"), Some(1));
    assert_eq!(constant_value(&c, "LEVEL_25"), Some(25));
    assert_eq!(constant_value(&c, "LEVEL_0"), None);
    assert_eq!(constant_value(&c, "RADIUS_1536"), Some(1536));
    assert_eq!(constant_value(&c, "GUARD_POST_63"), Some(63));
    assert_eq!(constant_value(&c, "NO_SPECIFIC_SPELL"), Some(-1));
}

#[test]
fn spell_charge_states() {
    let c = all();
    assert_eq!(constant_value(&c, "BLUE_SPELL_BURN_CHARGE"), Some(0));
    assert_eq!(constant_value(&c, "RED_SPELL_BURN_CHARGE"), Some(21));
    assert_eq!(constant_value(&c, "GREEN_SPELL_TELEPORT_CHARGE"), Some(83));
}

#[test]
fn later_registration_wins() {
    let v = vec![("A".to_string(), 1), ("B".to_string(), 2), ("A".to_string(), 3)];
    assert_eq!(constant_value(&v, "A"), Some(3));
    assert_eq!(constant_value(&v, "B"), Some(2));
    assert_eq!(constant_value(&v, "C"), None);
}

#[test]
fn registration_counts() {
    assert_eq!(popscript_constants().len(), 57 + 48 + 150 + 256 + 16);
    assert!(FUNCTION_STUB_NAMES.contains(&"ATTACK"));
    assert!(UNSERVED_FUNCTION_NAMES.contains(&"RANDOM_100"));
}
