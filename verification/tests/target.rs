use faithful::target::{
    assess_threat, score_building_target, score_person_target, BLDG_DRUM_TOWER, BLDG_SUPER_TRAIN,
    BLDG_TEMPLE, SUBTYPE_BRAVE, SUBTYPE_SHAMAN, SUBTYPE_SPY, SUBTYPE_WARRIOR,
};

#[test]
fn score_shaman_with_distance() {
    assert_eq!(score_person_target(SUBTYPE_SHAMAN, 0, 100), 1499);
}

#[test]
fn score_shaman_with_enough_defenders() {
    assert_eq!(score_person_target(SUBTYPE_SHAMAN, 5, 100), 999);
}

#[test]
fn score_exposed_shaman_bonus() {
    assert_eq!(score_person_target(SUBTYPE_SHAMAN, 2, 0), 1500);
}

#[test]
fn score_warrior_with_distance() {
    assert_eq!(score_person_target(SUBTYPE_WARRIOR, 5, 200), 8);
}

#[test]
fn score_building_super_train() {
    assert_eq!(score_building_target(BLDG_SUPER_TRAIN, 0), 250);
}

#[test]
fn score_building_drum_tower_with_distance() {
    assert_eq!(score_building_target(BLDG_DRUM_TOWER, 300), 147);
}

#[test]
fn assess_threat_mixed_units() {
    let units = &[(SUBTYPE_WARRIOR, 2), (SUBTYPE_SHAMAN, 1)];
    assert_eq!(assess_threat(units), 70);
}

#[test]
fn score_spy_clamped_to_zero() {
    assert_eq!(score_person_target(SUBTYPE_SPY, 10, 500), 0);
}

#[test]
fn negative_distance_rounds_toward_zero() {
    // -150 / 100 rounds toward zero to -1, so the penalty adds one point.
    assert_eq!(score_person_target(SUBTYPE_WARRIOR, 0, -150), 11);
    assert_eq!(score_building_target(BLDG_TEMPLE, -99), 200);
    assert_eq!(score_person_target(SUBTYPE_BRAVE, 0, 0), 0);
    assert_eq!(score_building_target(200, 1_000), 40);
}

#[test]
fn assess_threat_empty_and_unknown() {
    assert_eq!(assess_threat(&[]), 0);
    assert_eq!(assess_threat(&[(SUBTYPE_BRAVE, 1000)]), 0);
    assert_eq!(assess_threat(&[(SUBTYPE_SPY, 3), (SUBTYPE_SHAMAN, 2)]), 115);
}
