use faithful::units::{
    building_obj_index, object_3d_index, scenery_obj_index, ModelType, PlayerSaveInfo, ThingPayload,
    UnitRaw,
};

#[test]
fn owner_decodes_negative_byte_as_neutral() {
    let mut bytes = [0u8; 55];
    bytes[2] = 0xFF;
    let raw = UnitRaw::from_bytes(&bytes);
    assert_eq!(raw.owner(), None, "0xFF (-1) must decode as neutral");
    assert_eq!(raw.tribe_index(), 0xFF, "raw byte still accessible via tribe_index()");
}

#[test]
fn owner_decodes_tribe_byte_as_some() {
    for t in 0..=3u8 {
        let mut bytes = [0u8; 55];
        bytes[2] = t;
        let raw = UnitRaw::from_bytes(&bytes);
        assert_eq!(raw.owner(), Some(t), "tribe byte {} must decode as Some({})", t, t);
    }
}

#[test]
fn owner_decodes_high_byte_as_neutral() {
    let mut bytes = [0u8; 55];
    bytes[2] = 0x80;
    let raw = UnitRaw::from_bytes(&bytes);
    assert_eq!(raw.owner(), None);
}

#[test]
fn building_obj_index_neutral_returns_none_for_tribed_buildings() {
    assert_eq!(building_obj_index(1, None), None);
    assert_eq!(building_obj_index(4, None), None);
}

#[test]
fn building_obj_index_vault_is_owner_independent() {
    assert_eq!(building_obj_index(18, None), Some(190));
    assert_eq!(building_obj_index(18, Some(0)), Some(190));
    assert_eq!(building_obj_index(18, Some(3)), Some(190));
}

#[test]
fn building_obj_index_per_tribe_huts() {
    assert_eq!(building_obj_index(1, Some(0)), Some(145));
    assert_eq!(building_obj_index(1, Some(1)), Some(148));
    assert_eq!(building_obj_index(1, Some(2)), Some(151));
    assert_eq!(building_obj_index(1, Some(3)), Some(154));
}

#[test]
fn building_obj_index_rejects_out_of_range_owner() {
    assert_eq!(building_obj_index(1, Some(4)), None);
    assert_eq!(building_obj_index(1, Some(99)), None);
}

#[test]
fn payload_decodes_building_angle() {
    let mut bytes = [0u8; 55];
    bytes[0] = 1;
    bytes[1] = ModelType::Building.to_u8();
    bytes[2] = 0;
    bytes[7..11].copy_from_slice(&0x0000_0200i32.to_le_bytes());
    let raw = UnitRaw::from_bytes(&bytes);
    match raw.payload() {
        ThingPayload::Building(b) => assert_eq!(b.angle, 0x0000_0200),
        other => panic!("expected Building variant, got {:?}", other),
    }
}

#[test]
fn payload_decodes_scenery_fields() {
    let mut bytes = [0u8; 55];
    bytes[1] = ModelType::Scenery.to_u8();
    bytes[7] = 2;
    bytes[8] = 3;
    bytes[9] = 4;
    bytes[10..12].copy_from_slice(&0x0100i16.to_le_bytes());
    bytes[12] = 7;
    bytes[13..15].copy_from_slice(&(-200i16).to_le_bytes());
    bytes[15] = 1;
    bytes[16] = 9;
    let raw = UnitRaw::from_bytes(&bytes);
    match raw.payload() {
        ThingPayload::Scenery(s) => {
            assert_eq!(s.portal_status, 2);
            assert_eq!(s.portal_level, 3);
            assert_eq!(s.portal_type, 4);
            assert_eq!(s.angle, 0x0100);
            assert_eq!(s.user_id, 7);
            assert_eq!(s.island_alt, -200);
            assert_eq!(s.island_num, 1);
            assert_eq!(s.bridge_num, 9);
        }
        other => panic!("expected Scenery variant, got {:?}", other),
    }
}

#[test]
fn payload_decodes_general_mana_amt() {
    let mut bytes = [0u8; 55];
    bytes[1] = ModelType::General.to_u8();
    bytes[7] = 5;
    bytes[8] = 6;
    bytes[9] = 1;
    bytes[10] = 0;
    bytes[11..15].copy_from_slice(&50_000i32.to_le_bytes());
    let raw = UnitRaw::from_bytes(&bytes);
    match raw.payload() {
        ThingPayload::General(g) => {
            assert_eq!(g.discovery_type, 5);
            assert_eq!(g.discovery_model, 6);
            assert_eq!(g.availability_type, 1);
            assert_eq!(g.mana_amt, 50_000);
        }
        other => panic!("expected General variant, got {:?}", other),
    }
}

#[test]
fn as_trigger_decodes_thing_idxs_and_pray_time() {
    let mut bytes = [0u8; 55];
    bytes[1] = ModelType::General.to_u8();
    bytes[7] = 3;
    bytes[8] = 5;
    bytes[9] = 50;
    bytes[10] = (-3i8) as u8;
    bytes[11..13].copy_from_slice(&42u16.to_le_bytes());
    bytes[13..15].copy_from_slice(&100u16.to_le_bytes());
    bytes[15..17].copy_from_slice(&200u16.to_le_bytes());
    bytes[33..35].copy_from_slice(&(-1i16).to_le_bytes());
    bytes[35] = 1;
    bytes[36] = 0;
    bytes[37..39].copy_from_slice(&500i16.to_le_bytes());
    let raw = UnitRaw::from_bytes(&bytes);
    let trig = raw.as_trigger();
    assert_eq!(trig.trigger_type, 3);
    assert_eq!(trig.cell_radius, 5);
    assert_eq!(trig.random_value, 50);
    assert_eq!(trig.num_occurences, -3);
    assert_eq!(trig.trigger_count, 42);
    assert_eq!(trig.thing_idxs[0], 100);
    assert_eq!(trig.thing_idxs[1], 200);
    assert_eq!(trig.pray_time, -1);
    assert_eq!(trig.start_inactive, 1);
    assert_eq!(trig.inactive_time, 500);
}

#[test]
fn record_fields_are_little_endian() {
    let mut bytes = [0u8; 55];
    bytes[0] = 7;
    bytes[1] = 1;
    bytes[3..5].copy_from_slice(&0x1234u16.to_le_bytes());
    bytes[5..7].copy_from_slice(&0xBEEFu16.to_le_bytes());
    bytes[7..11].copy_from_slice(&0xDEADBEEFu32.to_le_bytes());
    bytes[11..13].copy_from_slice(&0x0102u16.to_le_bytes());
    bytes[13..15].copy_from_slice(&0x0304u16.to_le_bytes());
    bytes[54] = 0xAA;
    let raw = UnitRaw::from_bytes(&bytes);
    assert_eq!(raw.subtype, 7);
    assert_eq!(raw.model_type(), Some(ModelType::Person));
    assert_eq!(raw.loc_x(), 0x1234);
    assert_eq!(raw.loc_y(), 0xBEEF);
    assert_eq!(raw.angle(), 0xDEADBEEF);
    assert_eq!(raw.f2(), 0x0102);
    assert_eq!(raw.f3(), 0x0304);
    assert_eq!(raw.fd()[39], 0xAA);
    match raw.payload() {
        ThingPayload::Other(b) => {
            assert_eq!(&b[..], &bytes[7..55]);
        }
        other => panic!("expected raw payload, got {:?}", other),
    }
}

#[test]
fn model_type_codes_roundtrip() {
    for v in 0..=255u8 {
        match ModelType::from_u8(v) {
            Some(m) => {
                assert!((1..=11).contains(&v));
                assert_eq!(m.to_u8(), v);
            }
            None => assert!(v == 0 || v > 11),
        }
    }
    assert!(ModelType::Shape.is_visible());
    assert!(!ModelType::Spell.is_visible());
    assert!(!ModelType::Effect.is_visible());
}

#[test]
fn object_indices_for_buildings_and_scenery() {
    assert_eq!(building_obj_index(4, Some(2)), Some(119));
    assert_eq!(building_obj_index(15, Some(3)), Some(128));
    assert_eq!(building_obj_index(9, Some(0)), None);
    assert_eq!(scenery_obj_index(9), Some(45));
    assert_eq!(scenery_obj_index(13), None);
    assert_eq!(object_3d_index(&ModelType::Scenery, 19, None), Some(39));
    assert_eq!(object_3d_index(&ModelType::Building, 3, Some(1)), Some(150));
    assert_eq!(object_3d_index(&ModelType::Person, 3, Some(1)), None);
}

#[test]
fn player_save_info_decodes_start_position() {
    let mut bytes = [0u8; 16];
    bytes[0..2].copy_from_slice(&(-5i16).to_le_bytes());
    bytes[2..4].copy_from_slice(&300i16.to_le_bytes());
    bytes[4..8].copy_from_slice(&(-1i32).to_le_bytes());
    let p = PlayerSaveInfo::from_bytes(&bytes);
    assert_eq!(p.start_pos_x, -5);
    assert_eq!(p.start_pos_y, 300);
    assert_eq!(p._future1, -1);
    assert_eq!(p._future2, 0);
}
