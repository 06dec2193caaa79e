use faithful::movement::{
    FailureCacheEntry, PersonMovement, RegionMapCell, RouteSegment, TileCoord, UsedTargetsCache,
    Waypoint, WorldCoord, CELL_HAS_BUILDING, FLAG1_BLOCKED,
};

#[test]
fn world_to_tile_conversion() {
    let w = WorldCoord::new(0x0100, 0x0200);
    let t = w.to_tile();
    assert_eq!(t.x, 0);
    assert_eq!(t.z, 2);
}

#[test]
fn tile_to_world_conversion() {
    let t = TileCoord::new(0x04, 0x08);
    let w = t.to_world();
    assert_eq!(w.x, 0x0500);
    assert_eq!(w.z, 0x0900);
}

#[test]
fn tile_roundtrip() {
    let t1 = TileCoord::new(0x10, 0x20);
    let w = t1.to_world();
    let t2 = w.to_tile();
    assert_eq!(t1, t2);
}

#[test]
fn region_cell_region_id() {
    let mut cell = RegionMapCell::default();
    cell.region_id_raw = 0xFC23;
    assert_eq!(cell.region_id(), 35);
}

#[test]
fn region_cell_has_building() {
    let mut cell = RegionMapCell::default();
    cell.flags_high = 0;
    assert!(!cell.has_building());
    cell.flags_high = CELL_HAS_BUILDING;
    assert!(cell.has_building());
}

#[test]
fn segment_match() {
    let mut seg = RouteSegment::default();
    seg.ref_count = 1;
    seg.start_tile_x = 10;
    seg.start_tile_z = 20;
    seg.end_tile_x = 30;
    seg.end_tile_z = 40;
    let start = TileCoord::new(10, 20);
    let end = TileCoord::new(30, 40);
    assert!(seg.matches(start, end));
    assert!(!seg.matches(end, start));
}

#[test]
fn segment_bidirectional_match() {
    let mut seg = RouteSegment::default();
    seg.ref_count = 1;
    seg.flags = 0x02;
    seg.start_tile_x = 10;
    seg.start_tile_z = 20;
    seg.end_tile_x = 30;
    seg.end_tile_z = 40;
    let start = TileCoord::new(10, 20);
    let end = TileCoord::new(30, 40);
    assert!(seg.matches_bidirectional(start, end));
    assert!(seg.matches_bidirectional(end, start));
}

#[test]
fn failure_cache_entry() {
    let entry = FailureCacheEntry {
        usage_count: 1,
        src_tile_x: 5,
        src_tile_z: 10,
        dst_tile_x: 50,
        dst_tile_z: 60,
    };
    assert!(!entry.is_empty());
    assert!(entry.matches(TileCoord::new(5, 10), TileCoord::new(50, 60)));
    assert!(!entry.matches(TileCoord::new(50, 60), TileCoord::new(5, 10)));
}

#[test]
fn person_movement_flags() {
    let mut person = PersonMovement::default();
    assert!(!person.is_moving());
    assert!(!person.is_blocked());
    person.set_goto_flags();
    assert!(person.is_moving());
    assert!(!person.is_blocked());
    person.flags1 |= FLAG1_BLOCKED;
    assert!(person.is_blocked());
    person.set_goto_flags();
    assert!(!person.is_blocked());
}

#[test]
fn waypoint_to_world() {
    let wp = Waypoint { tile_x: 0x10, tile_z: 0x20, flags: 0, _pad: 0 };
    let w = wp.to_world();
    assert_eq!(w.x, 0x1100);
    assert_eq!(w.z, 0x2100);
}

#[test]
fn tile_roundtrip_all_even_tiles_and_odd_tiles_drop_low_bit() {
    for x in 0..=255u8 {
        let t = TileCoord::new(x, 255 - x);
        let back = t.to_world().to_tile();
        assert_eq!(back, TileCoord::new(x & 0xFE, (255 - x) & 0xFE));
    }
}

#[test]
fn cell_index_and_terrain_class() {
    assert_eq!(TileCoord::new(0, 0).cell_index(), 0);
    assert_eq!(TileCoord::new(2, 4).cell_index(), 130);
    assert_eq!(TileCoord::new(255, 255).cell_index(), 127 * 128 + 127);
    let mut cell = RegionMapCell::default();
    cell.terrain_type = 0xA7;
    assert_eq!(cell.terrain_class(), 7);
    assert_eq!(WorldCoord::new(3, -4).as_array(), [3, -4]);
}

#[test]
fn waypoint_lookup_and_free_slot() {
    let mut seg = RouteSegment::default();
    assert!(seg.is_free());
    seg.waypoints[1] = Waypoint { tile_x: 4, tile_z: 8, flags: 0, _pad: 0 };
    seg.waypoint_count = 2;
    assert_eq!(seg.get_waypoint_world(1), Some(WorldCoord::new(0x0500, 0x0900)));
    assert_eq!(seg.get_waypoint_world(2), None);
    seg.ref_count = 2;
    assert!(!seg.is_free());
    let mut p = PersonMovement::default();
    p.formation_flags = 0x20;
    assert!(p.in_formation());
}

#[test]
fn used_targets_cache_records_and_clears() {
    let mut cache = UsedTargetsCache::new();
    let a = TileCoord::new(2, 2);
    let b = TileCoord::new(4, 6);
    assert!(!cache.contains(a));
    cache.record(a);
    assert!(cache.contains(a));
    assert!(!cache.contains(b));
    cache.record(b);
    assert!(cache.contains(b));
    cache.clear();
    assert!(!cache.contains(a));
    let d = UsedTargetsCache::default();
    assert!(!d.contains(a));
}

#[test]
fn used_targets_cache_keeps_the_last_sixteen_after_wrapping() {
    let mut cache = UsedTargetsCache::new();
    for i in 1..=20u8 {
        cache.record(TileCoord::new(i, i));
    }
    for i in 1..=4u8 {
        assert!(!cache.contains(TileCoord::new(i, i)));
    }
    for i in 5..=20u8 {
        assert!(cache.contains(TileCoord::new(i, i)));
    }
    cache.clear();
    assert!(!cache.contains(TileCoord::new(20, 20)));
}
