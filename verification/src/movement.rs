//! Data structures of the unit movement system: world and tile coordinates,
//! region map cells, route segments, the failure cache and per-person movement state.
use vstd::prelude::*;

verus! {

/// Region map grid dimension (128 x 128 cells).
pub const REGION_GRID_SIZE: usize = 128;
/// Bytes per region map cell.
pub const REGION_CELL_SIZE: usize = 16;
/// Mask for the region ID in a cell's region word (low 10 bits).
pub const REGION_ID_MASK: u16 = 0x3FF;
/// Building flag in a cell's high flags byte.
pub const CELL_HAS_BUILDING: u8 = 0x02;
/// Maximum segments in the route segment pool.
pub const MAX_SEGMENTS: usize = 400;
/// Maximum waypoints per route segment.
pub const MAX_WAYPOINTS: usize = 23;
/// Number of failure cache entries.
pub const FAILURE_CACHE_SIZE: usize = 8;
/// Unit has an active movement target.
pub const FLAG1_MOVING: u32 = 0x1000;
/// Unit is blocked / stuck.
pub const FLAG1_BLOCKED: u32 = 0x0080;
/// Unit needs a bridge to cross.
pub const FLAG1_NEEDS_BRIDGE: u32 = 0x8000_0000;
/// Route passes through a building.
pub const FLAG2_ROUTE_THROUGH_BUILDING: u32 = 0x0400_0000;
/// Maximum followers per formation group.
pub const MAX_FOLLOWERS: usize = 12;
/// Bytes of formation offsets (6 per follower).
pub const FORMATION_OFFSETS_LEN: usize = 72;
/// Formation flag bit.
pub const FORMATION_FLAG_BIT: u8 = 0x20;
/// Segment flag: the segment may be walked in both directions.
pub const SEGMENT_FLAG_BIDIRECTIONAL: u8 = 0x02;
/// Entries of the used-targets cache.
pub const MAX_USED_TARGETS: usize = 16;
/// GOTO person state.
pub const STATE_GOTO: u8 = 0x07;

/// 2D world coordinate (X, Z) in the toroidal 16-bit world.
#[derive(Debug, Clone, Copy, Default, PartialEq, Eq, Structural)]
pub struct WorldCoord {
    pub x: i16,
    pub z: i16,
}

/// Tile coordinate in the 128 x 128 region grid (low bit normally zero).
#[derive(Debug, Clone, Copy, Default, PartialEq, Eq, Structural)]
pub struct TileCoord {
    pub x: u8,
    pub z: u8,
}

/// Tile axis of a world axis: `(world >> 8) & 0xFE`.
pub open spec fn world_to_tile_axis(w: i16) -> u8 {
    ((w >> 8u32) & 0xFEi16) as u8
}

/// World axis of the centre of a tile axis: `((tile & 0xFE) + 1) << 8`.
pub open spec fn tile_to_world_axis(t: u8) -> i16 {
    (((((t & 0xFEu8) as u16) + 1) as u16) << 8u32) as i16
}

/// Flat 128 x 128 cell index of a tile.
pub open spec fn cell_index_of(t: TileCoord) -> int {
    (t.x / 2) as int * REGION_GRID_SIZE as int + (t.z / 2) as int
}

impl WorldCoord {
    pub fn new(x: i16, z: i16) -> (w: Self)
        ensures
            w.x == x && w.z == z,
    {
        WorldCoord { x, z }
    }

    /// Tile containing this world position (512 world units per tile step of two).
    pub fn to_tile(&self) -> (t: TileCoord)
        ensures
            t.x == world_to_tile_axis(self.x),
            t.z == world_to_tile_axis(self.z),
    {
        TileCoord { x: ((self.x >> 8u32) & 0xFEi16) as u8, z: ((self.z >> 8u32) & 0xFEi16) as u8 }
    }

    pub fn as_array(&self) -> (a: [i16; 2])
        ensures
            a@ == seq![self.x, self.z],
    {
        [self.x, self.z]
    }
}

impl TileCoord {
    pub fn new(x: u8, z: u8) -> (t: Self)
        ensures
            t.x == x && t.z == z,
    {
        TileCoord { x, z }
    }

    /// World position of the tile's centre.
    pub fn to_world(&self) -> (w: WorldCoord)
        ensures
            w.x == tile_to_world_axis(self.x),
            w.z == tile_to_world_axis(self.z),
    {
        WorldCoord {
            x: ((((self.x & 0xFEu8) as u16) + 1) << 8u32) as i16,
            z: ((((self.z & 0xFEu8) as u16) + 1) << 8u32) as i16,
        }
    }

    /// Index of this tile in the flat 128 x 128 region grid.
    pub fn cell_index(&self) -> (i: usize)
        ensures
            i == cell_index_of(*self),
            i < REGION_GRID_SIZE * REGION_GRID_SIZE,
    {
        let tx = (self.x & 0xFEu8) as usize;
        let tz = (self.z & 0xFEu8) as usize;
        proof {
            lemma_even_half(self.x);
            lemma_even_half(self.z);
        }
        (tx >> 1) * REGION_GRID_SIZE + (tz >> 1)
    }
}

/// Halving the even part of a byte is halving the byte.
proof fn lemma_even_half(x: u8)
    ensures
        ((x & 0xFEu8) as usize) >> 1 == (x / 2) as usize,
        x / 2 < 128,
{
    assert(((x & 0xFEu8) >> 1u8) == x / 2) by (bit_vector);
    let e = x & 0xFEu8;
    assert((e as usize) >> 1 == (e >> 1u8) as usize) by (bit_vector);
}

/// A tile's centre lies in that tile: converting a tile to world coordinates and
/// back gives the tile with its low bit cleared (the tile itself when even).
pub proof fn lemma_tile_world_roundtrip(t: u8)
    ensures
        world_to_tile_axis(tile_to_world_axis(t)) == t & 0xFEu8,
        t % 2 == 0 ==> world_to_tile_axis(tile_to_world_axis(t)) == t,
{
    assert((((((((t & 0xFEu8) as u16) + 1) as u16) << 8u32) as i16 >> 8u32) & 0xFEi16) as u8 == t & 0xFEu8)
        by (bit_vector);
    assert(t % 2 == 0 ==> t & 0xFEu8 == t) by (bit_vector);
}

/// A cell of the 128 x 128 region map.
#[derive(Debug, Clone, Copy, Default)]
pub struct RegionMapCell {
    pub flags_low: u8,
    /// Bit 1: the cell has a building.
    pub flags_high: u8,
    pub _pad1: [u8; 6],
    /// Low 10 bits: region index.
    pub region_id_raw: u16,
    pub _pad2: [u8; 2],
    /// Low nibble: terrain class.
    pub terrain_type: u8,
    pub _pad3: [u8; 3],
}

impl RegionMapCell {
    /// The 10-bit region ID.
    pub fn region_id(&self) -> (r: u16)
        ensures
            r == self.region_id_raw & REGION_ID_MASK,
            r < 1024,
    {
        let raw = self.region_id_raw;
        let r = raw & REGION_ID_MASK;
        assert(raw & 0x3FFu16 < 1024) by (bit_vector);
        r
    }

    pub fn has_building(&self) -> (r: bool)
        ensures
            r == (self.flags_high & CELL_HAS_BUILDING != 0),
    {
        self.flags_high & CELL_HAS_BUILDING != 0
    }

    /// Terrain class (low nibble of the terrain byte).
    pub fn terrain_class(&self) -> (r: u8)
        ensures
            r == self.terrain_type & 0x0Fu8,
            r < 16,
    {
        let t = self.terrain_type;
        let r = t & 0x0Fu8;
        assert(t & 0x0Fu8 < 16) by (bit_vector);
        r
    }
}

/// A waypoint of a route segment.
#[derive(Debug, Clone, Copy, Default, PartialEq, Eq, Structural)]
pub struct Waypoint {
    pub tile_x: u8,
    pub tile_z: u8,
    pub flags: u8,
    pub _pad: u8,
}

impl Waypoint {
    /// World position of the waypoint's tile centre.
    pub fn to_world(&self) -> (w: WorldCoord)
        ensures
            w.x == tile_to_world_axis(self.tile_x),
            w.z == tile_to_world_axis(self.tile_z),
    {
        TileCoord::new(self.tile_x, self.tile_z).to_world()
    }
}

/// A route segment of the segment pool, shared between units by reference count.
#[derive(Debug, Clone, Copy)]
pub struct RouteSegment {
    pub ref_count: i16,
    /// Bit 0 curved, bit 1 bidirectional, bit 2 persistent.
    pub flags: u8,
    pub start_tile_x: u8,
    pub start_tile_z: u8,
    pub end_tile_x: u8,
    pub end_tile_z: u8,
    pub waypoints: [Waypoint; 23],
    pub waypoint_count: u8,
}

/// The all-zero waypoint.
pub open spec fn zero_waypoint() -> Waypoint {
    Waypoint { tile_x: 0, tile_z: 0, flags: 0, _pad: 0 }
}

/// The world origin.
pub open spec fn world_origin() -> WorldCoord {
    WorldCoord { x: 0, z: 0 }
}

/// World position of the centre of tile `(x, z)`.
pub open spec fn tile_centre(x: u8, z: u8) -> WorldCoord {
    WorldCoord { x: tile_to_world_axis(x), z: tile_to_world_axis(z) }
}

/// A segment goes from `start` to `end`.
pub open spec fn segment_matches(s: RouteSegment, start: TileCoord, end: TileCoord) -> bool {
    s.start_tile_x == start.x && s.start_tile_z == start.z && s.end_tile_x == end.x && s.end_tile_z
        == end.z
}

impl Default for RouteSegment {
    fn default() -> (s: Self)
        ensures
            s.ref_count == 0 && s.flags == 0 && s.start_tile_x == 0 && s.start_tile_z == 0
                && s.end_tile_x == 0 && s.end_tile_z == 0 && s.waypoint_count == 0,
            forall|i: int| 0 <= i < 23 ==> #[trigger] s.waypoints@[i] == zero_waypoint(),
    {
        let w = Waypoint { tile_x: 0, tile_z: 0, flags: 0, _pad: 0 };
        RouteSegment {
            ref_count: 0,
            flags: 0,
            start_tile_x: 0,
            start_tile_z: 0,
            end_tile_x: 0,
            end_tile_z: 0,
            waypoints: [w; 23],
            waypoint_count: 0,
        }
    }
}

impl RouteSegment {
    /// A slot is free when its reference count is not positive.
    pub fn is_free(&self) -> (r: bool)
        ensures
            r == (self.ref_count <= 0),
    {
        self.ref_count <= 0
    }

    /// The segment goes from `start` to `end`.
    pub fn matches(&self, start: TileCoord, end: TileCoord) -> (r: bool)
        ensures
            r == segment_matches(*self, start, end),
    {
        self.start_tile_x == start.x && self.start_tile_z == start.z && self.end_tile_x == end.x
            && self.end_tile_z == end.z
    }

    /// The segment goes from `start` to `end`, or is bidirectional and goes from `end` to `start`.
    pub fn matches_bidirectional(&self, start: TileCoord, end: TileCoord) -> (r: bool)
        ensures
            r == (segment_matches(*self, start, end) || (self.flags & SEGMENT_FLAG_BIDIRECTIONAL
                != 0 && segment_matches(*self, end, start))),
    {
        self.matches(start, end) || (self.flags & SEGMENT_FLAG_BIDIRECTIONAL != 0
            && self.start_tile_x == end.x && self.start_tile_z == end.z && self.end_tile_x
            == start.x && self.end_tile_z == start.z)
    }

    /// World position of waypoint `index`, if it is one of the valid waypoints.
    pub fn get_waypoint_world(&self, index: u8) -> (r: Option<WorldCoord>)
        requires
            index < self.waypoint_count ==> index < MAX_WAYPOINTS,
        ensures
            index < self.waypoint_count ==> r == Some(
                tile_centre(self.waypoints@[index as int].tile_x, self.waypoints@[index as int].tile_z),
            ),
            index >= self.waypoint_count ==> r is None,
    {
        if index < self.waypoint_count {
            Some(self.waypoints[index as usize].to_world())
        } else {
            None
        }
    }
}

/// A failure cache entry: a recently failed search from one tile to another.
#[derive(Debug, Clone, Copy, Default)]
pub struct FailureCacheEntry {
    /// Usage count; zero marks an empty entry.
    pub usage_count: i16,
    pub src_tile_x: u8,
    pub src_tile_z: u8,
    pub dst_tile_x: u8,
    pub dst_tile_z: u8,
}

impl FailureCacheEntry {
    pub fn is_empty(&self) -> (r: bool)
        ensures
            r == (self.usage_count == 0),
    {
        self.usage_count == 0
    }

    /// A non-empty entry recording the search from `src` to `dst` (direction matters).
    pub fn matches(&self, src: TileCoord, dst: TileCoord) -> (r: bool)
        ensures
            r == (self.usage_count != 0 && self.src_tile_x == src.x && self.src_tile_z == src.z
                && self.dst_tile_x == dst.x && self.dst_tile_z == dst.z),
    {
        !self.is_empty() && self.src_tile_x == src.x && self.src_tile_z == src.z && self.dst_tile_x
            == dst.x && self.dst_tile_z == dst.z
    }
}

/// Movement-related fields of a person.
#[derive(Debug, Clone, Copy)]
pub struct PersonMovement {
    /// 0x1000 moving, 0x80 blocked, 0x8000_0000 needs a bridge.
    pub flags1: u32,
    /// 0x0400_0000 route through building.
    pub flags2: u32,
    pub state: u8,
    pub unit_type: u8,
    pub position: WorldCoord,
    pub target_pos: WorldCoord,
    pub next_waypoint: WorldCoord,
    pub movement_dest: WorldCoord,
    /// 11-bit facing angle (0-2047).
    pub facing_angle: u16,
    pub speed: u16,
    /// 0 = direct walk.
    pub segment_index: u16,
    pub route_byte: u8,
    pub waypoint_idx: u8,
    pub follower_count: u8,
    pub follower_ids: [u16; 12],
    /// Bit 5: in formation.
    pub formation_flags: u8,
    pub formation_offsets: [u8; 72],
}

impl Default for PersonMovement {
    fn default() -> (p: Self)
        ensures
            p.flags1 == 0 && p.flags2 == 0 && p.state == 0 && p.unit_type == 0,
            p.position == world_origin() && p.target_pos == world_origin(),
            p.next_waypoint == world_origin() && p.movement_dest == world_origin(),
            p.facing_angle == 0 && p.speed == 0 && p.segment_index == 0 && p.route_byte == 0,
            p.waypoint_idx == 0 && p.follower_count == 0 && p.formation_flags == 0,
            forall|i: int| 0 <= i < 12 ==> #[trigger] p.follower_ids@[i] == 0,
            forall|i: int| 0 <= i < 72 ==> #[trigger] p.formation_offsets@[i] == 0,
    {
        let origin = WorldCoord { x: 0, z: 0 };
        PersonMovement {
            flags1: 0,
            flags2: 0,
            state: 0,
            unit_type: 0,
            position: origin,
            target_pos: origin,
            next_waypoint: origin,
            movement_dest: origin,
            facing_angle: 0,
            speed: 0,
            segment_index: 0,
            route_byte: 0,
            waypoint_idx: 0,
            follower_count: 0,
            follower_ids: [0u16; 12],
            formation_flags: 0,
            formation_offsets: [0u8; 72],
        }
    }
}

impl PersonMovement {
    pub fn is_moving(&self) -> (r: bool)
        ensures
            r == (self.flags1 & FLAG1_MOVING != 0),
    {
        self.flags1 & FLAG1_MOVING != 0
    }

    pub fn is_blocked(&self) -> (r: bool)
        ensures
            r == (self.flags1 & FLAG1_BLOCKED != 0),
    {
        self.flags1 & FLAG1_BLOCKED != 0
    }

    pub fn in_formation(&self) -> (r: bool)
        ensures
            r == (self.formation_flags & FORMATION_FLAG_BIT != 0),
    {
        self.formation_flags & FORMATION_FLAG_BIT != 0
    }

    /// After a move order: the moving bit is set, the blocked bit cleared, all else kept.
    pub fn set_goto_flags(&mut self)
        ensures
            final(self).flags1 == (old(self).flags1 | FLAG1_MOVING) & !FLAG1_BLOCKED,
            final(self).flags1 & FLAG1_MOVING != 0,
            final(self).flags1 & FLAG1_BLOCKED == 0,
            final(self).flags1 & !(FLAG1_MOVING | FLAG1_BLOCKED) == old(self).flags1 & !(FLAG1_MOVING
                | FLAG1_BLOCKED),
            *final(self) == (PersonMovement { flags1: final(self).flags1, ..*old(self) }),
    {
        let f = self.flags1;
        self.flags1 = self.flags1 | FLAG1_MOVING;
        self.flags1 = self.flags1 & !FLAG1_BLOCKED;
        proof {
            let n = (f | 0x1000u32) & !0x80u32;
            assert(n & 0x1000u32 != 0) by (bit_vector)
                requires n == (f | 0x1000u32) & !0x80u32;
            assert(n & 0x80u32 == 0) by (bit_vector)
                requires n == (f | 0x1000u32) & !0x80u32;
            assert(n & !(0x1000u32 | 0x80u32) == f & !(0x1000u32 | 0x80u32)) by (bit_vector)
                requires n == (f | 0x1000u32) & !0x80u32;
        }
    }
}

/// Abstract used-targets cache: the entry ring and the number of records made.
pub struct UsedTargetsView {
    pub entries: Seq<TileCoord>,
    pub count: nat,
}

/// Number of entries in use: the records made, at most sixteen.
pub open spec fn used_len(count: nat) -> int {
    if count < MAX_USED_TARGETS {
        count as int
    } else {
        MAX_USED_TARGETS as int
    }
}

/// Whether `tile` is among the entries in use.
pub open spec fn used_targets_contain(v: UsedTargetsView, tile: TileCoord) -> bool {
    v.entries.take(used_len(v.count)).contains(tile)
}

/// The cache after recording `tile`: the next entry (wrapping after sixteen) is
/// overwritten and the record count grows by one.
pub open spec fn used_targets_record(v: UsedTargetsView, tile: TileCoord) -> UsedTargetsView {
    UsedTargetsView {
        entries: v.entries.update((v.count % (MAX_USED_TARGETS as nat)) as int, tile),
        count: v.count + 1,
    }
}

/// Cache of recently chosen walkability targets, so units do not all snap to the same tile.
#[derive(Debug, Clone, Copy)]
pub struct UsedTargetsCache {
    entries: [TileCoord; 16],
    count: usize,
}

impl View for UsedTargetsCache {
    type V = UsedTargetsView;

    closed spec fn view(&self) -> UsedTargetsView {
        UsedTargetsView { entries: self.entries@, count: self.count as nat }
    }
}

impl UsedTargetsCache {
    pub fn new() -> (c: Self)
        ensures
            c@.count == 0,
            c@.entries.len() == MAX_USED_TARGETS,
            forall|i: int| 0 <= i < MAX_USED_TARGETS ==> #[trigger] c@.entries[i] == (TileCoord { x: 0, z: 0 }),
    {
        UsedTargetsCache { entries: [TileCoord { x: 0, z: 0 }; 16], count: 0 }
    }

    /// Whether `tile` was recently used as an adjusted target: whether it is
    /// among the entries in use (the last sixteen records once the cache wrapped).
    pub fn contains(&self, tile: TileCoord) -> (r: bool)
        ensures
            r == used_targets_contain(self@, tile),
    {
        let n: usize = if self.count < MAX_USED_TARGETS { self.count } else { MAX_USED_TARGETS };
        let mut i: usize = 0;
        while i < n
            invariant
                n == used_len(self.count as nat),
                n <= 16,
                self.entries@.len() == 16,
                0 <= i <= n,
                forall|j: int| 0 <= j < i ==> self.entries@[j] != tile,
            decreases n - i,
        {
            if self.entries[i] == tile {
                assert(self.entries@.take(n as int)[i as int] == tile);
                return true;
            }
            i = i + 1;
        }
        proof {
            let p = self.entries@.take(n as int);
            if p.contains(tile) {
                let k = choose|k: int| 0 <= k < p.len() && p[k] == tile;
                assert(self.entries@[k] == tile);
            }
        }
        false
    }

    /// Record `tile`: it fills the next entry, or overwrites the oldest once all
    /// sixteen are used.
    pub fn record(&mut self, tile: TileCoord)
        requires
            old(self)@.count < usize::MAX,
        ensures
            final(self)@ == used_targets_record(old(self)@, tile),
    {
        if self.count < MAX_USED_TARGETS {
            self.entries[self.count] = tile;
            self.count = self.count + 1;
        } else {
            let idx = self.count % MAX_USED_TARGETS;
            self.entries[idx] = tile;
            self.count = self.count + 1;
        }
    }

    /// Forget every recorded target.
    pub fn clear(&mut self)
        ensures
            final(self)@.count == 0,
            final(self)@.entries == old(self)@.entries,
    {
        self.count = 0;
    }
}

impl Default for UsedTargetsCache {
    fn default() -> (c: Self)
        ensures
            c@.count == 0,
            c@.entries.len() == MAX_USED_TARGETS,
            forall|i: int| 0 <= i < MAX_USED_TARGETS ==> #[trigger] c@.entries[i] == (TileCoord { x: 0, z: 0 }),
    {
        Self::new()
    }
}

/// A target is found right after it is recorded, full cache or not, and a
/// cleared cache contains nothing.
pub proof fn lemma_recorded_target_is_used(v: UsedTargetsView, tile: TileCoord, other: TileCoord)
    requires
        v.entries.len() == MAX_USED_TARGETS,
    ensures
        used_targets_contain(used_targets_record(v, tile), tile),
        !used_targets_contain(UsedTargetsView { count: 0, ..v }, other),
{
    let r = used_targets_record(v, tile);
    let k = (v.count % 16) as int;
    assert(k < used_len(r.count));
    assert(r.entries.take(used_len(r.count))[k] == tile);
    assert(UsedTargetsView { count: 0, ..v }.entries.take(0) =~= Seq::<TileCoord>::empty());
}

/// The cache after recording each tile of `h` in order, starting from `v`.
pub open spec fn record_all(v: UsedTargetsView, h: Seq<TileCoord>) -> UsedTargetsView
    decreases h.len(),
{
    if h.len() == 0 {
        v
    } else {
        used_targets_record(record_all(v, h.drop_last()), h.last())
    }
}

/// Index, among `n` records, of the last one written to slot `i`.
pub open spec fn last_record_in_slot(n: int, i: int) -> int {
    i + 16 * ((n - 1 - i) / 16)
}

proof fn lemma_record_all_slots(e: Seq<TileCoord>, h: Seq<TileCoord>)
    requires
        e.len() == MAX_USED_TARGETS,
    ensures
        record_all(UsedTargetsView { entries: e, count: 0 }, h).count == h.len(),
        record_all(UsedTargetsView { entries: e, count: 0 }, h).entries.len() == MAX_USED_TARGETS,
        forall|i: int|
            0 <= i < used_len(h.len()) ==> 0 <= #[trigger] last_record_in_slot(h.len() as int, i) < h.len()
                && last_record_in_slot(h.len() as int, i) % 16 == i
                && h.len() - 16 <= last_record_in_slot(h.len() as int, i)
                && record_all(UsedTargetsView { entries: e, count: 0 }, h).entries[i] == h[last_record_in_slot(
                h.len() as int,
                i,
            )],
    decreases h.len(),
{
    let v0 = UsedTargetsView { entries: e, count: 0 };
    if h.len() > 0 {
        let p = h.drop_last();
        lemma_record_all_slots(e, p);
        let n = h.len() as int;
        let w = record_all(v0, p);
        let j = (n - 1) % 16;
        assert forall|i: int| 0 <= i < used_len(h.len()) implies 0 <= #[trigger] last_record_in_slot(n, i) < n
            && last_record_in_slot(n, i) % 16 == i && n - 16 <= last_record_in_slot(n, i)
            && record_all(v0, h).entries[i] == h[last_record_in_slot(n, i)] by {
            assert(0 <= i < 16);
            assert(0 <= last_record_in_slot(n, i) < n && last_record_in_slot(n, i) % 16 == i && n - 16
                <= last_record_in_slot(n, i)) by (nonlinear_arith)
                requires
                    0 <= i < 16,
                    i < n,
            ;
            if i == j {
                assert(last_record_in_slot(n, i) == n - 1) by (nonlinear_arith)
                    requires
                        i == (n - 1) % 16,
                        n >= 1,
                        0 <= i < 16,
                ;
            } else {
                assert(i < used_len(p.len()));
                assert(last_record_in_slot(n, i) == last_record_in_slot(n - 1, i)) by (nonlinear_arith)
                    requires
                        i != (n - 1) % 16,
                        0 <= i < 16,
                        i < n - 1,
                ;
            }
        }
    }
}

/// The cache remembers the last sixteen records: after recording the tiles of
/// `h` in order into a cleared cache, a tile is found exactly when it is one of
/// the last (at most sixteen) tiles recorded.
pub proof fn lemma_remembers_last_records(e: Seq<TileCoord>, h: Seq<TileCoord>, t: TileCoord)
    requires
        e.len() == MAX_USED_TARGETS,
    ensures
        used_targets_contain(record_all(UsedTargetsView { entries: e, count: 0 }, h), t) <==> h.skip(
            h.len() - used_len(h.len()),
        ).contains(t),
{
    lemma_record_all_slots(e, h);
    let w = record_all(UsedTargetsView { entries: e, count: 0 }, h);
    let n = h.len() as int;
    let m = used_len(h.len());
    let used = w.entries.take(m);
    let last = h.skip(n - m);
    if used.contains(t) {
        let i = choose|i: int| 0 <= i < used.len() && used[i] == t;
        let k = last_record_in_slot(n, i);
        assert(last[k - (n - m)] == t);
    }
    if last.contains(t) {
        let q = choose|q: int| 0 <= q < last.len() && last[q] == t;
        let k = q + (n - m);
        let i = k % 16;
        assert(0 <= i < m && last_record_in_slot(n, i) == k) by (nonlinear_arith)
            requires
                n - m <= k < n,
                i == k % 16,
                m == if n < 16 { n } else { 16 },
        ;
        assert(used[i] == t);
    }
}

/// Bitmask for valid angle values (0x000-0x7FF)
pub const ANGLE_MASK: u16 = 0x7FF;
/// 180 degrees in angle units
pub const ANGLE_HALF: i32 = 0x400;
/// 360 degrees in angle units
pub const ANGLE_FULL: i32 = 0x800;
/// Threshold for toroidal distance wrapping
pub const WORLD_WRAP_THRESHOLD: i32 = 0x8000;
/// Total world size in each axis (128 cells * 512 units per cell)
pub const WORLD_SIZE: i32 = 0x10000;
/// Bytes per route segment
pub const SEGMENT_SIZE: usize = 109;
/// Bytes per failure cache entry
pub const FAILURE_ENTRY_SIZE: usize = 10;
/// Cache miss flag
pub const FLAG2_CACHE_MISS: u32 = 0x1000_0000;
/// Arrival threshold per axis (world units)
pub const ARRIVAL_THRESHOLD: i32 = 0x48;
/// Max distance for formation coherence
pub const FORMATION_MAX_DISTANCE: i32 = 0x238;
/// Max angle difference for formation membership (about 20 degrees)
pub const FORMATION_MAX_ANGLE: i32 = 0x71;
/// Max squared distance for formation membership
pub const FORMATION_MAX_DIST_SQ: i32 = 0x40_0000;
/// Formation row spacing (world units)
pub const FORMATION_ROW_SPACING: i32 = 0x12;
/// Follower catch-up speed multiplier (3/2)
pub const CATCHUP_SPEED_NUM: i32 = 3;
/// Follower catch-up speed divisor.
pub const CATCHUP_SPEED_DEN: i32 = 2;
/// MOVING state (dormant - not used in practice)
pub const STATE_MOVING: u8 = 0x03;
/// Base address of speed table in binary
pub const SPEED_TABLE_ADDR: u32 = 0x5A0974;
/// Stride of speed table entries (26 bytes per unit type)
pub const SPEED_TABLE_STRIDE: usize = 26;
/// Rng multiplier.
pub const RNG_MULTIPLIER: u32 = 9377;
/// Rng increment.
pub const RNG_INCREMENT: u32 = 0x24DF;
/// Rng rotate bits.
pub const RNG_ROTATE_BITS: u32 = 13;
/// Bit in terrain flags indicating walkable terrain
pub const TERRAIN_WALKABLE_BIT: u8 = 0x02;
/// Number of terrain flag entries (indexed by terrain_class)
pub const TERRAIN_FLAGS_COUNT: usize = 16;
/// Maximum neighbors to search in spiral walkability scan
pub const MAX_WALKABILITY_SEARCH: usize = 32;
/// Distance threshold for waypoint arrival (normal paths, world units)
pub const WAYPOINT_ARRIVAL_THRESHOLD: i32 = 0x240;
/// Distance threshold for building entrance arrival (world units)
pub const BUILDING_ARRIVAL_THRESHOLD: i32 = 0xE0;
/// Segment flag bit 2: persistent (don't deallocate when ref_count hits 0)
pub const SEGMENT_FLAG_PERSISTENT: u8 = 0x04;
/// Maximum search iterations before giving up (from 0x599830)
pub const PATHFIND_MAX_ITERATIONS: usize = 1500;
/// Maximum local waypoints per search arm
pub const PATHFIND_ARM_MAX_WAYPOINTS: usize = 260;
/// Maximum total waypoints in the global pool
pub const PATHFIND_MAX_POOL_WAYPOINTS: usize = 400;
/// Default max waypoints for output (tribe-dependent in the game)
pub const PATHFIND_DEFAULT_MAX_OUTPUT: usize = 400;
/// Maximum retries with relaxed constraints
pub const PATHFIND_MAX_RETRIES: usize = 3;
/// Minimum distance (in cells) for intermediate building route
pub const PATHFIND_MIN_INTERMEDIATE_DIST: i32 = 0x64;
/// Maximum output waypoints per segment
pub const PATHFIND_MAX_SEGMENT_WAYPOINTS: usize = 23;
/// Number of cardinal directions
pub const NUM_DIRECTIONS: usize = 4;
/// Direction deltas for cardinal movement (South, East, North, West)
/// Table at 0x599838 of the game executable, 10 bytes per entry
/// Each entry: (dx: i32, dz: i32) - only first 8 bytes used
pub const DIRECTION_DX: [i32; 4] = [0, 1, 0, -1];
/// Direction dz.
pub const DIRECTION_DZ: [i32; 4] = [1, 0, -1, 0];
/// Arm is initialized but hasn't started
pub const ARM_STATE_INIT: u8 = 0;
/// Arm found a path to the goal
pub const ARM_STATE_FOUND: u8 = 1;
/// Arm stalled (entered open area or exhausted)
pub const ARM_STATE_STALLED: u8 = 2;
/// Arm is actively expanding (wall-following)
pub const ARM_STATE_EXPANDING: u8 = 3;
/// Cell is passable - unit can enter
pub const PASS_OK: u8 = 0;
/// Blocked by water boundary
pub const PASS_WATER: u8 = 1;
/// Off the map edge
pub const PASS_OFF_MAP: u8 = 3;
/// Terrain blocked (cliff, wall, etc.)
pub const PASS_TERRAIN: u8 = 4;

} // verus!
