//! Level object records (THINGSAVE, 55 bytes on disk) and their typed payloads,
//! and the mapping from object type to 3D object index.
use vstd::prelude::*;

verus! {

/// Person subtype: wild person.
pub const PERSON_SUBTYPE_WILD: u8 = 1;
/// Person subtype: brave.
pub const PERSON_SUBTYPE_BRAVE: u8 = 2;
/// Person subtype: warrior.
pub const PERSON_SUBTYPE_WARRIOR: u8 = 3;
/// Person subtype: preacher.
pub const PERSON_SUBTYPE_PREACHER: u8 = 4;
/// Person subtype: spy.
pub const PERSON_SUBTYPE_SPY: u8 = 5;
/// Person subtype: firewarrior.
pub const PERSON_SUBTYPE_FIREWARRIOR: u8 = 6;
/// Person subtype: shaman.
pub const PERSON_SUBTYPE_SHAMAN: u8 = 7;
/// Person subtype: angel of death.
pub const PERSON_SUBTYPE_AOD: u8 = 8;

/// Top-level object type of a level object.
#[derive(Debug, Copy, Clone, PartialEq, Eq, Structural)]
pub enum ModelType {
    Person,
    Building,
    Creature,
    Vehicle,
    Scenery,
    General,
    Effect,
    Shot,
    Shape,
    Internal,
    Spell,
}

/// The on-disk type byte of each model type (1 = Person ... 11 = Spell).
pub open spec fn model_code(m: ModelType) -> u8 {
    match m {
        ModelType::Person => 1,
        ModelType::Building => 2,
        ModelType::Creature => 3,
        ModelType::Vehicle => 4,
        ModelType::Scenery => 5,
        ModelType::General => 6,
        ModelType::Effect => 7,
        ModelType::Shot => 8,
        ModelType::Shape => 9,
        ModelType::Internal => 10,
        ModelType::Spell => 11,
    }
}

/// The model type an on-disk type byte denotes, if any.
pub open spec fn model_of_code(v: u8) -> Option<ModelType> {
    if v == 1 {
        Some(ModelType::Person)
    } else if v == 2 {
        Some(ModelType::Building)
    } else if v == 3 {
        Some(ModelType::Creature)
    } else if v == 4 {
        Some(ModelType::Vehicle)
    } else if v == 5 {
        Some(ModelType::Scenery)
    } else if v == 6 {
        Some(ModelType::General)
    } else if v == 7 {
        Some(ModelType::Effect)
    } else if v == 8 {
        Some(ModelType::Shot)
    } else if v == 9 {
        Some(ModelType::Shape)
    } else if v == 10 {
        Some(ModelType::Internal)
    } else if v == 11 {
        Some(ModelType::Spell)
    } else {
        None
    }
}

/// Types drawn in the world.
pub open spec fn model_visible(m: ModelType) -> bool {
    match m {
        ModelType::Person | ModelType::Building | ModelType::Creature | ModelType::Vehicle
        | ModelType::Scenery | ModelType::General | ModelType::Shape => true,
        _ => false,
    }
}

impl ModelType {
    /// Decode an on-disk type byte; only 1..=11 denote a type.
    pub fn from_u8(v: u8) -> (r: Option<Self>)
        ensures
            r == model_of_code(v),
            r is Some <==> 1 <= v <= 11,
    {
        match v {
            1 => Some(ModelType::Person),
            2 => Some(ModelType::Building),
            3 => Some(ModelType::Creature),
            4 => Some(ModelType::Vehicle),
            5 => Some(ModelType::Scenery),
            6 => Some(ModelType::General),
            7 => Some(ModelType::Effect),
            8 => Some(ModelType::Shot),
            9 => Some(ModelType::Shape),
            10 => Some(ModelType::Internal),
            11 => Some(ModelType::Spell),
            _ => None,
        }
    }

    /// The on-disk type byte of this type.
    pub fn to_u8(self) -> (r: u8)
        ensures
            r == model_code(self),
    {
        match self {
            ModelType::Person => 1,
            ModelType::Building => 2,
            ModelType::Creature => 3,
            ModelType::Vehicle => 4,
            ModelType::Scenery => 5,
            ModelType::General => 6,
            ModelType::Effect => 7,
            ModelType::Shot => 8,
            ModelType::Shape => 9,
            ModelType::Internal => 10,
            ModelType::Spell => 11,
        }
    }

    /// Person, building, creature, vehicle, scenery, general and shape objects are drawn.
    pub fn is_visible(&self) -> (r: bool)
        ensures
            r == model_visible(*self),
    {
        match self {
            ModelType::Person | ModelType::Building | ModelType::Creature | ModelType::Vehicle
            | ModelType::Scenery | ModelType::General | ModelType::Shape => true,
            _ => false,
        }
    }
}

/// Decoding a type byte inverts encoding, and the type bytes are exactly 1..=11.
pub proof fn lemma_model_code_roundtrip(m: ModelType, v: u8)
    ensures
        model_of_code(model_code(m)) == Some(m),
        model_of_code(v) is Some ==> model_code(model_of_code(v)->0) == v,
{
}

/// The type bytes number the model types in order from 1: Person 1, Building
/// 2, Creature 3, Vehicle 4, Scenery 5, General 6, Effect 7, Shot 8, Shape 9,
/// Internal 10 and Spell 11; 0 and bytes above 11 denote no type.
pub proof fn lemma_model_codes(v: u8)
    ensures
        model_code(ModelType::Person) == 1 && model_code(ModelType::Building) == 2,
        model_code(ModelType::Creature) == 3 && model_code(ModelType::Vehicle) == 4,
        model_code(ModelType::Scenery) == 5 && model_code(ModelType::General) == 6,
        model_code(ModelType::Effect) == 7 && model_code(ModelType::Shot) == 8,
        model_code(ModelType::Shape) == 9 && model_code(ModelType::Internal) == 10,
        model_code(ModelType::Spell) == 11,
        model_of_code(v) is None <==> v == 0 || v > 11,
{
}

/// Little-endian 16-bit value of two bytes.
pub open spec fn le_u16(lo: u8, hi: u8) -> u16 {
    (lo as u16) | ((hi as u16) << 8u16)
}

/// Little-endian 32-bit value of four bytes.
pub open spec fn le_u32(b0: u8, b1: u8, b2: u8, b3: u8) -> u32 {
    (b0 as u32) | ((b1 as u32) << 8u32) | ((b2 as u32) << 16u32) | ((b3 as u32) << 24u32)
}

/// Byte `k` (0 = least significant) of a 32-bit value.
pub open spec fn byte_of_u32(v: u32, k: u32) -> u8 {
    ((v >> (8 * k) as u32) & 0xFFu32) as u8
}

/// Byte `k` (0 = least significant) of a 16-bit value.
pub open spec fn byte_of_u16(v: u16, k: u16) -> u8 {
    ((v >> (8 * k) as u16) & 0xFFu16) as u8
}

fn read_u16(lo: u8, hi: u8) -> (r: u16)
    ensures
        r == le_u16(lo, hi),
{
    (lo as u16) | ((hi as u16) << 8u16)
}

fn read_u32(b0: u8, b1: u8, b2: u8, b3: u8) -> (r: u32)
    ensures
        r == le_u32(b0, b1, b2, b3),
{
    (b0 as u32) | ((b1 as u32) << 8u32) | ((b2 as u32) << 16u32) | ((b3 as u32) << 24u32)
}

/// Raw on-disk level object record (55 bytes): subtype, type, owner byte,
/// position, and a 48-byte union interpreted by type.
#[derive(Debug, Copy, Clone)]
pub struct UnitRaw {
    /// Byte 0: subtype within type (e.g. Brave = 2, Shaman = 7).
    pub subtype: u8,
    /// Byte 1: top-level type byte (1 = Person ... 11 = Spell).
    pub model: u8,
    /// Byte 2: owner, signed on disk (0xFF = -1 = neutral).
    pub tribe_index: u8,
    /// Bytes 3-4: X position.
    pub loc_x: u16,
    /// Bytes 5-6: Z position.
    pub loc_y: u16,
    /// Bytes 7-10: building angle (other payloads overlay this region).
    pub angle: u32,
    pub f2: u16,
    pub f3: u16,
    pub fd: [u8; 40],
}

/// The fields of a record, as read from its bytes.
pub struct UnitRawView {
    pub subtype: u8,
    pub model: u8,
    pub tribe_index: u8,
    pub loc_x: u16,
    pub loc_y: u16,
    pub angle: u32,
    pub f2: u16,
    pub f3: u16,
    pub fd: Seq<u8>,
}

impl View for UnitRaw {
    type V = UnitRawView;

    open spec fn view(&self) -> UnitRawView {
        UnitRawView {
            subtype: self.subtype,
            model: self.model,
            tribe_index: self.tribe_index,
            loc_x: self.loc_x,
            loc_y: self.loc_y,
            angle: self.angle,
            f2: self.f2,
            f3: self.f3,
            fd: self.fd@,
        }
    }
}

/// The 48-byte union region (record bytes 7..55) of a record.
pub open spec fn union_bytes(u: UnitRawView) -> Seq<u8> {
    seq![
        byte_of_u32(u.angle, 0),
        byte_of_u32(u.angle, 1),
        byte_of_u32(u.angle, 2),
        byte_of_u32(u.angle, 3),
        byte_of_u16(u.f2, 0),
        byte_of_u16(u.f2, 1),
        byte_of_u16(u.f3, 0),
        byte_of_u16(u.f3, 1),
    ] + u.fd
}

/// Decoded owner: `None` for a negative (neutral) owner byte, else the tribe slot.
pub open spec fn owner_of(tribe_index: u8) -> Option<u8> {
    if tribe_index >= 128 {
        None
    } else {
        Some(tribe_index)
    }
}

/// The record that a 55-byte on-disk entry holds.
pub open spec fn record_of_bytes(b: Seq<u8>) -> UnitRawView {
    UnitRawView {
        subtype: b[0],
        model: b[1],
        tribe_index: b[2],
        loc_x: le_u16(b[3], b[4]),
        loc_y: le_u16(b[5], b[6]),
        angle: le_u32(b[7], b[8], b[9], b[10]),
        f2: le_u16(b[11], b[12]),
        f3: le_u16(b[13], b[14]),
        fd: b.subrange(15, 55),
    }
}

/// Splitting little-endian values into bytes inverts reading them.
proof fn lemma_le_bytes_roundtrip(b0: u8, b1: u8, b2: u8, b3: u8)
    ensures
        byte_of_u32(le_u32(b0, b1, b2, b3), 0) == b0,
        byte_of_u32(le_u32(b0, b1, b2, b3), 1) == b1,
        byte_of_u32(le_u32(b0, b1, b2, b3), 2) == b2,
        byte_of_u32(le_u32(b0, b1, b2, b3), 3) == b3,
        byte_of_u16(le_u16(b0, b1), 0) == b0,
        byte_of_u16(le_u16(b0, b1), 1) == b1,
{
    let v = le_u32(b0, b1, b2, b3);
    assert(((((b0 as u32) | ((b1 as u32) << 8u32) | ((b2 as u32) << 16u32) | ((b3 as u32) << 24u32))
        >> 0u32) & 0xFFu32) as u8 == b0) by (bit_vector);
    assert(((((b0 as u32) | ((b1 as u32) << 8u32) | ((b2 as u32) << 16u32) | ((b3 as u32) << 24u32))
        >> 8u32) & 0xFFu32) as u8 == b1) by (bit_vector);
    assert(((((b0 as u32) | ((b1 as u32) << 8u32) | ((b2 as u32) << 16u32) | ((b3 as u32) << 24u32))
        >> 16u32) & 0xFFu32) as u8 == b2) by (bit_vector);
    assert(((((b0 as u32) | ((b1 as u32) << 8u32) | ((b2 as u32) << 16u32) | ((b3 as u32) << 24u32))
        >> 24u32) & 0xFFu32) as u8 == b3) by (bit_vector);
    assert(((((b0 as u16) | ((b1 as u16) << 8u16)) >> 0u16) & 0xFFu16) as u8 == b0) by (bit_vector);
    assert(((((b0 as u16) | ((b1 as u16) << 8u16)) >> 8u16) & 0xFFu16) as u8 == b1) by (bit_vector);
}

/// The union region of a record read from bytes is exactly bytes 7..55.
pub proof fn lemma_union_is_record_tail(b: Seq<u8>)
    requires
        b.len() == 55,
    ensures
        union_bytes(record_of_bytes(b)) =~= b.subrange(7, 55),
{
    lemma_le_bytes_roundtrip(b[7], b[8], b[9], b[10]);
    lemma_le_bytes_roundtrip(b[11], b[12], b[13], b[14]);
    lemma_le_bytes_roundtrip(b[13], b[14], 0, 0);
}

impl UnitRaw {
    /// Read a record from its 55 on-disk bytes (little-endian fields).
    pub fn from_bytes(b: &[u8; 55]) -> (u: Self)
        ensures
            u@ == record_of_bytes(b@),

    {
        let mut fd = [0u8; 40];
        let mut i: usize = 0;
        while i < 40
            invariant
                0 <= i <= 40,
                forall|j: int| 0 <= j < i ==> fd@[j] == b@[15 + j],
            decreases 40 - i,
        {
            fd[i] = b[15 + i];
            i = i + 1;
        }
        assert(fd@ =~= b@.subrange(15, 55));
        UnitRaw {
            subtype: b[0],
            model: b[1],
            tribe_index: b[2],
            loc_x: read_u16(b[3], b[4]),
            loc_y: read_u16(b[5], b[6]),
            angle: read_u32(b[7], b[8], b[9], b[10]),
            f2: read_u16(b[11], b[12]),
            f3: read_u16(b[13], b[14]),
            fd,
        }
    }

    /// Raw owner byte (255 for neutral objects).
    pub fn tribe_index(&self) -> (r: u8)
        ensures
            r == self@.tribe_index,
    {
        self.tribe_index
    }

    /// Decoded owner: `None` for a negative owner byte (neutral), else the tribe slot.
    pub fn owner(&self) -> (r: Option<u8>)
        ensures
            r == owner_of(self@.tribe_index),
    {
        if self.tribe_index >= 128 {
            None
        } else {
            Some(self.tribe_index)
        }
    }

    pub fn loc_x(&self) -> (r: u16)
        ensures
            r == self@.loc_x,
    {
        self.loc_x
    }

    pub fn loc_y(&self) -> (r: u16)
        ensures
            r == self@.loc_y,
    {
        self.loc_y
    }

    pub fn model_type(&self) -> (r: Option<ModelType>)
        ensures
            r == model_of_code(self@.model),
    {
        ModelType::from_u8(self.model)
    }

    pub fn angle(&self) -> (r: u32)
        ensures
            r == self@.angle,
    {
        self.angle
    }

    pub fn f2(&self) -> (r: u16)
        ensures
            r == self@.f2,
    {
        self.f2
    }

    pub fn f3(&self) -> (r: u16)
        ensures
            r == self@.f3,
    {
        self.f3
    }

    pub fn fd(&self) -> (r: &[u8; 40])
        ensures
            r@ == self@.fd,
    {
        &self.fd
    }

    /// The 48-byte union region.
    fn union_region(&self) -> (buf: [u8; 48])
        ensures
            buf@ == union_bytes(self@),
    {
        let mut buf = [0u8; 48];
        let a = self.angle;
        buf[0] = (a & 0xFFu32) as u8;
        buf[1] = ((a >> 8u32) & 0xFFu32) as u8;
        buf[2] = ((a >> 16u32) & 0xFFu32) as u8;
        buf[3] = ((a >> 24u32) & 0xFFu32) as u8;
        let f2 = self.f2;
        buf[4] = (f2 & 0xFFu16) as u8;
        buf[5] = ((f2 >> 8u16) & 0xFFu16) as u8;
        let f3 = self.f3;
        buf[6] = (f3 & 0xFFu16) as u8;
        buf[7] = ((f3 >> 8u16) & 0xFFu16) as u8;
        assert(a >> 0u32 == a) by (bit_vector);
        assert(f2 >> 0u16 == f2) by (bit_vector);
        assert(f3 >> 0u16 == f3) by (bit_vector);
        let mut i: usize = 0;
        while i < 40
            invariant
                0 <= i <= 40,
                buf@.len() == 48,
                buf@[0] == byte_of_u32(a, 0) && buf@[1] == byte_of_u32(a, 1),
                buf@[2] == byte_of_u32(a, 2) && buf@[3] == byte_of_u32(a, 3),
                buf@[4] == byte_of_u16(f2, 0) && buf@[5] == byte_of_u16(f2, 1),
                buf@[6] == byte_of_u16(f3, 0) && buf@[7] == byte_of_u16(f3, 1),
                forall|j: int| 0 <= j < i ==> buf@[8 + j] == self.fd@[j],
            decreases 40 - i,
        {
            buf[8 + i] = self.fd[i];
            i = i + 1;
        }
        assert(buf@ =~= union_bytes(self@));
        buf
    }

    /// The union region decoded as the payload of this record's type: building,
    /// scenery or general records get their structure, all others the raw bytes.
    pub fn payload(&self) -> (p: ThingPayload)
        ensures
            payload_decodes(p, self@.model, union_bytes(self@)),
    {
        let buf = self.union_region();
        match self.model_type() {
            Some(ModelType::Building) => ThingPayload::Building(BuildingSave::from_bytes(&buf)),
            Some(ModelType::Scenery) => ThingPayload::Scenery(ScenerySave::from_bytes(&buf)),
            Some(ModelType::General) => ThingPayload::General(GeneralSave::from_bytes(&buf)),
            _ => ThingPayload::Other(buf),
        }
    }

    /// The union region decoded as a trigger, whatever the type byte says.
    pub fn as_trigger(&self) -> (t: TriggerSave)
        ensures
            trigger_decodes(t, union_bytes(self@)),
    {
        let buf = self.union_region();
        TriggerSave::from_bytes(&buf)
    }
}

/// The union region interpreted by type byte.
#[derive(Debug, Clone, Copy)]
pub enum ThingPayload {
    Building(BuildingSave),
    Scenery(ScenerySave),
    General(GeneralSave),
    /// Raw bytes: triggers (decode with `as_trigger`) and types without a structured payload.
    Other([u8; 48]),
}

/// `p` is the payload a record of type byte `model` with union bytes `buf` holds:
/// building (2), scenery (5) and general (6) records are decoded, all others
/// keep the raw bytes.
pub open spec fn payload_decodes(p: ThingPayload, model: u8, buf: Seq<u8>) -> bool {
    if model == 2 {
        p == ThingPayload::Building(building_of(buf))
    } else if model == 5 {
        p == ThingPayload::Scenery(scenery_of(buf))
    } else if model == 6 {
        p == ThingPayload::General(general_of(buf))
    } else {
        p matches ThingPayload::Other(b) && b@ == buf
    }
}

/// Building payload: the angle.
#[derive(Debug, Clone, Copy)]
pub struct BuildingSave {
    pub angle: i32,
}

/// The building record of a record's union bytes.
pub open spec fn building_of(buf: Seq<u8>) -> BuildingSave {
    BuildingSave { angle: le_u32(buf[0], buf[1], buf[2], buf[3]) as i32 }
}

impl BuildingSave {
    fn from_bytes(buf: &[u8; 48]) -> (s: Self)
        ensures
            s == building_of(buf@),
    {
        BuildingSave { angle: read_u32(buf[0], buf[1], buf[2], buf[3]) as i32 }
    }
}

/// Scenery payload.
#[derive(Debug, Clone, Copy)]
pub struct ScenerySave {
    pub portal_status: u8,
    pub portal_level: u8,
    pub portal_type: u8,
    pub angle: i16,
    pub user_id: u8,
    pub island_alt: i16,
    pub island_num: u8,
    pub bridge_num: u8,
}

/// The scenery record of a record's union bytes.
pub open spec fn scenery_of(buf: Seq<u8>) -> ScenerySave {
    ScenerySave {
        portal_status: buf[0],
        portal_level: buf[1],
        portal_type: buf[2],
        angle: le_u16(buf[3], buf[4]) as i16,
        user_id: buf[5],
        island_alt: le_u16(buf[6], buf[7]) as i16,
        island_num: buf[8],
        bridge_num: buf[9],
    }
}

impl ScenerySave {
    fn from_bytes(buf: &[u8; 48]) -> (s: Self)
        ensures
            s == scenery_of(buf@),
    {
        ScenerySave {
            portal_status: buf[0],
            portal_level: buf[1],
            portal_type: buf[2],
            angle: read_u16(buf[3], buf[4]) as i16,
            user_id: buf[5],
            island_alt: read_u16(buf[6], buf[7]) as i16,
            island_num: buf[8],
            bridge_num: buf[9],
        }
    }
}

/// General payload (discoveries, mana).
#[derive(Debug, Clone, Copy)]
pub struct GeneralSave {
    pub discovery_type: u8,
    pub discovery_model: u8,
    pub availability_type: u8,
    pub trigger_type: u8,
    pub mana_amt: i32,
}

/// The general record of a record's union bytes.
pub open spec fn general_of(buf: Seq<u8>) -> GeneralSave {
    GeneralSave {
        discovery_type: buf[0],
        discovery_model: buf[1],
        availability_type: buf[2],
        trigger_type: buf[3],
        mana_amt: le_u32(buf[4], buf[5], buf[6], buf[7]) as i32,
    }
}

impl GeneralSave {
    fn from_bytes(buf: &[u8; 48]) -> (s: Self)
        ensures
            s == general_of(buf@),
    {
        GeneralSave {
            discovery_type: buf[0],
            discovery_model: buf[1],
            availability_type: buf[2],
            trigger_type: buf[3],
            mana_amt: read_u32(buf[4], buf[5], buf[6], buf[7]) as i32,
        }
    }
}

/// Trigger payload.
#[derive(Debug, Clone, Copy)]
pub struct TriggerSave {
    pub trigger_type: u8,
    pub cell_radius: u8,
    pub random_value: u8,
    pub num_occurences: i8,
    pub trigger_count: u16,
    pub thing_idxs: [u16; 10],
    pub pray_time: i16,
    pub start_inactive: u8,
    pub create_player_owned: u8,
    pub inactive_time: i16,
}

/// The referenced object indices of a trigger: ten little-endian words from byte 6.
pub open spec fn trigger_things(buf: Seq<u8>) -> Seq<u16> {
    Seq::new(10, |i: int| le_u16(buf[6 + 2 * i], buf[7 + 2 * i]))
}

/// `t` is the trigger that union bytes `buf` encode.
pub open spec fn trigger_decodes(t: TriggerSave, buf: Seq<u8>) -> bool {
    &&& t.trigger_type == buf[0]
    &&& t.cell_radius == buf[1]
    &&& t.random_value == buf[2]
    &&& t.num_occurences == buf[3] as i8
    &&& t.trigger_count == le_u16(buf[4], buf[5])
    &&& t.thing_idxs@ == trigger_things(buf)
    &&& t.pray_time == le_u16(buf[26], buf[27]) as i16
    &&& t.start_inactive == buf[28]
    &&& t.create_player_owned == buf[29]
    &&& t.inactive_time == le_u16(buf[30], buf[31]) as i16
}

impl TriggerSave {
    fn from_bytes(buf: &[u8; 48]) -> (s: Self)
        ensures
            trigger_decodes(s, buf@),
    {
        let mut thing_idxs = [0u16; 10];
        let mut i: usize = 0;
        while i < 10
            invariant
                0 <= i <= 10,
                forall|j: int| 0 <= j < i ==> thing_idxs@[j] == le_u16(buf@[6 + 2 * j], buf@[7 + 2 * j]),
            decreases 10 - i,
        {
            let o = 6 + i * 2;
            thing_idxs[i] = read_u16(buf[o], buf[o + 1]);
            i = i + 1;
        }
        assert(thing_idxs@ =~= trigger_things(buf@));
        TriggerSave {
            trigger_type: buf[0],
            cell_radius: buf[1],
            random_value: buf[2],
            num_occurences: buf[3] as i8,
            trigger_count: read_u16(buf[4], buf[5]),
            thing_idxs,
            pray_time: read_u16(buf[26], buf[27]) as i16,
            start_inactive: buf[28],
            create_player_owned: buf[29],
            inactive_time: read_u16(buf[30], buf[31]) as i16,
        }
    }
}

/// Per-player start record of a level (16 bytes, one per tribe slot).
#[derive(Debug, Copy, Clone)]
pub struct PlayerSaveInfo {
    pub start_pos_x: i16,
    pub start_pos_y: i16,
    pub _future1: i32,
    pub _future2: i32,
    pub _future3: i32,
}

impl PlayerSaveInfo {
    /// Read a record from its 16 on-disk bytes (little-endian fields).
    pub fn from_bytes(b: &[u8; 16]) -> (p: Self)
        ensures
            p.start_pos_x == le_u16(b@[0], b@[1]) as i16,
            p.start_pos_y == le_u16(b@[2], b@[3]) as i16,
            p._future1 == le_u32(b@[4], b@[5], b@[6], b@[7]) as i32,
            p._future2 == le_u32(b@[8], b@[9], b@[10], b@[11]) as i32,
            p._future3 == le_u32(b@[12], b@[13], b@[14], b@[15]) as i32,
    {
        PlayerSaveInfo {
            start_pos_x: read_u16(b[0], b[1]) as i16,
            start_pos_y: read_u16(b[2], b[3]) as i16,
            _future1: read_u32(b[4], b[5], b[6], b[7]) as i32,
            _future2: read_u32(b[8], b[9], b[10], b[11]) as i32,
            _future3: read_u32(b[12], b[13], b[14], b[15]) as i32,
        }
    }
}

/// 3D object index of a completed building. Huts use three consecutive indices
/// per tribe (small, medium, large), other buildings one index per tribe in
/// blocks of four; the vault (subtype 18) ignores the owner, everything else
/// needs an owner in 0..=3.
pub open spec fn building_index(subtype: u8, owner: Option<u8>) -> Option<usize> {
    if subtype == 18 {
        Some(190)
    } else if owner is None || owner->0 >= 4 {
        None
    } else {
        let t = owner->0 as usize;
        if subtype == 1 {
            Some((145 + t * 3) as usize)
        } else if subtype == 2 {
            Some((146 + t * 3) as usize)
        } else if subtype == 3 {
            Some((147 + t * 3) as usize)
        } else if subtype == 4 {
            Some((117 + t) as usize)
        } else if subtype == 5 {
            Some((133 + t) as usize)
        } else if subtype == 6 {
            Some((129 + t) as usize)
        } else if subtype == 7 {
            Some((141 + t) as usize)
        } else if subtype == 8 {
            Some((137 + t) as usize)
        } else if subtype == 13 {
            Some((121 + t) as usize)
        } else if subtype == 15 {
            Some((125 + t) as usize)
        } else {
            None
        }
    }
}

/// 3D object index of a scenery subtype.
pub open spec fn scenery_index(subtype: u8) -> Option<usize> {
    if subtype == 1 {
        Some(13)
    } else if subtype == 2 {
        Some(14)
    } else if subtype == 3 {
        Some(15)
    } else if subtype == 4 {
        Some(16)
    } else if subtype == 5 {
        Some(17)
    } else if subtype == 6 {
        Some(18)
    } else if subtype == 7 {
        Some(2)
    } else if subtype == 8 {
        Some(3)
    } else if subtype == 9 {
        Some(45)
    } else if subtype == 10 {
        Some(5)
    } else if subtype == 11 {
        Some(23)
    } else if subtype == 12 {
        Some(30)
    } else if subtype == 14 {
        Some(26)
    } else if subtype == 15 {
        Some(12)
    } else if subtype == 16 {
        Some(18)
    } else if subtype == 18 {
        Some(44)
    } else if subtype == 19 {
        Some(39)
    } else {
        None
    }
}

/// 3D object index of a completed building for an owner.
pub fn building_obj_index(subtype: u8, owner: Option<u8>) -> (r: Option<usize>)
    ensures
        r == building_index(subtype, owner),
{
    if subtype == 18 {
        return Some(190);
    }
    let tribe: usize = match owner {
        Some(t) => {
            if t < 4 {
                t as usize
            } else {
                return None;
            }
        },
        None => {
            return None;
        },
    };
    match subtype {
        1 => Some(145 + tribe * 3),
        2 => Some(146 + tribe * 3),
        3 => Some(147 + tribe * 3),
        4 => Some(117 + tribe),
        5 => Some(133 + tribe),
        6 => Some(129 + tribe),
        7 => Some(141 + tribe),
        8 => Some(137 + tribe),
        13 => Some(121 + tribe),
        15 => Some(125 + tribe),
        _ => None,
    }
}

/// 3D object index of a scenery object.
pub fn scenery_obj_index(subtype: u8) -> (r: Option<usize>)
    ensures
        r == scenery_index(subtype),
{
    match subtype {
        1 => Some(13),
        2 => Some(14),
        3 => Some(15),
        4 => Some(16),
        5 => Some(17),
        6 => Some(18),
        7 => Some(2),
        8 => Some(3),
        9 => Some(45),
        10 => Some(5),
        11 => Some(23),
        12 => Some(30),
        14 => Some(26),
        15 => Some(12),
        16 => Some(18),
        18 => Some(44),
        19 => Some(39),
        _ => None,
    }
}

/// 3D object index of any model type and subtype: buildings and scenery only.
pub fn object_3d_index(model_type: &ModelType, subtype: u8, owner: Option<u8>) -> (r: Option<usize>)
    ensures
        *model_type == ModelType::Building ==> r == building_index(subtype, owner),
        *model_type == ModelType::Scenery ==> r == scenery_index(subtype),
        *model_type != ModelType::Building && *model_type != ModelType::Scenery ==> r is None,
{
    match model_type {
        ModelType::Building => building_obj_index(subtype, owner),
        ModelType::Scenery => scenery_obj_index(subtype),
        _ => None,
    }
}

/// Distinct tribes get distinct huts: for each tribed building the index is
/// one-to-one in the owner.
pub proof fn lemma_building_index_per_tribe(subtype: u8, a: u8, b: u8)
    requires
        a < 4,
        b < 4,
        a != b,
        building_index(subtype, Some(a)) is Some,
        subtype != 18,
    ensures
        building_index(subtype, Some(a)) != building_index(subtype, Some(b)),
{
}

/// The model of each completed building, for an owner tribe `t` in 0..=3:
/// small, medium and large huts take three consecutive indices per tribe
/// from 145, 146 and 147; a drum tower is 117 + t, a temple 133 + t, a spy
/// training hut 129 + t, a warrior training hut 141 + t, a super warrior
/// training hut 137 + t, subtype 13 is 121 + t and subtype 15 is 125 + t; the
/// vault (18) is 190 whoever owns it. Any other subtype, and any building but
/// the vault without an owner in 0..=3, has no model.
pub proof fn lemma_building_index_table(subtype: u8, t: u8, owner: Option<u8>)
    ensures
        t < 4 ==> building_index(1, Some(t)) == Some((145 + 3 * t) as usize),
        t < 4 ==> building_index(2, Some(t)) == Some((146 + 3 * t) as usize),
        t < 4 ==> building_index(3, Some(t)) == Some((147 + 3 * t) as usize),
        t < 4 ==> building_index(4, Some(t)) == Some((117 + t) as usize),
        t < 4 ==> building_index(5, Some(t)) == Some((133 + t) as usize),
        t < 4 ==> building_index(6, Some(t)) == Some((129 + t) as usize),
        t < 4 ==> building_index(7, Some(t)) == Some((141 + t) as usize),
        t < 4 ==> building_index(8, Some(t)) == Some((137 + t) as usize),
        t < 4 ==> building_index(13, Some(t)) == Some((121 + t) as usize),
        t < 4 ==> building_index(15, Some(t)) == Some((125 + t) as usize),
        building_index(18, owner) == Some(190usize),
        !(1 <= subtype <= 8 || subtype == 13 || subtype == 15 || subtype == 18) ==> building_index(subtype, owner)
            is None,
        subtype != 18 && (owner is None || owner->0 >= 4) ==> building_index(subtype, owner) is None,
{
}

/// The model of each scenery subtype: 1 to 6 take 13 to 18, 7 takes 2, 8
/// takes 3, 9 takes 45, 10 takes 5, 11 takes 23, 12 takes 30, 14 takes 26, 15
/// takes 12, 16 shares 18 with subtype 6, 18 takes 44 and 19 takes 39; 0, 13,
/// 17 and anything above 19 have no model.
pub proof fn lemma_scenery_index_table(subtype: u8)
    ensures
        1 <= subtype <= 6 ==> scenery_index(subtype) == Some((12 + subtype) as usize),
        scenery_index(7) == Some(2usize) && scenery_index(8) == Some(3usize),
        scenery_index(9) == Some(45usize) && scenery_index(10) == Some(5usize),
        scenery_index(11) == Some(23usize) && scenery_index(12) == Some(30usize),
        scenery_index(14) == Some(26usize) && scenery_index(15) == Some(12usize),
        scenery_index(16) == Some(18usize) && scenery_index(18) == Some(44usize),
        scenery_index(19) == Some(39usize),
        subtype == 0 || subtype == 13 || subtype == 17 || subtype > 19 ==> scenery_index(subtype) is None,
{
}

/// Different buildings, or the same building of different tribes, never share
/// a model.
pub proof fn lemma_building_index_injective(s1: u8, o1: Option<u8>, s2: u8, o2: Option<u8>)
    requires
        building_index(s1, o1) is Some,
        building_index(s2, o2) is Some,
        s1 != 18,
        s2 != 18,
        s1 != s2 || o1 != o2,
    ensures
        building_index(s1, o1) != building_index(s2, o2),
{
}

/// Each field of a record sits at its own offset of the 55 bytes: subtype at
/// 0, type at 1, owner at 2, x at 3-4, z at 5-6, then the union from byte 7.
/// Read as a trigger, the union gives the trigger type at byte 7, cell radius
/// at 8, random value at 9, occurrence count at 10, trigger count at 11-12, the
/// ten object indices at 13-32, prayer time at 33-34, start-inactive at 35,
/// create-player-owned at 36 and inactive time at 37-38.
pub proof fn lemma_trigger_record_offsets(b: Seq<u8>, t: TriggerSave, i: int)
    requires
        b.len() == 55,
        trigger_decodes(t, union_bytes(record_of_bytes(b))),
    ensures
        record_of_bytes(b).subtype == b[0],
        record_of_bytes(b).model == b[1],
        record_of_bytes(b).tribe_index == b[2],
        record_of_bytes(b).loc_x == b[3] as int + 256 * b[4] as int,
        record_of_bytes(b).loc_y == b[5] as int + 256 * b[6] as int,
        t.trigger_type == b[7],
        t.cell_radius == b[8],
        t.random_value == b[9],
        t.num_occurences == b[10] as i8,
        t.trigger_count == b[11] as int + 256 * b[12] as int,
        0 <= i < 10 ==> t.thing_idxs@[i] == b[13 + 2 * i] as int + 256 * b[14 + 2 * i] as int,
        t.pray_time as u16 == b[33] as int + 256 * b[34] as int,
        t.start_inactive == b[35],
        t.create_player_owned == b[36],
        t.inactive_time as u16 == b[37] as int + 256 * b[38] as int,
{
    lemma_union_is_record_tail(b);
    let u = union_bytes(record_of_bytes(b));
    assert(u[28] == b[35]);
    assert(u[29] == b[36]);
    lemma_le_u16_value(b[3], b[4]);
    lemma_le_u16_value(b[5], b[6]);
    lemma_le_u16_value(b[11], b[12]);
    lemma_le_u16_value(b[33], b[34]);
    lemma_le_u16_value(b[37], b[38]);
    lemma_i16_roundtrip(le_u16(b[33], b[34]));
    lemma_i16_roundtrip(le_u16(b[37], b[38]));
    if 0 <= i < 10 {
        assert(u[6 + 2 * i] == b[13 + 2 * i]);
        assert(u[7 + 2 * i] == b[14 + 2 * i]);
        lemma_le_u16_value(b[13 + 2 * i], b[14 + 2 * i]);
    }
}

/// Read as scenery, the union gives portal status, level and type at bytes 7,
/// 8 and 9, the angle at 10-11, the user id at 12, the island altitude at
/// 13-14, the island number at 15 and the bridge number at 16; read as a
/// general record, discovery type, model, availability and trigger type at
/// 7 to 10 and the mana amount at 11-14; read as a building, the angle at 7-10.
pub proof fn lemma_payload_record_offsets(b: Seq<u8>)
    requires
        b.len() == 55,
    ensures
        scenery_of(union_bytes(record_of_bytes(b))).portal_status == b[7],
        scenery_of(union_bytes(record_of_bytes(b))).portal_level == b[8],
        scenery_of(union_bytes(record_of_bytes(b))).portal_type == b[9],
        scenery_of(union_bytes(record_of_bytes(b))).angle as u16 == b[10] as int + 256 * b[11] as int,
        scenery_of(union_bytes(record_of_bytes(b))).user_id == b[12],
        scenery_of(union_bytes(record_of_bytes(b))).island_alt as u16 == b[13] as int + 256 * b[14] as int,
        scenery_of(union_bytes(record_of_bytes(b))).island_num == b[15],
        scenery_of(union_bytes(record_of_bytes(b))).bridge_num == b[16],
        general_of(union_bytes(record_of_bytes(b))).discovery_type == b[7],
        general_of(union_bytes(record_of_bytes(b))).discovery_model == b[8],
        general_of(union_bytes(record_of_bytes(b))).availability_type == b[9],
        general_of(union_bytes(record_of_bytes(b))).trigger_type == b[10],
        general_of(union_bytes(record_of_bytes(b))).mana_amt as u32 == b[11] as int + 256 * b[12] as int + 65536
            * b[13] as int + 16777216 * b[14] as int,
        building_of(union_bytes(record_of_bytes(b))).angle as u32 == b[7] as int + 256 * b[8] as int + 65536
            * b[9] as int + 16777216 * b[10] as int,
{
    lemma_union_is_record_tail(b);
    lemma_le_u16_value(b[10], b[11]);
    lemma_le_u16_value(b[13], b[14]);
    lemma_i16_roundtrip(le_u16(b[10], b[11]));
    lemma_i16_roundtrip(le_u16(b[13], b[14]));
    lemma_le_u32_value(b[11], b[12], b[13], b[14]);
    lemma_le_u32_value(b[7], b[8], b[9], b[10]);
    lemma_i32_roundtrip(le_u32(b[11], b[12], b[13], b[14]));
    lemma_i32_roundtrip(le_u32(b[7], b[8], b[9], b[10]));
}

/// A little-endian pair of bytes is the low byte plus 256 times the high byte.
proof fn lemma_le_u16_value(lo: u8, hi: u8)
    ensures
        le_u16(lo, hi) == lo as int + 256 * hi as int,
{
    assert((lo as u16) | ((hi as u16) << 8u16) == (lo as u16) + 256 * (hi as u16)) by (bit_vector);
}

/// Reading 16 bits as signed and back as unsigned gives them back.
proof fn lemma_i16_roundtrip(x: u16)
    ensures
        (x as i16) as u16 == x,
{
    assert((x as i16) as u16 == x) by (bit_vector);
}

/// Reading 32 bits as signed and back as unsigned gives them back.
proof fn lemma_i32_roundtrip(x: u32)
    ensures
        (x as i32) as u32 == x,
{
    assert((x as i32) as u32 == x) by (bit_vector);
}

/// A little-endian run of four bytes is their weighted sum.
proof fn lemma_le_u32_value(b0: u8, b1: u8, b2: u8, b3: u8)
    ensures
        le_u32(b0, b1, b2, b3) == b0 as int + 256 * b1 as int + 65536 * b2 as int + 16777216 * b3 as int,
{
    assert((b0 as u32) | ((b1 as u32) << 8u32) | ((b2 as u32) << 16u32) | ((b3 as u32) << 24u32) == (b0 as u32)
        + 256 * (b1 as u32) + 65536 * (b2 as u32) + 16777216 * (b3 as u32)) by (bit_vector);
}

} // verus!
