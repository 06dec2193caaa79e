//! AI target scoring and threat assessment.
use vstd::prelude::*;

verus! {

pub const SCORE_SHAMAN: i32 = 1000;
pub const SCORE_SUPER_WARRIOR: i32 = 20;
pub const SCORE_PREACHER: i32 = 15;
pub const SCORE_WARRIOR: i32 = 10;
pub const SCORE_SPY: i32 = 5;
pub const SCORE_EXPOSED_SHAMAN_BONUS: i32 = 500;
pub const EXPOSED_SHAMAN_DEFENDER_THRESHOLD: u32 = 3;

pub const SCORE_BUILDING_SUPER_TRAIN: i32 = 250;
pub const SCORE_BUILDING_TEMPLE: i32 = 200;
pub const SCORE_BUILDING_WARRIOR_TRAIN: i32 = 180;
pub const SCORE_BUILDING_DRUM_TOWER: i32 = 150;
pub const SCORE_BUILDING_DEFAULT: i32 = 50;

pub const DISTANCE_PENALTY_DIVISOR: i32 = 100;

pub const THREAT_SHAMAN: i32 = 50;
pub const THREAT_SUPER_WARRIOR: i32 = 20;
pub const THREAT_PREACHER: i32 = 15;
pub const THREAT_WARRIOR: i32 = 10;
pub const THREAT_SPY: i32 = 5;

pub const SUBTYPE_BRAVE: u8 = 2;
pub const SUBTYPE_WARRIOR: u8 = 3;
pub const SUBTYPE_PREACHER: u8 = 4;
pub const SUBTYPE_SPY: u8 = 5;
pub const SUBTYPE_SUPER_WARRIOR: u8 = 6;
pub const SUBTYPE_SHAMAN: u8 = 7;

pub const BLDG_DRUM_TOWER: u8 = 4;
pub const BLDG_TEMPLE: u8 = 5;
pub const BLDG_SPY_TRAIN: u8 = 6;
pub const BLDG_WARRIOR_TRAIN: u8 = 7;
pub const BLDG_SUPER_TRAIN: u8 = 8;

/// Integer division rounding toward zero, as the machine divides.
pub open spec fn div_toward_zero(a: int, d: int) -> int {
    if a >= 0 {
        a / d
    } else {
        -((-a) / d)
    }
}

/// Base attack value of a person subtype.
pub open spec fn person_base_score(subtype: u8) -> int {
    if subtype == SUBTYPE_SHAMAN {
        SCORE_SHAMAN as int
    } else if subtype == SUBTYPE_SUPER_WARRIOR {
        SCORE_SUPER_WARRIOR as int
    } else if subtype == SUBTYPE_PREACHER {
        SCORE_PREACHER as int
    } else if subtype == SUBTYPE_WARRIOR {
        SCORE_WARRIOR as int
    } else if subtype == SUBTYPE_SPY {
        SCORE_SPY as int
    } else {
        0
    }
}

/// Attack score of an enemy person: base value, plus a bonus for a shaman with
/// fewer than three defenders nearby, minus one point per hundred units of
/// distance, never below zero.
pub open spec fn person_target_score(subtype: u8, nearby_defenders: u32, distance: i32) -> int {
    let bonus: int = if subtype == SUBTYPE_SHAMAN && nearby_defenders < EXPOSED_SHAMAN_DEFENDER_THRESHOLD {
        SCORE_EXPOSED_SHAMAN_BONUS as int
    } else {
        0
    };
    let raw = person_base_score(subtype) + bonus - div_toward_zero(distance as int, DISTANCE_PENALTY_DIVISOR as int);
    if raw < 0 { 0 } else { raw }
}

/// Base attack value of a building subtype.
pub open spec fn building_base_score(subtype: u8) -> int {
    if subtype == BLDG_SUPER_TRAIN {
        SCORE_BUILDING_SUPER_TRAIN as int
    } else if subtype == BLDG_TEMPLE {
        SCORE_BUILDING_TEMPLE as int
    } else if subtype == BLDG_WARRIOR_TRAIN {
        SCORE_BUILDING_WARRIOR_TRAIN as int
    } else if subtype == BLDG_DRUM_TOWER {
        SCORE_BUILDING_DRUM_TOWER as int
    } else {
        SCORE_BUILDING_DEFAULT as int
    }
}

/// Attack score of an enemy building: base value minus one point per hundred
/// units of distance, never below zero.
pub open spec fn building_target_score(subtype: u8, distance: i32) -> int {
    let raw = building_base_score(subtype) - div_toward_zero(distance as int, DISTANCE_PENALTY_DIVISOR as int);
    if raw < 0 { 0 } else { raw }
}

/// Threat weight of one unit of a person subtype.
pub open spec fn threat_weight(subtype: u8) -> int {
    if subtype == SUBTYPE_SHAMAN {
        THREAT_SHAMAN as int
    } else if subtype == SUBTYPE_SUPER_WARRIOR {
        THREAT_SUPER_WARRIOR as int
    } else if subtype == SUBTYPE_PREACHER {
        THREAT_PREACHER as int
    } else if subtype == SUBTYPE_WARRIOR {
        THREAT_WARRIOR as int
    } else if subtype == SUBTYPE_SPY {
        THREAT_SPY as int
    } else {
        0
    }
}

/// Threat of one `(subtype, count)` entry; the count is read as a signed 32-bit value.
pub open spec fn threat_term(e: (u8, u32)) -> int {
    threat_weight(e.0) * ((e.1 as i32) as int)
}

/// Total threat of a list of `(subtype, count)` entries.
pub open spec fn threat_total(s: Seq<(u8, u32)>) -> int
    decreases s.len(),
{
    if s.len() == 0 {
        0
    } else {
        threat_total(s.drop_last()) + threat_term(s.last())
    }
}

/// Every term and every running sum of the threat total fits in an `i32`.
pub open spec fn threat_fits(s: Seq<(u8, u32)>) -> bool {
    &&& forall|i: int| 0 <= i < s.len() ==> i32::MIN <= #[trigger] threat_term(s[i]) <= i32::MAX
    &&& forall|k: int| 0 <= k <= s.len() ==> i32::MIN <= #[trigger] threat_total(s.take(k)) <= i32::MAX
}

fn person_base(subtype: u8) -> (r: i32)
    ensures
        r == person_base_score(subtype),
{
    match subtype {
        SUBTYPE_SHAMAN => SCORE_SHAMAN,
        SUBTYPE_SUPER_WARRIOR => SCORE_SUPER_WARRIOR,
        SUBTYPE_PREACHER => SCORE_PREACHER,
        SUBTYPE_WARRIOR => SCORE_WARRIOR,
        SUBTYPE_SPY => SCORE_SPY,
        _ => 0,
    }
}

/// Distance penalty, rounding toward zero.
fn distance_penalty(distance: i32) -> (r: i32)
    ensures
        r == div_toward_zero(distance as int, DISTANCE_PENALTY_DIVISOR as int),
        -21474837 <= r <= 21474837,
{
    if distance >= 0 {
        distance / DISTANCE_PENALTY_DIVISOR
    } else {
        let pos: i64 = -(distance as i64);
        let q: i64 = pos / 100;
        assert(q <= 21474837);
        -(q as i32)
    }
}

/// Score an enemy person as an attack target.
pub fn score_person_target(subtype: u8, nearby_defenders: u32, distance: i32) -> (r: i32)
    ensures
        r == person_target_score(subtype, nearby_defenders, distance),
        r >= 0,
{
    let base = person_base(subtype);
    let bonus = if subtype == SUBTYPE_SHAMAN && nearby_defenders < EXPOSED_SHAMAN_DEFENDER_THRESHOLD {
        SCORE_EXPOSED_SHAMAN_BONUS
    } else {
        0
    };
    let raw = base + bonus - distance_penalty(distance);
    if raw < 0 { 0 } else { raw }
}

/// Score an enemy building as an attack target.
pub fn score_building_target(building_subtype: u8, distance: i32) -> (r: i32)
    ensures
        r == building_target_score(building_subtype, distance),
        r >= 0,
{
    let base = match building_subtype {
        BLDG_SUPER_TRAIN => SCORE_BUILDING_SUPER_TRAIN,
        BLDG_TEMPLE => SCORE_BUILDING_TEMPLE,
        BLDG_WARRIOR_TRAIN => SCORE_BUILDING_WARRIOR_TRAIN,
        BLDG_DRUM_TOWER => SCORE_BUILDING_DRUM_TOWER,
        _ => SCORE_BUILDING_DEFAULT,
    };
    let raw = base - distance_penalty(distance);
    if raw < 0 { 0 } else { raw }
}

fn threat_of(subtype: u8) -> (r: i32)
    ensures
        r == threat_weight(subtype),
{
    match subtype {
        SUBTYPE_SHAMAN => THREAT_SHAMAN,
        SUBTYPE_SUPER_WARRIOR => THREAT_SUPER_WARRIOR,
        SUBTYPE_PREACHER => THREAT_PREACHER,
        SUBTYPE_WARRIOR => THREAT_WARRIOR,
        SUBTYPE_SPY => THREAT_SPY,
        _ => 0,
    }
}

/// Sum of per-subtype threat weight times unit count.
pub fn assess_threat(unit_counts: &[(u8, u32)]) -> (r: i32)
    requires
        threat_fits(unit_counts@),
    ensures
        r == threat_total(unit_counts@),
{
    let mut total: i32 = 0;
    let n = unit_counts.len();
    let mut i: usize = 0;
    assert(unit_counts@.take(0) =~= Seq::<(u8, u32)>::empty());
    while i < n
        invariant
            n == unit_counts@.len(),
            0 <= i <= n,
            threat_fits(unit_counts@),
            total == threat_total(unit_counts@.take(i as int)),
        decreases n - i,
    {
        let (subtype, count) = unit_counts[i];
        let weight = threat_of(subtype);
        assert(i32::MIN <= threat_term(unit_counts@[i as int]) <= i32::MAX);
        let term = weight * (count as i32);
        assert(unit_counts@.take(i + 1).drop_last() =~= unit_counts@.take(i as int));
        assert(unit_counts@.take(i + 1).last() == unit_counts@[i as int]);
        assert(i32::MIN <= threat_total(unit_counts@.take(i + 1)) <= i32::MAX);
        total = total + term;
        i = i + 1;
    }
    assert(unit_counts@.take(n as int) =~= unit_counts@);
    total
}

/// `x`, or zero when `x` is negative.
pub open spec fn floor_at_zero(x: int) -> int {
    if x < 0 { 0 } else { x }
}

/// A building's score at any distance: 250 for a super warrior training
/// hut (subtype 8), 200 for a temple (5), 180 for a warrior training hut (7), 150
/// for a drum tower (4) and 50 for every other subtype, less one point per
/// hundred units of distance (rounded toward zero), never below zero.
pub proof fn lemma_building_score_table(subtype: u8, distance: i32)
    ensures
        building_target_score(8, distance) == floor_at_zero(250 - div_toward_zero(distance as int, 100)),
        building_target_score(5, distance) == floor_at_zero(200 - div_toward_zero(distance as int, 100)),
        building_target_score(7, distance) == floor_at_zero(180 - div_toward_zero(distance as int, 100)),
        building_target_score(4, distance) == floor_at_zero(150 - div_toward_zero(distance as int, 100)),
        subtype != 4 && subtype != 5 && subtype != 7 && subtype != 8 ==> building_target_score(subtype, distance)
            == floor_at_zero(50 - div_toward_zero(distance as int, 100)),
{
}

/// At equal distance the AI prefers a super warrior training hut to a temple,
/// a temple to a warrior training hut, that to a drum tower, and a drum tower
/// to any other building; and a building never scores higher further away.
pub proof fn lemma_building_score_order(subtype: u8, near: i32, far: i32)
    ensures
        building_target_score(8, near) >= building_target_score(5, near),
        building_target_score(5, near) >= building_target_score(7, near),
        building_target_score(7, near) >= building_target_score(4, near),
        subtype != 4 && subtype != 5 && subtype != 7 && subtype != 8 ==> building_target_score(4, near)
            >= building_target_score(subtype, near),
        0 <= near <= far ==> building_target_score(subtype, far) <= building_target_score(subtype, near),
{
    if 0 <= near <= far {
        assert(near as int / 100 <= far as int / 100) by (nonlinear_arith)
            requires
                0 <= near <= far,
        ;
    }
}

/// A person's score at any distance: 1000 for a shaman (subtype 7), plus 500
/// when fewer than three defenders are near it, 20 for a super warrior (6), 15
/// for a preacher (4), 10 for a warrior (3), 5 for a spy (5) and nothing for
/// any other subtype, less one point per hundred units of distance (rounded
/// toward zero), never below zero.
pub proof fn lemma_person_score_table(subtype: u8, defenders: u32, distance: i32)
    ensures
        person_target_score(7, defenders, distance) == floor_at_zero(
            1000 + (if defenders < 3 { 500int } else { 0int }) - div_toward_zero(distance as int, 100),
        ),
        person_target_score(6, defenders, distance) == floor_at_zero(20 - div_toward_zero(distance as int, 100)),
        person_target_score(4, defenders, distance) == floor_at_zero(15 - div_toward_zero(distance as int, 100)),
        person_target_score(3, defenders, distance) == floor_at_zero(10 - div_toward_zero(distance as int, 100)),
        person_target_score(5, defenders, distance) == floor_at_zero(5 - div_toward_zero(distance as int, 100)),
        subtype < 3 || subtype > 7 ==> person_target_score(subtype, defenders, distance) == floor_at_zero(
            0 - div_toward_zero(distance as int, 100),
        ),
{
}

/// The threat of a list is the sum of its entries' threats, each the count
/// times 50 for shamans (subtype 7), 20 for super warriors (6), 15 for
/// preachers (4), 10 for warriors (3), 5 for spies (5) and 0 otherwise.
pub proof fn lemma_threat_is_sum(a: Seq<(u8, u32)>, b: Seq<(u8, u32)>, e: (u8, u32))
    ensures
        threat_total(a + b) == threat_total(a) + threat_total(b),
        threat_total(seq![e]) == (if e.0 == 7 {
            50int
        } else if e.0 == 6 {
            20int
        } else if e.0 == 4 {
            15int
        } else if e.0 == 3 {
            10int
        } else if e.0 == 5 {
            5int
        } else {
            0int
        }) * ((e.1 as i32) as int),
    decreases b.len(),
{
    assert(seq![e].drop_last() =~= Seq::<(u8, u32)>::empty());
    assert(seq![e].last() == e);
    assert(threat_total(Seq::<(u8, u32)>::empty()) == 0);
    assert(threat_total(seq![e]) == threat_total(seq![e].drop_last()) + threat_term(seq![e].last()));
    assert(threat_term(e) == threat_weight(e.0) * ((e.1 as i32) as int));
    if b.len() > 0 {
        lemma_threat_is_sum(a, b.drop_last(), e);
        assert((a + b).drop_last() =~= a + b.drop_last());
        assert((a + b).last() == b.last());
    } else {
        assert(a + b =~= a);
    }
}

} // verus!
