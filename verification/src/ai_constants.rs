//! The constants the AI scripts see as globals: named tables, numbered
//! families such as `INT_MARKER_0` to `INT_MARKER_255`, the named radii and the
//! per-tribe spell charge states, in the order they are registered (a later
//! entry with the same name replaces an earlier one). Also the names of the
//! script functions that are registered as stubs.
use vstd::prelude::*;
use crate::text::{decimal, lemma_decimal_digits_injective, push_decimal_i64};
use crate::decompiler::tokens::str_eq;

verus! {

/// A constant as plain values: its name and value.
pub open spec fn table_entries(t: Seq<(&'static str, i32)>) -> Seq<(Seq<char>, i32)> {
    t.map_values(|e: (&'static str, i32)| (e.0@, e.1))
}

/// Registered constants as plain values.
pub open spec fn entries_view(v: Seq<(String, i32)>) -> Seq<(Seq<char>, i32)> {
    v.map_values(|e: (String, i32)| (e.0@, e.1))
}

/// The family `prefix + i` with value `base + i`, for `i` from `lo` below `hi`.
pub open spec fn family(prefix: Seq<char>, lo: int, hi: int, base: int) -> Seq<(Seq<char>, i32)>
    decreases hi - lo,
{
    if hi <= lo {
        Seq::empty()
    } else {
        family(prefix, lo, hi - 1, base).push((prefix + decimal(hi - 1), (base + hi - 1) as i32))
    }
}

/// `RADIUS_r` with value `r` for each named radius.
pub open spec fn radius_entries() -> Seq<(Seq<char>, i32)> {
    RADII@.map_values(|r: i32| ("RADIUS_"@ + decimal(r as int), r))
}

/// `TRIBE_SPELL_NAME_CHARGE` with value `21 * tribe + spell`, for the tribes below `t`.
pub open spec fn charge_entries(t: int) -> Seq<(Seq<char>, i32)>
    decreases t,
{
    if t <= 0 {
        Seq::empty()
    } else {
        charge_entries(t - 1) + Seq::new(
            21,
            |s: int| (CHARGE_TRIBES@[t - 1]@ + "_SPELL_"@ + CHARGE_SPELLS@[s]@ + "_CHARGE"@, (21 * (t - 1) + s) as i32),
        )
    }
}

/// Value of the last entry named `name`, the one that takes effect.
pub open spec fn last_value(s: Seq<(Seq<char>, i32)>, name: Seq<char>) -> Option<i32>
    decreases s.len(),
{
    if s.len() == 0 {
        None
    } else if s.last().0 == name {
        Some(s.last().1)
    } else {
        last_value(s.drop_last(), name)
    }
}

fn push_table(out: &mut Vec<(String, i32)>, t: &[(&'static str, i32)])
    ensures
        entries_view(final(out)@) == entries_view(old(out)@) + table_entries(t@),
{
    let n = t.len();
    let mut i: usize = 0;
    while i < n
        invariant
            n == t@.len(),
            0 <= i <= n,
            entries_view(out@) == entries_view(old(out)@) + table_entries(t@.take(i as int)),
        decreases n - i,
    {
        let (name, value) = t[i];
        let ghost before = out@;
        out.push((String::from_str(name), value));
        assert(table_entries(t@.take(i + 1)) =~= table_entries(t@.take(i as int)).push((name@, value)));
        assert(entries_view(out@) =~= entries_view(before).push((name@, value)));
        i = i + 1;
    }
    assert(t@.take(n as int) =~= t@);
}

fn push_family(out: &mut Vec<(String, i32)>, prefix: &str, lo: i32, hi: i32, base: i32)
    requires
        0 <= lo <= hi,
        base + hi <= i32::MAX,
        0 <= base,
    ensures
        entries_view(final(out)@) == entries_view(old(out)@) + family(prefix@, lo as int, hi as int, base as int),
{
    let mut i: i32 = lo;
    assert(family(prefix@, lo as int, lo as int, base as int) =~= Seq::<(Seq<char>, i32)>::empty());
    assert(entries_view(old(out)@) + Seq::<(Seq<char>, i32)>::empty() =~= entries_view(old(out)@));
    while i < hi
        invariant
            lo <= i <= hi,
            base + hi <= i32::MAX,
            0 <= base,
            entries_view(out@) == entries_view(old(out)@) + family(prefix@, lo as int, i as int, base as int),
        decreases hi - i,
    {
        let mut name = String::from_str(prefix);
        push_decimal_i64(&mut name, i as i64);
        let ghost before = out@;
        out.push((name, base + i));
        assert(entries_view(out@) =~= entries_view(before).push((prefix@ + decimal(i as int), (base + i) as i32)));
        i = i + 1;
    }
}

fn push_radii(out: &mut Vec<(String, i32)>)
    ensures
        entries_view(final(out)@) == entries_view(old(out)@) + radius_entries(),
{
    let radii = RADII;
    let n = radii.len();
    let mut i: usize = 0;
    while i < n
        invariant
            radii@ == RADII@,
            n == radii@.len(),
            0 <= i <= n,
            entries_view(out@) == entries_view(old(out)@) + radius_entries().take(i as int),
        decreases n - i,
    {
        let r = radii[i];
        let mut name = String::from_str("RADIUS_");
        push_decimal_i64(&mut name, r as i64);
        let ghost before = out@;
        out.push((name, r));
        assert(radius_entries().take(i + 1) =~= radius_entries().take(i as int).push(radius_entries()[i as int]));
        assert(entries_view(out@) =~= entries_view(before).push(radius_entries()[i as int]));
        i = i + 1;
    }
    assert(radius_entries().take(n as int) =~= radius_entries());
}

fn push_charges(out: &mut Vec<(String, i32)>)
    ensures
        entries_view(final(out)@) == entries_view(old(out)@) + charge_entries(4),
{
    let tribes = CHARGE_TRIBES;
    let spells = CHARGE_SPELLS;
    let mut t: usize = 0;
    assert(entries_view(old(out)@) + charge_entries(0) =~= entries_view(old(out)@));
    while t < 4
        invariant
            tribes@ == CHARGE_TRIBES@,
            spells@ == CHARGE_SPELLS@,
            0 <= t <= 4,
            entries_view(out@) == entries_view(old(out)@) + charge_entries(t as int),
        decreases 4 - t,
    {
        let ghost at_tribe = entries_view(out@);
        let ghost row = Seq::new(
            21,
            |s: int| (CHARGE_TRIBES@[t as int]@ + "_SPELL_"@ + CHARGE_SPELLS@[s]@ + "_CHARGE"@, (21 * t + s) as i32),
        );
        let mut s: usize = 0;
        while s < 21
            invariant
                tribes@ == CHARGE_TRIBES@,
                spells@ == CHARGE_SPELLS@,
                0 <= t < 4,
                0 <= s <= 21,
                row == Seq::new(
                    21,
                    |s: int| (CHARGE_TRIBES@[t as int]@ + "_SPELL_"@ + CHARGE_SPELLS@[s]@ + "_CHARGE"@, (21 * t + s) as i32),
                ),
                entries_view(out@) == at_tribe + row.take(s as int),
            decreases 21 - s,
        {
            let mut name = String::from_str(tribes[t]);
            name.append("_SPELL_");
            name.append(spells[s]);
            name.append("_CHARGE");
            let value = (t * 21 + s) as i32;
            let ghost before = out@;
            out.push((name, value));
            assert(row.take(s + 1) =~= row.take(s as int).push(row[s as int]));
            assert(entries_view(out@) =~= entries_view(before).push(row[s as int]));
            s = s + 1;
        }
        assert(row.take(21) =~= row);
        assert(charge_entries(t + 1) == charge_entries(t as int) + row);
        assert(at_tribe + row =~= entries_view(old(out)@) + charge_entries(t + 1));
        t = t + 1;
    }
}

/// The constants of the PopScript module, in registration order.
pub open spec fn popscript_constant_entries() -> Seq<(Seq<char>, i32)> {
    table_entries(POPSCRIPT_TYPES@)
        + family("INT_ATTR_"@, 0, 48, 1000)
        + table_entries(POPSCRIPT_INTERNALS@)
        + family("INT_MARKER_"@, 0, 256, 0)
        + table_entries(POPSCRIPT_STATES@)
}

/// The constants of the game defines, in registration order.
pub open spec fn defines_constant_entries() -> Seq<(Seq<char>, i32)> {
    table_entries(DEFINES_GAME@)
        + family("EFFECT_TYPE_"@, 0, 93, 0)
        + table_entries(DEFINES_UNITS_AND_ALIASES@)
        + family("SOUND_"@, 0, 256, 0)
        + family("MSG_"@, 0, 256, 0)
        + family("LEVEL_"@, 1, 26, 0)
        + family("TRIGGER_"@, 0, 256, 0)
        + family("THING_"@, 0, 256, 0)
        + family("WAYPOINT_"@, 0, 256, 0)
        + table_entries(DEFINES_AVAILABILITY@)
        + family("USER_VAR_"@, 0, 64, 0)
        + family("SCRIPT_VAR_"@, 0, 64, 0)
        + radius_entries()
        + family("ANGLE_"@, 0, 256, 0)
        + family("ZOOM_"@, 0, 16, 0)
        + family("INT_POINT_"@, 0, 256, 0)
        + family("TOOLTIP_"@, 0, 128, 0)
        + family("NARRATIVE_"@, 0, 128, 0)
        + charge_entries(4)
        + family("BUCKET_"@, 0, 64, 0)
        + family("GUARD_POST_"@, 0, 64, 0)
}

/// The PopScript module's constants, in registration order.
pub fn popscript_constants() -> (r: Vec<(String, i32)>)
    ensures
        entries_view(r@) == popscript_constant_entries(),
{
    let mut out: Vec<(String, i32)> = Vec::new();
    assert(entries_view(out@) =~= Seq::<(Seq<char>, i32)>::empty());
    push_table(&mut out, POPSCRIPT_TYPES.as_slice());
    push_family(&mut out, "INT_ATTR_", 0, 48, 1000);
    push_table(&mut out, POPSCRIPT_INTERNALS.as_slice());
    push_family(&mut out, "INT_MARKER_", 0, 256, 0);
    push_table(&mut out, POPSCRIPT_STATES.as_slice());
    proof {
        assert(entries_view(out@) =~= popscript_constant_entries());
    }
    out
}

/// The game defines' constants, in registration order.
pub fn defines_constants() -> (r: Vec<(String, i32)>)
    ensures
        entries_view(r@) == defines_constant_entries(),
{
    let mut out: Vec<(String, i32)> = Vec::new();
    assert(entries_view(out@) =~= Seq::<(Seq<char>, i32)>::empty());
    push_table(&mut out, DEFINES_GAME.as_slice());
    push_family(&mut out, "EFFECT_TYPE_", 0, 93, 0);
    push_table(&mut out, DEFINES_UNITS_AND_ALIASES.as_slice());
    push_family(&mut out, "SOUND_", 0, 256, 0);
    push_family(&mut out, "MSG_", 0, 256, 0);
    push_family(&mut out, "LEVEL_", 1, 26, 0);
    push_family(&mut out, "TRIGGER_", 0, 256, 0);
    push_family(&mut out, "THING_", 0, 256, 0);
    push_family(&mut out, "WAYPOINT_", 0, 256, 0);
    push_table(&mut out, DEFINES_AVAILABILITY.as_slice());
    push_family(&mut out, "USER_VAR_", 0, 64, 0);
    push_family(&mut out, "SCRIPT_VAR_", 0, 64, 0);
    push_radii(&mut out);
    push_family(&mut out, "ANGLE_", 0, 256, 0);
    push_family(&mut out, "ZOOM_", 0, 16, 0);
    push_family(&mut out, "INT_POINT_", 0, 256, 0);
    push_family(&mut out, "TOOLTIP_", 0, 128, 0);
    push_family(&mut out, "NARRATIVE_", 0, 128, 0);
    push_charges(&mut out);
    push_family(&mut out, "BUCKET_", 0, 64, 0);
    push_family(&mut out, "GUARD_POST_", 0, 64, 0);
    proof {
        assert(entries_view(out@) =~= defines_constant_entries());
    }
    out
}

/// The value a script sees for `name` after `entries` are registered in
/// order: that of the last entry with the name, if any.
pub fn constant_value(entries: &Vec<(String, i32)>, name: &str) -> (r: Option<i32>)
    ensures
        r == last_value(entries_view(entries@), name@),
{
    let mut i: usize = entries.len();
    assert(entries@.take(i as int) =~= entries@);
    while i > 0
        invariant
            0 <= i <= entries@.len(),
            last_value(entries_view(entries@), name@) == last_value(entries_view(entries@.take(i as int)), name@),
        decreases i,
    {
        let ghost prefix = entries_view(entries@.take(i as int));
        assert(prefix.last() == (entries@[i - 1].0@, entries@[i - 1].1));
        assert(prefix.drop_last() =~= entries_view(entries@.take(i - 1)));
        if str_eq(entries[i - 1].0.as_str(), name) {
            return Some(entries[i - 1].1);
        }
        i = i - 1;
    }
    None
}

/// No entry of `part` is named `name`.
pub open spec fn avoids(part: Seq<(Seq<char>, i32)>, name: Seq<char>) -> bool {
    forall|k: int| 0 <= k < part.len() ==> #[trigger] part[k].0 != name
}

/// Entries after the last one named `name` do not change its value.
proof fn lemma_last_value_skip(a: Seq<(Seq<char>, i32)>, b: Seq<(Seq<char>, i32)>, name: Seq<char>)
    requires
        avoids(b, name),
    ensures
        last_value(a + b, name) == last_value(a, name),
    decreases b.len(),
{
    if b.len() == 0 {
        assert(a + b =~= a);
    } else {
        assert((a + b).drop_last() =~= a + b.drop_last());
        assert((a + b).last() == b.last());
        assert(b.last().0 != name);
        lemma_last_value_skip(a, b.drop_last(), name);
    }
}

/// Entries before a part that names `name` do not change its value.
proof fn lemma_last_value_found(a: Seq<(Seq<char>, i32)>, b: Seq<(Seq<char>, i32)>, name: Seq<char>)
    requires
        last_value(b, name) is Some,
    ensures
        last_value(a + b, name) == last_value(b, name),
    decreases b.len(),
{
    if b.len() > 0 {
        assert((a + b).drop_last() =~= a + b.drop_last());
        assert((a + b).last() == b.last());
        if b.last().0 != name {
            lemma_last_value_found(a, b.drop_last(), name);
        }
    }
}

/// A family has one entry per number, each named by its prefix.
proof fn lemma_family_shape(prefix: Seq<char>, lo: int, hi: int, base: int)
    requires
        lo <= hi,
    ensures
        family(prefix, lo, hi, base).len() == hi - lo,
        forall|k: int|
            0 <= k < hi - lo ==> #[trigger] family(prefix, lo, hi, base)[k] == (
                prefix + decimal(lo + k),
                (base + lo + k) as i32,
            ),
    decreases hi - lo,
{
    if lo < hi {
        lemma_family_shape(prefix, lo, hi - 1, base);
    }
}

/// The first two letters of a name.
pub open spec fn head(name: Seq<char>) -> (char, char) {
    (name[0], name[1])
}

/// Every name of a family begins with the family's first two letters.
proof fn lemma_family_avoids(prefix: Seq<char>, lo: int, hi: int, base: int, name: Seq<char>)
    requires
        lo <= hi,
        prefix.len() >= 2,
        name.len() >= 2,
        head(name) != head(prefix),
    ensures
        avoids(family(prefix, lo, hi, base), name),
{
    lemma_family_shape(prefix, lo, hi, base);
    assert forall|k: int| 0 <= k < hi - lo implies #[trigger] family(prefix, lo, hi, base)[k].0 != name by {
        assert(head(family(prefix, lo, hi, base)[k].0) == head(prefix));
    }
}

/// Within a family, `prefix + i` names the value `base + i`.
proof fn lemma_family_lookup(prefix: Seq<char>, lo: int, hi: int, base: int, i: int)
    requires
        0 <= lo <= i < hi,
    ensures
        last_value(family(prefix, lo, hi, base), prefix + decimal(i)) == Some((base + i) as i32),
    decreases hi - lo,
{
    let fam = family(prefix, lo, hi, base);
    assert(fam.drop_last() =~= family(prefix, lo, hi - 1, base));
    assert(fam.last() == (prefix + decimal(hi - 1), (base + hi - 1) as i32));
    if i != hi - 1 {
        lemma_decimal_digits_injective(i as nat, (hi - 1) as nat);
        if prefix + decimal(hi - 1) == prefix + decimal(i) {
            assert((prefix + decimal(hi - 1)).subrange(prefix.len() as int, (prefix + decimal(hi - 1)).len() as int)
                =~= decimal(hi - 1));
            assert((prefix + decimal(i)).subrange(prefix.len() as int, (prefix + decimal(i)).len() as int)
                =~= decimal(i));
        }
        lemma_family_lookup(prefix, lo, hi - 1, base, i);
    }
}

/// The radius constants are all named `RADIUS_...`.
proof fn lemma_radius_names()
    ensures
        forall|k: int|
            0 <= k < radius_entries().len() ==> (#[trigger] radius_entries()[k]).0.len() > 0
                && radius_entries()[k].0[0] == 'R',
{
    reveal_strlit("RADIUS_");
}

/// The spell charge constants are named after a tribe: each begins with the
/// first two letters of BLUE, RED, YELLOW or GREEN.
proof fn lemma_charge_heads(t: int)
    requires
        0 <= t <= 4,
    ensures
        charge_entries(t).len() == 21 * t,
        forall|k: int|
            0 <= k < charge_entries(t).len() ==> (#[trigger] charge_entries(t)[k]).0.len() >= 2
                && set![('B', 'L'), ('R', 'E'), ('Y', 'E'), ('G', 'R')].contains(head(charge_entries(t)[k].0)),
    decreases t,
{
    if t > 0 {
        lemma_charge_heads(t - 1);
        reveal_strlit("BLUE");
        reveal_strlit("RED");
        reveal_strlit("YELLOW");
        reveal_strlit("GREEN");
        let tribe = CHARGE_TRIBES@[t - 1]@;
        assert(tribe.len() >= 2);
        let prev = charge_entries(t - 1);
        let row = Seq::new(
            21,
            |s: int| (CHARGE_TRIBES@[t - 1]@ + "_SPELL_"@ + CHARGE_SPELLS@[s]@ + "_CHARGE"@, (21 * (t - 1) + s) as i32),
        );
        assert(charge_entries(t) == prev + row);
        assert forall|k: int| 0 <= k < charge_entries(t).len() implies (#[trigger] charge_entries(t)[k]).0.len() >= 2
            && set![('B', 'L'), ('R', 'E'), ('Y', 'E'), ('G', 'R')].contains(head(charge_entries(t)[k].0)) by {
            if k >= prev.len() {
                assert(charge_entries(t)[k] == row[k - prev.len()]);
                assert(head(row[k - prev.len()].0) == head(tribe));
            } else {
                assert(charge_entries(t)[k] == prev[k]);
            }
        }
    }
}

/// The game defines in their registration groups.
pub open spec fn defines_parts() -> Seq<Seq<(Seq<char>, i32)>> {
    seq![
        table_entries(DEFINES_GAME@),
        family("EFFECT_TYPE_"@, 0, 93, 0),
        table_entries(DEFINES_UNITS_AND_ALIASES@),
        family("SOUND_"@, 0, 256, 0),
        family("MSG_"@, 0, 256, 0),
        family("LEVEL_"@, 1, 26, 0),
        family("TRIGGER_"@, 0, 256, 0),
        family("THING_"@, 0, 256, 0),
        family("WAYPOINT_"@, 0, 256, 0),
        table_entries(DEFINES_AVAILABILITY@),
        family("USER_VAR_"@, 0, 64, 0),
        family("SCRIPT_VAR_"@, 0, 64, 0),
        radius_entries(),
        family("ANGLE_"@, 0, 256, 0),
        family("ZOOM_"@, 0, 16, 0),
        family("INT_POINT_"@, 0, 256, 0),
        family("TOOLTIP_"@, 0, 128, 0),
        family("NARRATIVE_"@, 0, 128, 0),
        charge_entries(4),
        family("BUCKET_"@, 0, 64, 0),
        family("GUARD_POST_"@, 0, 64, 0),
    ]
}

/// The first `n` groups, one after another.
pub open spec fn concat_parts(parts: Seq<Seq<(Seq<char>, i32)>>, n: int) -> Seq<(Seq<char>, i32)>
    decreases n,
{
    if n <= 0 {
        Seq::empty()
    } else {
        concat_parts(parts, n - 1) + parts[n - 1]
    }
}

/// The game defines are their groups one after another.
proof fn lemma_defines_are_parts()
    ensures
        concat_parts(defines_parts(), 21) == defines_constant_entries(),
{
    reveal_with_fuel(concat_parts, 22);
    assert(concat_parts(defines_parts(), 0) + defines_parts()[0] =~= defines_parts()[0]);
}

/// A name that group `m` defines keeps that value when no later group names it.
proof fn lemma_concat_lookup(parts: Seq<Seq<(Seq<char>, i32)>>, n: int, m: int, name: Seq<char>)
    requires
        0 <= m < n <= parts.len(),
        last_value(parts[m], name) is Some,
        forall|j: int| m < j < n ==> avoids(#[trigger] parts[j], name),
    ensures
        last_value(concat_parts(parts, n), name) == last_value(parts[m], name),
    decreases n,
{
    if n - 1 == m {
        lemma_last_value_found(concat_parts(parts, n - 1), parts[m], name);
    } else {
        lemma_last_value_skip(concat_parts(parts, n - 1), parts[n - 1], name);
        lemma_concat_lookup(parts, n - 1, m, name);
    }
}

/// An entry of a group is an entry of every run of groups that holds it.
proof fn lemma_concat_contains(parts: Seq<Seq<(Seq<char>, i32)>>, n: int, m: int, x: (Seq<char>, i32))
    requires
        0 <= m < n <= parts.len(),
        parts[m].contains(x),
    ensures
        concat_parts(parts, n).contains(x),
    decreases n,
{
    let prev = concat_parts(parts, n - 1);
    if n - 1 == m {
        let k = choose|k: int| 0 <= k < parts[m].len() && parts[m][k] == x;
        assert((prev + parts[m])[prev.len() + k] == x);
    } else {
        lemma_concat_contains(parts, n - 1, m, x);
        let k = choose|k: int| 0 <= k < prev.len() && prev[k] == x;
        assert((prev + parts[n - 1])[k] == x);
    }
}

/// The first two letters that names in group `j` of the game defines can
/// begin with.
pub open spec fn defines_heads(j: int) -> Set<(char, char)> {
    if j == 1 {
        set![('E', 'F')]
    } else if j == 2 {
        set![
                ('A', 'N'),
                ('A', 'T'),
                ('B', 'L'),
                ('C', 'O'),
                ('C', 'R'),
                ('D', 'O'),
                ('E', 'A'),
                ('E', 'R'),
                ('F', 'A'),
                ('F', 'I'),
                ('F', 'L'),
                ('H', 'Y'),
                ('I', 'F'),
                ('I', 'N'),
                ('L', 'A'),
                ('L', 'I'),
                ('M', 'O'),
                ('N', 'O'),
                ('O', 'F'),
                ('O', 'N'),
                ('R', 'E'),
                ('S', 'E'),
                ('S', 'H'),
                ('S', 'W'),
                ('T', 'I'),
                ('T', 'R'),
                ('V', 'E'),
                ('V', 'O'),
                ('W', 'H'),
            ]
    } else if j == 3 {
        set![('S', 'O')]
    } else if j == 4 {
        set![('M', 'S')]
    } else if j == 5 {
        set![('L', 'E')]
    } else if j == 6 {
        set![('T', 'R')]
    } else if j == 7 {
        set![('T', 'H')]
    } else if j == 8 {
        set![('W', 'A')]
    } else if j == 9 {
        set![('B', 'U'), ('S', 'P')]
    } else if j == 10 {
        set![('U', 'S')]
    } else if j == 11 {
        set![('S', 'C')]
    } else if j == 12 {
        set![('R', 'A')]
    } else if j == 13 {
        set![('A', 'N')]
    } else if j == 14 {
        set![('Z', 'O')]
    } else if j == 15 {
        set![('I', 'N')]
    } else if j == 16 {
        set![('T', 'O')]
    } else if j == 17 {
        set![('N', 'A')]
    } else if j == 18 {
        set![('B', 'L'), ('R', 'E'), ('Y', 'E'), ('G', 'R')]
    } else if j == 19 {
        set![('B', 'U')]
    } else {
        set![('G', 'U')]
    }
}

/// No name in group `j` of the game defines begins with two letters outside
/// that group's heads.
proof fn lemma_defines_heads(j: int, name: Seq<char>)
    requires
        1 <= j < 21,
        name.len() >= 2,
        !defines_heads(j).contains(head(name)),
    ensures
        avoids(defines_parts()[j], name),
{
    reveal_strlit("EFFECT_TYPE_");
    reveal_strlit("SOUND_");
    reveal_strlit("MSG_");
    reveal_strlit("LEVEL_");
    reveal_strlit("TRIGGER_");
    reveal_strlit("THING_");
    reveal_strlit("WAYPOINT_");
    reveal_strlit("USER_VAR_");
    reveal_strlit("SCRIPT_VAR_");
    reveal_strlit("ANGLE_");
    reveal_strlit("ZOOM_");
    reveal_strlit("INT_POINT_");
    reveal_strlit("TOOLTIP_");
    reveal_strlit("NARRATIVE_");
    reveal_strlit("BUCKET_");
    reveal_strlit("GUARD_POST_");
    reveal_strlit("RADIUS_");
    reveal_strlit("BLUE");
    reveal_strlit("RED");
    reveal_strlit("YELLOW");
    reveal_strlit("GREEN");
    if j == 2 {
        lemma_alias_heads();
        assert forall|k: int| 0 <= k < defines_parts()[j].len() implies #[trigger] defines_parts()[j][k].0 != name by {
            if defines_parts()[j][k].0 == name {
                assert(head(defines_parts()[j][k].0) == head(name));
            }
        }
    } else if j == 9 {
        lemma_availability_heads();
        assert forall|k: int| 0 <= k < defines_parts()[j].len() implies #[trigger] defines_parts()[j][k].0 != name by {
            if defines_parts()[j][k].0 == name {
                assert(head(defines_parts()[j][k].0) == head(name));
            }
        }
    } else if j == 12 {
        lemma_radius_names();
        assert forall|k: int| 0 <= k < defines_parts()[j].len() implies #[trigger] defines_parts()[j][k].0 != name by {
            let r = RADII@[k];
            assert(radius_entries()[k].0 == "RADIUS_"@ + decimal(r as int));
            if defines_parts()[j][k].0 == name {
                assert(head(name) == ('R', 'A'));
            }
        }
    } else if j == 18 {
        lemma_charge_heads(4);
        assert forall|k: int| 0 <= k < defines_parts()[j].len() implies #[trigger] defines_parts()[j][k].0 != name by {
            if defines_parts()[j][k].0 == name {
                assert(head(defines_parts()[j][k].0) == head(name));
            }
        }
    } else if j == 1 {
        assert(defines_parts()[j] == family("EFFECT_TYPE_"@, 0, 93, 0));
        lemma_family_avoids("EFFECT_TYPE_"@, 0, 93, 0, name);
    } else if j == 3 {
        assert(defines_parts()[j] == family("SOUND_"@, 0, 256, 0));
        lemma_family_avoids("SOUND_"@, 0, 256, 0, name);
    } else if j == 4 {
        assert(defines_parts()[j] == family("MSG_"@, 0, 256, 0));
        lemma_family_avoids("MSG_"@, 0, 256, 0, name);
    } else if j == 5 {
        assert(defines_parts()[j] == family("LEVEL_"@, 1, 26, 0));
        lemma_family_avoids("LEVEL_"@, 1, 26, 0, name);
    } else if j == 6 {
        assert(defines_parts()[j] == family("TRIGGER_"@, 0, 256, 0));
        lemma_family_avoids("TRIGGER_"@, 0, 256, 0, name);
    } else if j == 7 {
        assert(defines_parts()[j] == family("THING_"@, 0, 256, 0));
        lemma_family_avoids("THING_"@, 0, 256, 0, name);
    } else if j == 8 {
        assert(defines_parts()[j] == family("WAYPOINT_"@, 0, 256, 0));
        lemma_family_avoids("WAYPOINT_"@, 0, 256, 0, name);
    } else if j == 10 {
        assert(defines_parts()[j] == family("USER_VAR_"@, 0, 64, 0));
        lemma_family_avoids("USER_VAR_"@, 0, 64, 0, name);
    } else if j == 11 {
        assert(defines_parts()[j] == family("SCRIPT_VAR_"@, 0, 64, 0));
        lemma_family_avoids("SCRIPT_VAR_"@, 0, 64, 0, name);
    } else if j == 13 {
        assert(defines_parts()[j] == family("ANGLE_"@, 0, 256, 0));
        lemma_family_avoids("ANGLE_"@, 0, 256, 0, name);
    } else if j == 14 {
        assert(defines_parts()[j] == family("ZOOM_"@, 0, 16, 0));
        lemma_family_avoids("ZOOM_"@, 0, 16, 0, name);
    } else if j == 15 {
        assert(defines_parts()[j] == family("INT_POINT_"@, 0, 256, 0));
        lemma_family_avoids("INT_POINT_"@, 0, 256, 0, name);
    } else if j == 16 {
        assert(defines_parts()[j] == family("TOOLTIP_"@, 0, 128, 0));
        lemma_family_avoids("TOOLTIP_"@, 0, 128, 0, name);
    } else if j == 17 {
        assert(defines_parts()[j] == family("NARRATIVE_"@, 0, 128, 0));
        lemma_family_avoids("NARRATIVE_"@, 0, 128, 0, name);
    } else if j == 19 {
        assert(defines_parts()[j] == family("BUCKET_"@, 0, 64, 0));
        lemma_family_avoids("BUCKET_"@, 0, 64, 0, name);
    } else {
        assert(defines_parts()[j] == family("GUARD_POST_"@, 0, 64, 0));
        lemma_family_avoids("GUARD_POST_"@, 0, 64, 0, name);
    }
}

/// A numbered family of the game defines gives each of its names its number,
/// when no later group has names with its first two letters.
proof fn lemma_defines_family_lookup(m: int, prefix: Seq<char>, lo: int, hi: int, i: int)
    requires
        1 <= m < 21,
        defines_parts()[m] == family(prefix, lo, hi, 0),
        prefix.len() >= 2,
        forall|j: int| m < j < 21 ==> !(#[trigger] defines_heads(j)).contains(head(prefix)),
        0 <= lo <= i < hi,
    ensures
        last_value(defines_constant_entries(), prefix + decimal(i)) == Some(i as i32),
{
    let name = prefix + decimal(i);
    assert(head(name) == head(prefix));
    lemma_family_lookup(prefix, lo, hi, 0, i);
    assert forall|j: int| m < j < 21 implies avoids(#[trigger] defines_parts()[j], name) by {
        lemma_defines_heads(j, name);
    }
    lemma_concat_lookup(defines_parts(), 21, m, name);
    lemma_defines_are_parts();
}

/// Every numbered family of the game defines is there over its whole range,
/// and looking up one of its names gives its number (no later registration
/// replaces it): `EFFECT_TYPE_0` to `EFFECT_TYPE_92`, `SOUND_`, `MSG_`, `TRIGGER_`,
/// `THING_` and `WAYPOINT_` 0 to 255, `LEVEL_1` to `LEVEL_25`, `USER_VAR_` and
/// `SCRIPT_VAR_` 0 to 63, `ANGLE_` and `INT_POINT_` 0 to 255, `ZOOM_0` to
/// `ZOOM_15`, `TOOLTIP_` and `NARRATIVE_` 0 to 127, and `BUCKET_` and
/// `GUARD_POST_` 0 to 63.
pub proof fn lemma_defines_families(i: int)
    ensures
        0 <= i < 93 ==> last_value(defines_constant_entries(), "EFFECT_TYPE_"@ + decimal(i)) == Some(i as i32),
        0 <= i < 256 ==> last_value(defines_constant_entries(), "SOUND_"@ + decimal(i)) == Some(i as i32),
        0 <= i < 256 ==> last_value(defines_constant_entries(), "MSG_"@ + decimal(i)) == Some(i as i32),
        1 <= i < 26 ==> last_value(defines_constant_entries(), "LEVEL_"@ + decimal(i)) == Some(i as i32),
        0 <= i < 256 ==> last_value(defines_constant_entries(), "TRIGGER_"@ + decimal(i)) == Some(i as i32),
        0 <= i < 256 ==> last_value(defines_constant_entries(), "THING_"@ + decimal(i)) == Some(i as i32),
        0 <= i < 256 ==> last_value(defines_constant_entries(), "WAYPOINT_"@ + decimal(i)) == Some(i as i32),
        0 <= i < 64 ==> last_value(defines_constant_entries(), "USER_VAR_"@ + decimal(i)) == Some(i as i32),
        0 <= i < 64 ==> last_value(defines_constant_entries(), "SCRIPT_VAR_"@ + decimal(i)) == Some(i as i32),
        0 <= i < 256 ==> last_value(defines_constant_entries(), "ANGLE_"@ + decimal(i)) == Some(i as i32),
        0 <= i < 16 ==> last_value(defines_constant_entries(), "ZOOM_"@ + decimal(i)) == Some(i as i32),
        0 <= i < 256 ==> last_value(defines_constant_entries(), "INT_POINT_"@ + decimal(i)) == Some(i as i32),
        0 <= i < 128 ==> last_value(defines_constant_entries(), "TOOLTIP_"@ + decimal(i)) == Some(i as i32),
        0 <= i < 128 ==> last_value(defines_constant_entries(), "NARRATIVE_"@ + decimal(i)) == Some(i as i32),
        0 <= i < 64 ==> last_value(defines_constant_entries(), "BUCKET_"@ + decimal(i)) == Some(i as i32),
        0 <= i < 64 ==> last_value(defines_constant_entries(), "GUARD_POST_"@ + decimal(i)) == Some(i as i32),
{
    reveal_strlit("EFFECT_TYPE_");
    reveal_strlit("SOUND_");
    reveal_strlit("MSG_");
    reveal_strlit("LEVEL_");
    reveal_strlit("TRIGGER_");
    reveal_strlit("THING_");
    reveal_strlit("WAYPOINT_");
    reveal_strlit("USER_VAR_");
    reveal_strlit("SCRIPT_VAR_");
    reveal_strlit("ANGLE_");
    reveal_strlit("ZOOM_");
    reveal_strlit("INT_POINT_");
    reveal_strlit("TOOLTIP_");
    reveal_strlit("NARRATIVE_");
    reveal_strlit("BUCKET_");
    reveal_strlit("GUARD_POST_");
    if 0 <= i < 93 {
        lemma_defines_family_lookup(1, "EFFECT_TYPE_"@, 0, 93, i);
    }
    if 0 <= i < 256 {
        lemma_defines_family_lookup(3, "SOUND_"@, 0, 256, i);
    }
    if 0 <= i < 256 {
        lemma_defines_family_lookup(4, "MSG_"@, 0, 256, i);
    }
    if 1 <= i < 26 {
        lemma_defines_family_lookup(5, "LEVEL_"@, 1, 26, i);
    }
    if 0 <= i < 256 {
        lemma_defines_family_lookup(6, "TRIGGER_"@, 0, 256, i);
    }
    if 0 <= i < 256 {
        lemma_defines_family_lookup(7, "THING_"@, 0, 256, i);
    }
    if 0 <= i < 256 {
        lemma_defines_family_lookup(8, "WAYPOINT_"@, 0, 256, i);
    }
    if 0 <= i < 64 {
        lemma_defines_family_lookup(10, "USER_VAR_"@, 0, 64, i);
    }
    if 0 <= i < 64 {
        lemma_defines_family_lookup(11, "SCRIPT_VAR_"@, 0, 64, i);
    }
    if 0 <= i < 256 {
        lemma_defines_family_lookup(13, "ANGLE_"@, 0, 256, i);
    }
    if 0 <= i < 16 {
        lemma_defines_family_lookup(14, "ZOOM_"@, 0, 16, i);
    }
    if 0 <= i < 256 {
        lemma_defines_family_lookup(15, "INT_POINT_"@, 0, 256, i);
    }
    if 0 <= i < 128 {
        lemma_defines_family_lookup(16, "TOOLTIP_"@, 0, 128, i);
    }
    if 0 <= i < 128 {
        lemma_defines_family_lookup(17, "NARRATIVE_"@, 0, 128, i);
    }
    if 0 <= i < 64 {
        lemma_defines_family_lookup(19, "BUCKET_"@, 0, 64, i);
    }
    if 0 <= i < 64 {
        lemma_defines_family_lookup(20, "GUARD_POST_"@, 0, 64, i);
    }
}

/// The PopScript module's groups of constants.
pub open spec fn popscript_parts() -> Seq<Seq<(Seq<char>, i32)>> {
    seq![
        table_entries(POPSCRIPT_TYPES@),
        family("INT_ATTR_"@, 0, 48, 1000),
        table_entries(POPSCRIPT_INTERNALS@),
        family("INT_MARKER_"@, 0, 256, 0),
        table_entries(POPSCRIPT_STATES@),
    ]
}

/// Every internal of the PopScript module is named `INT_` and a letter other than `A`.
proof fn lemma_internals_fifth()
    ensures
        forall|k: int|
            0 <= k < 150 ==> (#[trigger] table_entries(POPSCRIPT_INTERNALS@)[k]).0.len() >= 5
                && set!['B', 'D', 'G', 'I', 'M', 'R', 'T', 'W', 'Y'].contains(
                table_entries(POPSCRIPT_INTERNALS@)[k].0[4],
            ),
        table_entries(POPSCRIPT_INTERNALS@).len() == 150,
{
    reveal_strlit("INT_MY_NUM_PEOPLE");
    reveal_strlit("INT_BLUE_PEOPLE");
    reveal_strlit("INT_RED_PEOPLE");
    reveal_strlit("INT_YELLOW_PEOPLE");
    reveal_strlit("INT_GREEN_PEOPLE");
    reveal_strlit("INT_MY_NUM_KILLED_BY_BLUE");
    reveal_strlit("INT_MY_NUM_KILLED_BY_RED");
    reveal_strlit("INT_MY_NUM_KILLED_BY_YELLOW");
    reveal_strlit("INT_MY_NUM_KILLED_BY_GREEN");
    reveal_strlit("INT_MY_NUM_BRAVES");
    reveal_strlit("INT_MY_NUM_WARRIORS");
    reveal_strlit("INT_MY_NUM_PREACHERS");
    reveal_strlit("INT_MY_NUM_SPIES");
    reveal_strlit("INT_MY_NUM_SUPER_WARRIORS");
    reveal_strlit("INT_BLUE_BRAVES");
    reveal_strlit("INT_BLUE_WARRIORS");
    reveal_strlit("INT_BLUE_PREACHERS");
    reveal_strlit("INT_BLUE_SPIES");
    reveal_strlit("INT_BLUE_SUPER_WARRIORS");
    reveal_strlit("INT_RED_BRAVES");
    reveal_strlit("INT_RED_WARRIORS");
    reveal_strlit("INT_RED_PREACHERS");
    reveal_strlit("INT_RED_SPIES");
    reveal_strlit("INT_RED_SUPER_WARRIORS");
    reveal_strlit("INT_YELLOW_BRAVES");
    reveal_strlit("INT_YELLOW_WARRIORS");
    reveal_strlit("INT_YELLOW_PREACHERS");
    reveal_strlit("INT_YELLOW_SPIES");
    reveal_strlit("INT_YELLOW_SUPER_WARRIORS");
    reveal_strlit("INT_GREEN_BRAVES");
    reveal_strlit("INT_GREEN_WARRIORS");
    reveal_strlit("INT_GREEN_PREACHERS");
    reveal_strlit("INT_GREEN_SPIES");
    reveal_strlit("INT_GREEN_SUPER_WARRIORS");
    reveal_strlit("INT_MY_NUM_SMALL_HUT");
    reveal_strlit("INT_MY_NUM_MEDIUM_HUT");
    reveal_strlit("INT_MY_NUM_LARGE_HUT");
    reveal_strlit("INT_MY_NUM_DRUM_TOWER");
    reveal_strlit("INT_MY_NUM_TEMPLE");
    reveal_strlit("INT_MY_NUM_SPY_TRAIN");
    reveal_strlit("INT_MY_NUM_WARRIOR_TRAIN");
    reveal_strlit("INT_MY_NUM_SUPER_TRAIN");
    reveal_strlit("INT_MY_NUM_BOAT_HUT");
    reveal_strlit("INT_MY_NUM_AIRSHIP_HUT");
    reveal_strlit("INT_BLUE_NUM_SMALL_HUT");
    reveal_strlit("INT_BLUE_NUM_MEDIUM_HUT");
    reveal_strlit("INT_BLUE_NUM_LARGE_HUT");
    reveal_strlit("INT_BLUE_NUM_DRUM_TOWER");
    reveal_strlit("INT_BLUE_NUM_TEMPLE");
    reveal_strlit("INT_BLUE_NUM_SPY_TRAIN");
    reveal_strlit("INT_BLUE_NUM_WARRIOR_TRAIN");
    reveal_strlit("INT_BLUE_NUM_SUPER_TRAIN");
    reveal_strlit("INT_RED_NUM_SMALL_HUT");
    reveal_strlit("INT_RED_NUM_MEDIUM_HUT");
    reveal_strlit("INT_RED_NUM_LARGE_HUT");
    reveal_strlit("INT_RED_NUM_DRUM_TOWER");
    reveal_strlit("INT_RED_NUM_TEMPLE");
    reveal_strlit("INT_RED_NUM_SPY_TRAIN");
    reveal_strlit("INT_RED_NUM_WARRIOR_TRAIN");
    reveal_strlit("INT_RED_NUM_SUPER_TRAIN");
    reveal_strlit("INT_YELLOW_NUM_SMALL_HUT");
    reveal_strlit("INT_YELLOW_NUM_MEDIUM_HUT");
    reveal_strlit("INT_YELLOW_NUM_LARGE_HUT");
    reveal_strlit("INT_YELLOW_NUM_DRUM_TOWER");
    reveal_strlit("INT_YELLOW_NUM_TEMPLE");
    reveal_strlit("INT_YELLOW_NUM_SPY_TRAIN");
    reveal_strlit("INT_YELLOW_NUM_WARRIOR_TRAIN");
    reveal_strlit("INT_YELLOW_NUM_SUPER_TRAIN");
    reveal_strlit("INT_GREEN_NUM_SMALL_HUT");
    reveal_strlit("INT_GREEN_NUM_MEDIUM_HUT");
    reveal_strlit("INT_GREEN_NUM_LARGE_HUT");
    reveal_strlit("INT_GREEN_NUM_DRUM_TOWER");
    reveal_strlit("INT_GREEN_NUM_TEMPLE");
    reveal_strlit("INT_GREEN_NUM_SPY_TRAIN");
    reveal_strlit("INT_GREEN_NUM_WARRIOR_TRAIN");
    reveal_strlit("INT_GREEN_NUM_SUPER_TRAIN");
    reveal_strlit("INT_MY_MANA");
    reveal_strlit("INT_MY_SPELL_BURN_COST");
    reveal_strlit("INT_MY_SPELL_BLAST_COST");
    reveal_strlit("INT_MY_SPELL_LIGHTNING_COST");
    reveal_strlit("INT_MY_SPELL_TORNADO_COST");
    reveal_strlit("INT_MY_SPELL_SWARM_COST");
    reveal_strlit("INT_MY_SPELL_INVISIBILITY_COST");
    reveal_strlit("INT_MY_SPELL_HYPNOTISM_COST");
    reveal_strlit("INT_MY_SPELL_FIRESTORM_COST");
    reveal_strlit("INT_MY_SPELL_GHOST_ARMY_COST");
    reveal_strlit("INT_MY_SPELL_EROSION_COST");
    reveal_strlit("INT_MY_SPELL_SWAMP_COST");
    reveal_strlit("INT_MY_SPELL_LAND_BRIDGE_COST");
    reveal_strlit("INT_MY_SPELL_ANGEL_OF_DEATH_COST");
    reveal_strlit("INT_MY_SPELL_EARTHQUAKE_COST");
    reveal_strlit("INT_MY_SPELL_FLATTEN_COST");
    reveal_strlit("INT_MY_SPELL_VOLCANO_COST");
    reveal_strlit("INT_MY_SPELL_CONVERT_COST");
    reveal_strlit("INT_MY_SPELL_ARMAGEDDON_COST");
    reveal_strlit("INT_MY_SPELL_SHIELD_COST");
    reveal_strlit("INT_MY_SPELL_BLOODLUST_COST");
    reveal_strlit("INT_MY_SPELL_TELEPORT_COST");
    reveal_strlit("INT_MY_SPELL_BURN_CHARGE");
    reveal_strlit("INT_MY_SPELL_BLAST_CHARGE");
    reveal_strlit("INT_MY_SPELL_LIGHTNING_CHARGE");
    reveal_strlit("INT_MY_SPELL_TORNADO_CHARGE");
    reveal_strlit("INT_MY_SPELL_SWARM_CHARGE");
    reveal_strlit("INT_MY_SPELL_INVISIBILITY_CHARGE");
    reveal_strlit("INT_MY_SPELL_HYPNOTISM_CHARGE");
    reveal_strlit("INT_MY_SPELL_FIRESTORM_CHARGE");
    reveal_strlit("INT_MY_SPELL_GHOST_ARMY_CHARGE");
    reveal_strlit("INT_MY_SPELL_EROSION_CHARGE");
    reveal_strlit("INT_MY_SPELL_SWAMP_CHARGE");
    reveal_strlit("INT_MY_SPELL_LAND_BRIDGE_CHARGE");
    reveal_strlit("INT_MY_SPELL_ANGEL_OF_DEATH_CHARGE");
    reveal_strlit("INT_MY_SPELL_EARTHQUAKE_CHARGE");
    reveal_strlit("INT_MY_SPELL_FLATTEN_CHARGE");
    reveal_strlit("INT_MY_SPELL_VOLCANO_CHARGE");
    reveal_strlit("INT_MY_SPELL_CONVERT_CHARGE");
    reveal_strlit("INT_MY_SPELL_ARMAGEDDON_CHARGE");
    reveal_strlit("INT_MY_SPELL_SHIELD_CHARGE");
    reveal_strlit("INT_MY_SPELL_BLOODLUST_CHARGE");
    reveal_strlit("INT_MY_SPELL_TELEPORT_CHARGE");
    reveal_strlit("INT_GAME_TURN");
    reveal_strlit("INT_MY_REINCARNATION_TIMER");
    reveal_strlit("INT_MY_SHAMAN_LIVES");
    reveal_strlit("INT_MY_NUM_VEHICLES");
    reveal_strlit("INT_MY_NUM_BOATS");
    reveal_strlit("INT_MY_NUM_AIRSHIPS");
    reveal_strlit("INT_BLUE_SHAMAN_LIVES");
    reveal_strlit("INT_RED_SHAMAN_LIVES");
    reveal_strlit("INT_YELLOW_SHAMAN_LIVES");
    reveal_strlit("INT_GREEN_SHAMAN_LIVES");
    reveal_strlit("INT_BLUE_KILLED_BY_ME");
    reveal_strlit("INT_RED_KILLED_BY_ME");
    reveal_strlit("INT_YELLOW_KILLED_BY_ME");
    reveal_strlit("INT_GREEN_KILLED_BY_ME");
    reveal_strlit("INT_MY_NUM_PEOPLE_AT_MARKER");
    reveal_strlit("INT_MY_NUM_GUARD_POSTS");
    reveal_strlit("INT_DEFENSE_SHIELD_COUNT");
    reveal_strlit("INT_RANDOM_100");
    reveal_strlit("INT_WILD_PEOPLE");
    reveal_strlit("INT_MY_WOOD_COUNT");
    reveal_strlit("INT_TARGET_SHAMAN_NUM_BRAVES");
    reveal_strlit("INT_MY_ATTACK_ARMY_COUNT");
    reveal_strlit("INT_MY_DEFEND_ARMY_COUNT");
    reveal_strlit("INT_BLUE_MANA");
    reveal_strlit("INT_RED_MANA");
    reveal_strlit("INT_YELLOW_MANA");
    reveal_strlit("INT_GREEN_MANA");
    reveal_strlit("INT_IS_SHAMAN_AVAILABLE");
    reveal_strlit("INT_IS_SHAMAN_ALIVE");
    reveal_strlit("INT_M_PERSON_LEFT_OF_DRUM_TOWER");
    reveal_strlit("INT_M_PERSON_RIGHT_OF_DRUM_TOWER");
    assert(table_entries(POPSCRIPT_INTERNALS@)[0].0[4] == 'M');
    assert(table_entries(POPSCRIPT_INTERNALS@)[1].0[4] == 'B');
    assert(table_entries(POPSCRIPT_INTERNALS@)[2].0[4] == 'R');
    assert(table_entries(POPSCRIPT_INTERNALS@)[3].0[4] == 'Y');
    assert(table_entries(POPSCRIPT_INTERNALS@)[4].0[4] == 'G');
    assert(table_entries(POPSCRIPT_INTERNALS@)[5].0[4] == 'M');
    assert(table_entries(POPSCRIPT_INTERNALS@)[6].0[4] == 'M');
    assert(table_entries(POPSCRIPT_INTERNALS@)[7].0[4] == 'M');
    assert(table_entries(POPSCRIPT_INTERNALS@)[8].0[4] == 'M');
    assert(table_entries(POPSCRIPT_INTERNALS@)[9].0[4] == 'M');
    assert(table_entries(POPSCRIPT_INTERNALS@)[10].0[4] == 'M');
    assert(table_entries(POPSCRIPT_INTERNALS@)[11].0[4] == 'M');
    assert(table_entries(POPSCRIPT_INTERNALS@)[12].0[4] == 'M');
    assert(table_entries(POPSCRIPT_INTERNALS@)[13].0[4] == 'M');
    assert(table_entries(POPSCRIPT_INTERNALS@)[14].0[4] == 'B');
    assert(table_entries(POPSCRIPT_INTERNALS@)[15].0[4] == 'B');
    assert(table_entries(POPSCRIPT_INTERNALS@)[16].0[4] == 'B');
    assert(table_entries(POPSCRIPT_INTERNALS@)[17].0[4] == 'B');
    assert(table_entries(POPSCRIPT_INTERNALS@)[18].0[4] == 'B');
    assert(table_entries(POPSCRIPT_INTERNALS@)[19].0[4] == 'R');
    assert(table_entries(POPSCRIPT_INTERNALS@)[20].0[4] == 'R');
    assert(table_entries(POPSCRIPT_INTERNALS@)[21].0[4] == 'R');
    assert(table_entries(POPSCRIPT_INTERNALS@)[22].0[4] == 'R');
    assert(table_entries(POPSCRIPT_INTERNALS@)[23].0[4] == 'R');
    assert(table_entries(POPSCRIPT_INTERNALS@)[24].0[4] == 'Y');
    assert(table_entries(POPSCRIPT_INTERNALS@)[25].0[4] == 'Y');
    assert(table_entries(POPSCRIPT_INTERNALS@)[26].0[4] == 'Y');
    assert(table_entries(POPSCRIPT_INTERNALS@)[27].0[4] == 'Y');
    assert(table_entries(POPSCRIPT_INTERNALS@)[28].0[4] == 'Y');
    assert(table_entries(POPSCRIPT_INTERNALS@)[29].0[4] == 'G');
    assert(table_entries(POPSCRIPT_INTERNALS@)[30].0[4] == 'G');
    assert(table_entries(POPSCRIPT_INTERNALS@)[31].0[4] == 'G');
    assert(table_entries(POPSCRIPT_INTERNALS@)[32].0[4] == 'G');
    assert(table_entries(POPSCRIPT_INTERNALS@)[33].0[4] == 'G');
    assert(table_entries(POPSCRIPT_INTERNALS@)[34].0[4] == 'M');
    assert(table_entries(POPSCRIPT_INTERNALS@)[35].0[4] == 'M');
    assert(table_entries(POPSCRIPT_INTERNALS@)[36].0[4] == 'M');
    assert(table_entries(POPSCRIPT_INTERNALS@)[37].0[4] == 'M');
    assert(table_entries(POPSCRIPT_INTERNALS@)[38].0[4] == 'M');
    assert(table_entries(POPSCRIPT_INTERNALS@)[39].0[4] == 'M');
    assert(table_entries(POPSCRIPT_INTERNALS@)[40].0[4] == 'M');
    assert(table_entries(POPSCRIPT_INTERNALS@)[41].0[4] == 'M');
    assert(table_entries(POPSCRIPT_INTERNALS@)[42].0[4] == 'M');
    assert(table_entries(POPSCRIPT_INTERNALS@)[43].0[4] == 'M');
    assert(table_entries(POPSCRIPT_INTERNALS@)[44].0[4] == 'B');
    assert(table_entries(POPSCRIPT_INTERNALS@)[45].0[4] == 'B');
    assert(table_entries(POPSCRIPT_INTERNALS@)[46].0[4] == 'B');
    assert(table_entries(POPSCRIPT_INTERNALS@)[47].0[4] == 'B');
    assert(table_entries(POPSCRIPT_INTERNALS@)[48].0[4] == 'B');
    assert(table_entries(POPSCRIPT_INTERNALS@)[49].0[4] == 'B');
    assert(table_entries(POPSCRIPT_INTERNALS@)[50].0[4] == 'B');
    assert(table_entries(POPSCRIPT_INTERNALS@)[51].0[4] == 'B');
    assert(table_entries(POPSCRIPT_INTERNALS@)[52].0[4] == 'R');
    assert(table_entries(POPSCRIPT_INTERNALS@)[53].0[4] == 'R');
    assert(table_entries(POPSCRIPT_INTERNALS@)[54].0[4] == 'R');
    assert(table_entries(POPSCRIPT_INTERNALS@)[55].0[4] == 'R');
    assert(table_entries(POPSCRIPT_INTERNALS@)[56].0[4] == 'R');
    assert(table_entries(POPSCRIPT_INTERNALS@)[57].0[4] == 'R');
    assert(table_entries(POPSCRIPT_INTERNALS@)[58].0[4] == 'R');
    assert(table_entries(POPSCRIPT_INTERNALS@)[59].0[4] == 'R');
    assert(table_entries(POPSCRIPT_INTERNALS@)[60].0[4] == 'Y');
    assert(table_entries(POPSCRIPT_INTERNALS@)[61].0[4] == 'Y');
    assert(table_entries(POPSCRIPT_INTERNALS@)[62].0[4] == 'Y');
    assert(table_entries(POPSCRIPT_INTERNALS@)[63].0[4] == 'Y');
    assert(table_entries(POPSCRIPT_INTERNALS@)[64].0[4] == 'Y');
    assert(table_entries(POPSCRIPT_INTERNALS@)[65].0[4] == 'Y');
    assert(table_entries(POPSCRIPT_INTERNALS@)[66].0[4] == 'Y');
    assert(table_entries(POPSCRIPT_INTERNALS@)[67].0[4] == 'Y');
    assert(table_entries(POPSCRIPT_INTERNALS@)[68].0[4] == 'G');
    assert(table_entries(POPSCRIPT_INTERNALS@)[69].0[4] == 'G');
    assert(table_entries(POPSCRIPT_INTERNALS@)[70].0[4] == 'G');
    assert(table_entries(POPSCRIPT_INTERNALS@)[71].0[4] == 'G');
    assert(table_entries(POPSCRIPT_INTERNALS@)[72].0[4] == 'G');
    assert(table_entries(POPSCRIPT_INTERNALS@)[73].0[4] == 'G');
    assert(table_entries(POPSCRIPT_INTERNALS@)[74].0[4] == 'G');
    assert(table_entries(POPSCRIPT_INTERNALS@)[75].0[4] == 'G');
    assert(table_entries(POPSCRIPT_INTERNALS@)[76].0[4] == 'M');
    assert(table_entries(POPSCRIPT_INTERNALS@)[77].0[4] == 'M');
    assert(table_entries(POPSCRIPT_INTERNALS@)[78].0[4] == 'M');
    assert(table_entries(POPSCRIPT_INTERNALS@)[79].0[4] == 'M');
    assert(table_entries(POPSCRIPT_INTERNALS@)[80].0[4] == 'M');
    assert(table_entries(POPSCRIPT_INTERNALS@)[81].0[4] == 'M');
    assert(table_entries(POPSCRIPT_INTERNALS@)[82].0[4] == 'M');
    assert(table_entries(POPSCRIPT_INTERNALS@)[83].0[4] == 'M');
    assert(table_entries(POPSCRIPT_INTERNALS@)[84].0[4] == 'M');
    assert(table_entries(POPSCRIPT_INTERNALS@)[85].0[4] == 'M');
    assert(table_entries(POPSCRIPT_INTERNALS@)[86].0[4] == 'M');
    assert(table_entries(POPSCRIPT_INTERNALS@)[87].0[4] == 'M');
    assert(table_entries(POPSCRIPT_INTERNALS@)[88].0[4] == 'M');
    assert(table_entries(POPSCRIPT_INTERNALS@)[89].0[4] == 'M');
    assert(table_entries(POPSCRIPT_INTERNALS@)[90].0[4] == 'M');
    assert(table_entries(POPSCRIPT_INTERNALS@)[91].0[4] == 'M');
    assert(table_entries(POPSCRIPT_INTERNALS@)[92].0[4] == 'M');
    assert(table_entries(POPSCRIPT_INTERNALS@)[93].0[4] == 'M');
    assert(table_entries(POPSCRIPT_INTERNALS@)[94].0[4] == 'M');
    assert(table_entries(POPSCRIPT_INTERNALS@)[95].0[4] == 'M');
    assert(table_entries(POPSCRIPT_INTERNALS@)[96].0[4] == 'M');
    assert(table_entries(POPSCRIPT_INTERNALS@)[97].0[4] == 'M');
    assert(table_entries(POPSCRIPT_INTERNALS@)[98].0[4] == 'M');
    assert(table_entries(POPSCRIPT_INTERNALS@)[99].0[4] == 'M');
    assert(table_entries(POPSCRIPT_INTERNALS@)[100].0[4] == 'M');
    assert(table_entries(POPSCRIPT_INTERNALS@)[101].0[4] == 'M');
    assert(table_entries(POPSCRIPT_INTERNALS@)[102].0[4] == 'M');
    assert(table_entries(POPSCRIPT_INTERNALS@)[103].0[4] == 'M');
    assert(table_entries(POPSCRIPT_INTERNALS@)[104].0[4] == 'M');
    assert(table_entries(POPSCRIPT_INTERNALS@)[105].0[4] == 'M');
    assert(table_entries(POPSCRIPT_INTERNALS@)[106].0[4] == 'M');
    assert(table_entries(POPSCRIPT_INTERNALS@)[107].0[4] == 'M');
    assert(table_entries(POPSCRIPT_INTERNALS@)[108].0[4] == 'M');
    assert(table_entries(POPSCRIPT_INTERNALS@)[109].0[4] == 'M');
    assert(table_entries(POPSCRIPT_INTERNALS@)[110].0[4] == 'M');
    assert(table_entries(POPSCRIPT_INTERNALS@)[111].0[4] == 'M');
    assert(table_entries(POPSCRIPT_INTERNALS@)[112].0[4] == 'M');
    assert(table_entries(POPSCRIPT_INTERNALS@)[113].0[4] == 'M');
    assert(table_entries(POPSCRIPT_INTERNALS@)[114].0[4] == 'M');
    assert(table_entries(POPSCRIPT_INTERNALS@)[115].0[4] == 'M');
    assert(table_entries(POPSCRIPT_INTERNALS@)[116].0[4] == 'M');
    assert(table_entries(POPSCRIPT_INTERNALS@)[117].0[4] == 'M');
    assert(table_entries(POPSCRIPT_INTERNALS@)[118].0[4] == 'M');
    assert(table_entries(POPSCRIPT_INTERNALS@)[119].0[4] == 'G');
    assert(table_entries(POPSCRIPT_INTERNALS@)[120].0[4] == 'M');
    assert(table_entries(POPSCRIPT_INTERNALS@)[121].0[4] == 'M');
    assert(table_entries(POPSCRIPT_INTERNALS@)[122].0[4] == 'M');
    assert(table_entries(POPSCRIPT_INTERNALS@)[123].0[4] == 'M');
    assert(table_entries(POPSCRIPT_INTERNALS@)[124].0[4] == 'M');
    assert(table_entries(POPSCRIPT_INTERNALS@)[125].0[4] == 'B');
    assert(table_entries(POPSCRIPT_INTERNALS@)[126].0[4] == 'R');
    assert(table_entries(POPSCRIPT_INTERNALS@)[127].0[4] == 'Y');
    assert(table_entries(POPSCRIPT_INTERNALS@)[128].0[4] == 'G');
    assert(table_entries(POPSCRIPT_INTERNALS@)[129].0[4] == 'B');
    assert(table_entries(POPSCRIPT_INTERNALS@)[130].0[4] == 'R');
    assert(table_entries(POPSCRIPT_INTERNALS@)[131].0[4] == 'Y');
    assert(table_entries(POPSCRIPT_INTERNALS@)[132].0[4] == 'G');
    assert(table_entries(POPSCRIPT_INTERNALS@)[133].0[4] == 'M');
    assert(table_entries(POPSCRIPT_INTERNALS@)[134].0[4] == 'M');
    assert(table_entries(POPSCRIPT_INTERNALS@)[135].0[4] == 'D');
    assert(table_entries(POPSCRIPT_INTERNALS@)[136].0[4] == 'R');
    assert(table_entries(POPSCRIPT_INTERNALS@)[137].0[4] == 'W');
    assert(table_entries(POPSCRIPT_INTERNALS@)[138].0[4] == 'M');
    assert(table_entries(POPSCRIPT_INTERNALS@)[139].0[4] == 'T');
    assert(table_entries(POPSCRIPT_INTERNALS@)[140].0[4] == 'M');
    assert(table_entries(POPSCRIPT_INTERNALS@)[141].0[4] == 'M');
    assert(table_entries(POPSCRIPT_INTERNALS@)[142].0[4] == 'B');
    assert(table_entries(POPSCRIPT_INTERNALS@)[143].0[4] == 'R');
    assert(table_entries(POPSCRIPT_INTERNALS@)[144].0[4] == 'Y');
    assert(table_entries(POPSCRIPT_INTERNALS@)[145].0[4] == 'G');
    assert(table_entries(POPSCRIPT_INTERNALS@)[146].0[4] == 'I');
    assert(table_entries(POPSCRIPT_INTERNALS@)[147].0[4] == 'I');
    assert(table_entries(POPSCRIPT_INTERNALS@)[148].0[4] == 'M');
    assert(table_entries(POPSCRIPT_INTERNALS@)[149].0[4] == 'M');
}

/// Every state and direction of the PopScript module is named `INT_` and one of `E`, `N`, `S`, `W`, `Y`.
proof fn lemma_states_fifth()
    ensures
        forall|k: int|
            0 <= k < 16 ==> (#[trigger] table_entries(POPSCRIPT_STATES@)[k]).0.len() >= 5
                && set!['E', 'N', 'S', 'W', 'Y'].contains(table_entries(POPSCRIPT_STATES@)[k].0[4]),
        table_entries(POPSCRIPT_STATES@).len() == 16,
{
    reveal_strlit("INT_STATE_IDLE");
    reveal_strlit("INT_STATE_GATHER");
    reveal_strlit("INT_STATE_ATTACK");
    reveal_strlit("INT_STATE_DEFEND");
    reveal_strlit("INT_STATE_BUILD");
    reveal_strlit("INT_STATE_CONVERT");
    reveal_strlit("INT_STATE_PREACH");
    reveal_strlit("INT_STATE_SPY");
    reveal_strlit("INT_STATE_PATROL");
    reveal_strlit("INT_STATE_GUARD");
    reveal_strlit("INT_NO");
    reveal_strlit("INT_YES");
    reveal_strlit("INT_NORTH");
    reveal_strlit("INT_SOUTH");
    reveal_strlit("INT_EAST");
    reveal_strlit("INT_WEST");
    assert(table_entries(POPSCRIPT_STATES@)[0].0[4] == 'S');
    assert(table_entries(POPSCRIPT_STATES@)[1].0[4] == 'S');
    assert(table_entries(POPSCRIPT_STATES@)[2].0[4] == 'S');
    assert(table_entries(POPSCRIPT_STATES@)[3].0[4] == 'S');
    assert(table_entries(POPSCRIPT_STATES@)[4].0[4] == 'S');
    assert(table_entries(POPSCRIPT_STATES@)[5].0[4] == 'S');
    assert(table_entries(POPSCRIPT_STATES@)[6].0[4] == 'S');
    assert(table_entries(POPSCRIPT_STATES@)[7].0[4] == 'S');
    assert(table_entries(POPSCRIPT_STATES@)[8].0[4] == 'S');
    assert(table_entries(POPSCRIPT_STATES@)[9].0[4] == 'S');
    assert(table_entries(POPSCRIPT_STATES@)[10].0[4] == 'N');
    assert(table_entries(POPSCRIPT_STATES@)[11].0[4] == 'Y');
    assert(table_entries(POPSCRIPT_STATES@)[12].0[4] == 'N');
    assert(table_entries(POPSCRIPT_STATES@)[13].0[4] == 'S');
    assert(table_entries(POPSCRIPT_STATES@)[14].0[4] == 'E');
    assert(table_entries(POPSCRIPT_STATES@)[15].0[4] == 'W');
}

/// No name of a family has character `c` at position `i` when its prefix
/// has another there.
proof fn lemma_family_avoids_at(prefix: Seq<char>, lo: int, hi: int, base: int, name: Seq<char>, i: int)
    requires
        lo <= hi,
        0 <= i < prefix.len(),
        i < name.len(),
        name[i] != prefix[i],
    ensures
        avoids(family(prefix, lo, hi, base), name),
{
    lemma_family_shape(prefix, lo, hi, base);
    assert forall|k: int| 0 <= k < hi - lo implies #[trigger] family(prefix, lo, hi, base)[k].0 != name by {
        assert(family(prefix, lo, hi, base)[k].0[i] == prefix[i]);
    }
}

/// No entry of a table whose names have, at position 4, only characters of
/// `cs` is named `name` when `name` has another character there.
proof fn lemma_table_avoids_at(t: Seq<(Seq<char>, i32)>, cs: Set<char>, name: Seq<char>)
    requires
        forall|k: int| 0 <= k < t.len() ==> (#[trigger] t[k]).0.len() >= 5 && cs.contains(t[k].0[4]),
        name.len() >= 5,
        !cs.contains(name[4]),
    ensures
        avoids(t, name),
{
    assert forall|k: int| 0 <= k < t.len() implies #[trigger] t[k].0 != name by {
        if t[k].0 == name {
            assert(t[k].0[4] == name[4]);
        }
    }
}

/// The PopScript module's numbered families are there over their whole range
/// and looking up one of their names gives its value (no later registration
/// replaces it): `INT_ATTR_0` to `INT_ATTR_47` give 1000 to 1047, and
/// `INT_MARKER_0` to `INT_MARKER_255` give their numbers.
pub proof fn lemma_popscript_families(i: int)
    ensures
        0 <= i < 48 ==> last_value(popscript_constant_entries(), "INT_ATTR_"@ + decimal(i)) == Some(
            (1000 + i) as i32,
        ),
        0 <= i < 256 ==> last_value(popscript_constant_entries(), "INT_MARKER_"@ + decimal(i)) == Some(i as i32),
{
    reveal_with_fuel(concat_parts, 6);
    assert(concat_parts(popscript_parts(), 0) + popscript_parts()[0] =~= popscript_parts()[0]);
    assert(concat_parts(popscript_parts(), 5) == popscript_constant_entries());
    reveal_strlit("INT_ATTR_");
    reveal_strlit("INT_MARKER_");
    lemma_internals_fifth();
    lemma_states_fifth();
    if 0 <= i < 48 {
        let name = "INT_ATTR_"@ + decimal(i);
        assert(name[4] == 'A');
        lemma_family_lookup("INT_ATTR_"@, 0, 48, 1000, i);
        lemma_table_avoids_at(popscript_parts()[2], set!['B', 'D', 'G', 'I', 'M', 'R', 'T', 'W', 'Y'], name);
        lemma_family_avoids_at("INT_MARKER_"@, 0, 256, 0, name, 4);
        lemma_table_avoids_at(popscript_parts()[4], set!['E', 'N', 'S', 'W', 'Y'], name);
        lemma_concat_lookup(popscript_parts(), 5, 1, name);
    }
    if 0 <= i < 256 {
        let name = "INT_MARKER_"@ + decimal(i);
        assert(name[4] == 'M');
        lemma_family_lookup("INT_MARKER_"@, 0, 256, 0, i);
        lemma_table_avoids_at(popscript_parts()[4], set!['E', 'N', 'S', 'W', 'Y'], name);
        lemma_concat_lookup(popscript_parts(), 5, 3, name);
    }
}

/// The first two letters of each unit, alias and spell name of the game defines.
proof fn lemma_alias_heads()
    ensures
        forall|k: int|
            0 <= k < 45 ==> (#[trigger] table_entries(DEFINES_UNITS_AND_ALIASES@)[k]).0.len() >= 2 && set![
                ('A', 'N'),
                ('A', 'T'),
                ('B', 'L'),
                ('C', 'O'),
                ('C', 'R'),
                ('D', 'O'),
                ('E', 'A'),
                ('E', 'R'),
                ('F', 'A'),
                ('F', 'I'),
                ('F', 'L'),
                ('H', 'Y'),
                ('I', 'F'),
                ('I', 'N'),
                ('L', 'A'),
                ('L', 'I'),
                ('M', 'O'),
                ('N', 'O'),
                ('O', 'F'),
                ('O', 'N'),
                ('R', 'E'),
                ('S', 'E'),
                ('S', 'H'),
                ('S', 'W'),
                ('T', 'I'),
                ('T', 'R'),
                ('V', 'E'),
                ('V', 'O'),
                ('W', 'H'),
            ].contains(head(table_entries(DEFINES_UNITS_AND_ALIASES@)[k].0)),
        table_entries(DEFINES_UNITS_AND_ALIASES@).len() == 45,
{
    reveal_strlit("ON");
    reveal_strlit("DO");
    reveal_strlit("IF");
    reveal_strlit("CREATURE_EAGLE");
    reveal_strlit("CREATURE_BEAR");
    reveal_strlit("CREATURE_WOLF");
    reveal_strlit("VEHICLE_BOAT");
    reveal_strlit("VEHICLE_AIRSHIP");
    reveal_strlit("REINCARNATION_ENABLED");
    reveal_strlit("REINCARNATION_DISABLED");
    reveal_strlit("TIMER_FAST");
    reveal_strlit("TIMER_MEDIUM");
    reveal_strlit("TIMER_SLOW");
    reveal_strlit("TIMER_VERY_SLOW");
    reveal_strlit("OFF");
    reveal_strlit("TRUE");
    reveal_strlit("FALSE");
    reveal_strlit("SET");
    reveal_strlit("INCREMENT");
    reveal_strlit("NO_SPECIFIC_SPELL");
    reveal_strlit("NO_SPECIFIC_BUILDING");
    reveal_strlit("NO_SPECIFIC_PERSON");
    reveal_strlit("ATTACK_MARKER");
    reveal_strlit("ATTACK_BUILDING");
    reveal_strlit("ATTACK_PERSON");
    reveal_strlit("CONVERT");
    reveal_strlit("INSECT_PLAGUE");
    reveal_strlit("INVISIBILITY");
    reveal_strlit("SHIELD");
    reveal_strlit("LAND_BRIDGE");
    reveal_strlit("LIGHTNING_BOLT");
    reveal_strlit("HYPNOTISM");
    reveal_strlit("WHIRLWIND");
    reveal_strlit("SWAMP");
    reveal_strlit("FLATTEN");
    reveal_strlit("EARTHQUAKE");
    reveal_strlit("EROSION");
    reveal_strlit("FIRESTORM");
    reveal_strlit("ANGEL_OF_DEATH");
    reveal_strlit("VOLCANO");
    reveal_strlit("BLAST");
    reveal_strlit("COUNT_PEOPLE_IN_HOUSES");
    reveal_strlit("MODE_SINGLEPLAYER");
    reveal_strlit("MODE_MULTIPLAYER");
    reveal_strlit("MODE_TUTORIAL");
    assert(head(table_entries(DEFINES_UNITS_AND_ALIASES@)[0].0) == ('C', 'R'));
    assert(head(table_entries(DEFINES_UNITS_AND_ALIASES@)[1].0) == ('C', 'R'));
    assert(head(table_entries(DEFINES_UNITS_AND_ALIASES@)[2].0) == ('C', 'R'));
    assert(head(table_entries(DEFINES_UNITS_AND_ALIASES@)[3].0) == ('V', 'E'));
    assert(head(table_entries(DEFINES_UNITS_AND_ALIASES@)[4].0) == ('V', 'E'));
    assert(head(table_entries(DEFINES_UNITS_AND_ALIASES@)[5].0) == ('R', 'E'));
    assert(head(table_entries(DEFINES_UNITS_AND_ALIASES@)[6].0) == ('R', 'E'));
    assert(head(table_entries(DEFINES_UNITS_AND_ALIASES@)[7].0) == ('T', 'I'));
    assert(head(table_entries(DEFINES_UNITS_AND_ALIASES@)[8].0) == ('T', 'I'));
    assert(head(table_entries(DEFINES_UNITS_AND_ALIASES@)[9].0) == ('T', 'I'));
    assert(head(table_entries(DEFINES_UNITS_AND_ALIASES@)[10].0) == ('T', 'I'));
    assert(head(table_entries(DEFINES_UNITS_AND_ALIASES@)[11].0) == ('O', 'N'));
    assert(head(table_entries(DEFINES_UNITS_AND_ALIASES@)[12].0) == ('O', 'F'));
    assert(head(table_entries(DEFINES_UNITS_AND_ALIASES@)[13].0) == ('T', 'R'));
    assert(head(table_entries(DEFINES_UNITS_AND_ALIASES@)[14].0) == ('F', 'A'));
    assert(head(table_entries(DEFINES_UNITS_AND_ALIASES@)[15].0) == ('D', 'O'));
    assert(head(table_entries(DEFINES_UNITS_AND_ALIASES@)[16].0) == ('S', 'E'));
    assert(head(table_entries(DEFINES_UNITS_AND_ALIASES@)[17].0) == ('I', 'N'));
    assert(head(table_entries(DEFINES_UNITS_AND_ALIASES@)[18].0) == ('I', 'F'));
    assert(head(table_entries(DEFINES_UNITS_AND_ALIASES@)[19].0) == ('N', 'O'));
    assert(head(table_entries(DEFINES_UNITS_AND_ALIASES@)[20].0) == ('N', 'O'));
    assert(head(table_entries(DEFINES_UNITS_AND_ALIASES@)[21].0) == ('N', 'O'));
    assert(head(table_entries(DEFINES_UNITS_AND_ALIASES@)[22].0) == ('A', 'T'));
    assert(head(table_entries(DEFINES_UNITS_AND_ALIASES@)[23].0) == ('A', 'T'));
    assert(head(table_entries(DEFINES_UNITS_AND_ALIASES@)[24].0) == ('A', 'T'));
    assert(head(table_entries(DEFINES_UNITS_AND_ALIASES@)[25].0) == ('C', 'O'));
    assert(head(table_entries(DEFINES_UNITS_AND_ALIASES@)[26].0) == ('I', 'N'));
    assert(head(table_entries(DEFINES_UNITS_AND_ALIASES@)[27].0) == ('I', 'N'));
    assert(head(table_entries(DEFINES_UNITS_AND_ALIASES@)[28].0) == ('S', 'H'));
    assert(head(table_entries(DEFINES_UNITS_AND_ALIASES@)[29].0) == ('L', 'A'));
    assert(head(table_entries(DEFINES_UNITS_AND_ALIASES@)[30].0) == ('L', 'I'));
    assert(head(table_entries(DEFINES_UNITS_AND_ALIASES@)[31].0) == ('H', 'Y'));
    assert(head(table_entries(DEFINES_UNITS_AND_ALIASES@)[32].0) == ('W', 'H'));
    assert(head(table_entries(DEFINES_UNITS_AND_ALIASES@)[33].0) == ('S', 'W'));
    assert(head(table_entries(DEFINES_UNITS_AND_ALIASES@)[34].0) == ('F', 'L'));
    assert(head(table_entries(DEFINES_UNITS_AND_ALIASES@)[35].0) == ('E', 'A'));
    assert(head(table_entries(DEFINES_UNITS_AND_ALIASES@)[36].0) == ('E', 'R'));
    assert(head(table_entries(DEFINES_UNITS_AND_ALIASES@)[37].0) == ('F', 'I'));
    assert(head(table_entries(DEFINES_UNITS_AND_ALIASES@)[38].0) == ('A', 'N'));
    assert(head(table_entries(DEFINES_UNITS_AND_ALIASES@)[39].0) == ('V', 'O'));
    assert(head(table_entries(DEFINES_UNITS_AND_ALIASES@)[40].0) == ('B', 'L'));
    assert(head(table_entries(DEFINES_UNITS_AND_ALIASES@)[41].0) == ('C', 'O'));
    assert(head(table_entries(DEFINES_UNITS_AND_ALIASES@)[42].0) == ('M', 'O'));
    assert(head(table_entries(DEFINES_UNITS_AND_ALIASES@)[43].0) == ('M', 'O'));
    assert(head(table_entries(DEFINES_UNITS_AND_ALIASES@)[44].0) == ('M', 'O'));
}

/// Every availability flag is named `SPELL_...` or `BUILDING_...`.
proof fn lemma_availability_heads()
    ensures
        forall|k: int|
            0 <= k < 32 ==> (#[trigger] table_entries(DEFINES_AVAILABILITY@)[k]).0.len() >= 2
                && set![('B', 'U'), ('S', 'P')].contains(head(table_entries(DEFINES_AVAILABILITY@)[k].0)),
        table_entries(DEFINES_AVAILABILITY@).len() == 32,
{
    reveal_strlit("SPELL_BURN_AVAILABLE");
    reveal_strlit("SPELL_BLAST_AVAILABLE");
    reveal_strlit("SPELL_LIGHTNING_AVAILABLE");
    reveal_strlit("SPELL_TORNADO_AVAILABLE");
    reveal_strlit("SPELL_SWARM_AVAILABLE");
    reveal_strlit("SPELL_INVISIBILITY_AVAILABLE");
    reveal_strlit("SPELL_HYPNOTISM_AVAILABLE");
    reveal_strlit("SPELL_FIRESTORM_AVAILABLE");
    reveal_strlit("SPELL_GHOST_ARMY_AVAILABLE");
    reveal_strlit("SPELL_EROSION_AVAILABLE");
    reveal_strlit("SPELL_SWAMP_AVAILABLE");
    reveal_strlit("SPELL_LAND_BRIDGE_AVAILABLE");
    reveal_strlit("SPELL_ANGEL_OF_DEATH_AVAILABLE");
    reveal_strlit("SPELL_EARTHQUAKE_AVAILABLE");
    reveal_strlit("SPELL_FLATTEN_AVAILABLE");
    reveal_strlit("SPELL_VOLCANO_AVAILABLE");
    reveal_strlit("SPELL_CONVERT_AVAILABLE");
    reveal_strlit("SPELL_ARMAGEDDON_AVAILABLE");
    reveal_strlit("SPELL_SHIELD_AVAILABLE");
    reveal_strlit("SPELL_BLOODLUST_AVAILABLE");
    reveal_strlit("SPELL_TELEPORT_AVAILABLE");
    reveal_strlit("BUILDING_SMALL_HUT_AVAILABLE");
    reveal_strlit("BUILDING_MEDIUM_HUT_AVAILABLE");
    reveal_strlit("BUILDING_LARGE_HUT_AVAILABLE");
    reveal_strlit("BUILDING_DRUM_TOWER_AVAILABLE");
    reveal_strlit("BUILDING_TEMPLE_AVAILABLE");
    reveal_strlit("BUILDING_SPY_TRAIN_AVAILABLE");
    reveal_strlit("BUILDING_WARRIOR_TRAIN_AVAILABLE");
    reveal_strlit("BUILDING_SUPER_TRAIN_AVAILABLE");
    reveal_strlit("BUILDING_BOAT_HUT_AVAILABLE");
    reveal_strlit("BUILDING_AIRSHIP_HUT_AVAILABLE");
    reveal_strlit("BUILDING_GUARD_TOWER_AVAILABLE");
}

/// Tribes, spells, unit, building and model types of the scripts.
pub const POPSCRIPT_TYPES: [(&'static str, i32); 57] = [
    ("INT_BLUE", 0),
    ("INT_RED", 1),
    ("INT_YELLOW", 2),
    ("INT_GREEN", 3),
    ("BLUE", 0),
    ("RED", 1),
    ("YELLOW", 2),
    ("GREEN", 3),
    ("INT_BURN", 1),
    ("INT_BLAST", 2),
    ("INT_LIGHTNING", 3),
    ("INT_TORNADO", 4),
    ("INT_SWARM", 5),
    ("INT_INVISIBILITY", 6),
    ("INT_HYPNOTISM", 7),
    ("INT_FIRESTORM", 8),
    ("INT_GHOST_ARMY", 9),
    ("INT_EROSION", 10),
    ("INT_SWAMP", 11),
    ("INT_LAND_BRIDGE", 12),
    ("INT_ANGEL_OF_DEATH", 13),
    ("INT_EARTHQUAKE", 14),
    ("INT_FLATTEN", 15),
    ("INT_VOLCANO", 16),
    ("INT_CONVERT", 17),
    ("INT_ARMAGEDDON", 18),
    ("INT_SHIELD", 19),
    ("INT_BLOODLUST", 20),
    ("INT_TELEPORT", 21),
    ("INT_BRAVE", 2),
    ("INT_WARRIOR", 3),
    ("INT_PREACHER", 4),
    ("INT_SPY", 5),
    ("INT_SUPER_WARRIOR", 6),
    ("INT_SHAMAN", 7),
    ("INT_SMALL_HUT", 1),
    ("INT_MEDIUM_HUT", 2),
    ("INT_LARGE_HUT", 3),
    ("INT_DRUM_TOWER", 4),
    ("INT_TEMPLE", 5),
    ("INT_SPY_TRAIN", 6),
    ("INT_WARRIOR_TRAIN", 7),
    ("INT_SUPER_TRAIN", 8),
    ("INT_BOAT_HUT", 13),
    ("INT_AIRSHIP_HUT", 14),
    ("INT_GUARD_TOWER", 15),
    ("INT_BOAT_HUT_2", 9),
    ("INT_AIRSHIP_HUT_2", 10),
    ("INT_PRISON", 11),
    ("INT_M_PERSON", 1),
    ("INT_M_BUILDING", 2),
    ("INT_M_CREATURE", 3),
    ("INT_M_EFFECT", 4),
    ("INT_M_SHOT", 5),
    ("INT_M_SHAPE", 6),
    ("INT_M_INTERNAL", 7),
    ("INT_M_SPELL", 8),
];

/// Internal value codes, directions and placement codes.
pub const POPSCRIPT_INTERNALS: [(&'static str, i32); 150] = [
    ("INT_MY_NUM_PEOPLE", 1048),
    ("INT_BLUE_PEOPLE", 1049),
    ("INT_RED_PEOPLE", 1050),
    ("INT_YELLOW_PEOPLE", 1051),
    ("INT_GREEN_PEOPLE", 1052),
    ("INT_MY_NUM_KILLED_BY_BLUE", 1053),
    ("INT_MY_NUM_KILLED_BY_RED", 1054),
    ("INT_MY_NUM_KILLED_BY_YELLOW", 1055),
    ("INT_MY_NUM_KILLED_BY_GREEN", 1056),
    ("INT_MY_NUM_BRAVES", 1057),
    ("INT_MY_NUM_WARRIORS", 1058),
    ("INT_MY_NUM_PREACHERS", 1059),
    ("INT_MY_NUM_SPIES", 1060),
    ("INT_MY_NUM_SUPER_WARRIORS", 1061),
    ("INT_BLUE_BRAVES", 1062),
    ("INT_BLUE_WARRIORS", 1063),
    ("INT_BLUE_PREACHERS", 1064),
    ("INT_BLUE_SPIES", 1065),
    ("INT_BLUE_SUPER_WARRIORS", 1066),
    ("INT_RED_BRAVES", 1067),
    ("INT_RED_WARRIORS", 1068),
    ("INT_RED_PREACHERS", 1069),
    ("INT_RED_SPIES", 1070),
    ("INT_RED_SUPER_WARRIORS", 1071),
    ("INT_YELLOW_BRAVES", 1072),
    ("INT_YELLOW_WARRIORS", 1073),
    ("INT_YELLOW_PREACHERS", 1074),
    ("INT_YELLOW_SPIES", 1075),
    ("INT_YELLOW_SUPER_WARRIORS", 1076),
    ("INT_GREEN_BRAVES", 1077),
    ("INT_GREEN_WARRIORS", 1078),
    ("INT_GREEN_PREACHERS", 1079),
    ("INT_GREEN_SPIES", 1080),
    ("INT_GREEN_SUPER_WARRIORS", 1081),
    ("INT_MY_NUM_SMALL_HUT", 1082),
    ("INT_MY_NUM_MEDIUM_HUT", 1083),
    ("INT_MY_NUM_LARGE_HUT", 1084),
    ("INT_MY_NUM_DRUM_TOWER", 1085),
    ("INT_MY_NUM_TEMPLE", 1086),
    ("INT_MY_NUM_SPY_TRAIN", 1087),
    ("INT_MY_NUM_WARRIOR_TRAIN", 1088),
    ("INT_MY_NUM_SUPER_TRAIN", 1089),
    ("INT_MY_NUM_BOAT_HUT", 1090),
    ("INT_MY_NUM_AIRSHIP_HUT", 1091),
    ("INT_BLUE_NUM_SMALL_HUT", 1092),
    ("INT_BLUE_NUM_MEDIUM_HUT", 1093),
    ("INT_BLUE_NUM_LARGE_HUT", 1094),
    ("INT_BLUE_NUM_DRUM_TOWER", 1095),
    ("INT_BLUE_NUM_TEMPLE", 1096),
    ("INT_BLUE_NUM_SPY_TRAIN", 1097),
    ("INT_BLUE_NUM_WARRIOR_TRAIN", 1098),
    ("INT_BLUE_NUM_SUPER_TRAIN", 1099),
    ("INT_RED_NUM_SMALL_HUT", 1100),
    ("INT_RED_NUM_MEDIUM_HUT", 1101),
    ("INT_RED_NUM_LARGE_HUT", 1102),
    ("INT_RED_NUM_DRUM_TOWER", 1103),
    ("INT_RED_NUM_TEMPLE", 1104),
    ("INT_RED_NUM_SPY_TRAIN", 1105),
    ("INT_RED_NUM_WARRIOR_TRAIN", 1106),
    ("INT_RED_NUM_SUPER_TRAIN", 1107),
    ("INT_YELLOW_NUM_SMALL_HUT", 1108),
    ("INT_YELLOW_NUM_MEDIUM_HUT", 1109),
    ("INT_YELLOW_NUM_LARGE_HUT", 1110),
    ("INT_YELLOW_NUM_DRUM_TOWER", 1111),
    ("INT_YELLOW_NUM_TEMPLE", 1112),
    ("INT_YELLOW_NUM_SPY_TRAIN", 1113),
    ("INT_YELLOW_NUM_WARRIOR_TRAIN", 1114),
    ("INT_YELLOW_NUM_SUPER_TRAIN", 1115),
    ("INT_GREEN_NUM_SMALL_HUT", 1116),
    ("INT_GREEN_NUM_MEDIUM_HUT", 1117),
    ("INT_GREEN_NUM_LARGE_HUT", 1118),
    ("INT_GREEN_NUM_DRUM_TOWER", 1119),
    ("INT_GREEN_NUM_TEMPLE", 1120),
    ("INT_GREEN_NUM_SPY_TRAIN", 1121),
    ("INT_GREEN_NUM_WARRIOR_TRAIN", 1122),
    ("INT_GREEN_NUM_SUPER_TRAIN", 1123),
    ("INT_MY_MANA", 1124),
    ("INT_MY_SPELL_BURN_COST", 1125),
    ("INT_MY_SPELL_BLAST_COST", 1126),
    ("INT_MY_SPELL_LIGHTNING_COST", 1127),
    ("INT_MY_SPELL_TORNADO_COST", 1128),
    ("INT_MY_SPELL_SWARM_COST", 1129),
    ("INT_MY_SPELL_INVISIBILITY_COST", 1130),
    ("INT_MY_SPELL_HYPNOTISM_COST", 1131),
    ("INT_MY_SPELL_FIRESTORM_COST", 1132),
    ("INT_MY_SPELL_GHOST_ARMY_COST", 1133),
    ("INT_MY_SPELL_EROSION_COST", 1134),
    ("INT_MY_SPELL_SWAMP_COST", 1135),
    ("INT_MY_SPELL_LAND_BRIDGE_COST", 1136),
    ("INT_MY_SPELL_ANGEL_OF_DEATH_COST", 1137),
    ("INT_MY_SPELL_EARTHQUAKE_COST", 1138),
    ("INT_MY_SPELL_FLATTEN_COST", 1139),
    ("INT_MY_SPELL_VOLCANO_COST", 1140),
    ("INT_MY_SPELL_CONVERT_COST", 1141),
    ("INT_MY_SPELL_ARMAGEDDON_COST", 1142),
    ("INT_MY_SPELL_SHIELD_COST", 1143),
    ("INT_MY_SPELL_BLOODLUST_COST", 1144),
    ("INT_MY_SPELL_TELEPORT_COST", 1145),
    ("INT_MY_SPELL_BURN_CHARGE", 1146),
    ("INT_MY_SPELL_BLAST_CHARGE", 1147),
    ("INT_MY_SPELL_LIGHTNING_CHARGE", 1148),
    ("INT_MY_SPELL_TORNADO_CHARGE", 1149),
    ("INT_MY_SPELL_SWARM_CHARGE", 1150),
    ("INT_MY_SPELL_INVISIBILITY_CHARGE", 1151),
    ("INT_MY_SPELL_HYPNOTISM_CHARGE", 1152),
    ("INT_MY_SPELL_FIRESTORM_CHARGE", 1153),
    ("INT_MY_SPELL_GHOST_ARMY_CHARGE", 1154),
    ("INT_MY_SPELL_EROSION_CHARGE", 1155),
    ("INT_MY_SPELL_SWAMP_CHARGE", 1156),
    ("INT_MY_SPELL_LAND_BRIDGE_CHARGE", 1157),
    ("INT_MY_SPELL_ANGEL_OF_DEATH_CHARGE", 1158),
    ("INT_MY_SPELL_EARTHQUAKE_CHARGE", 1159),
    ("INT_MY_SPELL_FLATTEN_CHARGE", 1160),
    ("INT_MY_SPELL_VOLCANO_CHARGE", 1161),
    ("INT_MY_SPELL_CONVERT_CHARGE", 1162),
    ("INT_MY_SPELL_ARMAGEDDON_CHARGE", 1163),
    ("INT_MY_SPELL_SHIELD_CHARGE", 1164),
    ("INT_MY_SPELL_BLOODLUST_CHARGE", 1165),
    ("INT_MY_SPELL_TELEPORT_CHARGE", 1166),
    ("INT_GAME_TURN", 1167),
    ("INT_MY_REINCARNATION_TIMER", 1168),
    ("INT_MY_SHAMAN_LIVES", 1169),
    ("INT_MY_NUM_VEHICLES", 1170),
    ("INT_MY_NUM_BOATS", 1171),
    ("INT_MY_NUM_AIRSHIPS", 1172),
    ("INT_BLUE_SHAMAN_LIVES", 1173),
    ("INT_RED_SHAMAN_LIVES", 1174),
    ("INT_YELLOW_SHAMAN_LIVES", 1175),
    ("INT_GREEN_SHAMAN_LIVES", 1176),
    ("INT_BLUE_KILLED_BY_ME", 1177),
    ("INT_RED_KILLED_BY_ME", 1178),
    ("INT_YELLOW_KILLED_BY_ME", 1179),
    ("INT_GREEN_KILLED_BY_ME", 1180),
    ("INT_MY_NUM_PEOPLE_AT_MARKER", 1181),
    ("INT_MY_NUM_GUARD_POSTS", 1182),
    ("INT_DEFENSE_SHIELD_COUNT", 1183),
    ("INT_RANDOM_100", 1237),
    ("INT_WILD_PEOPLE", 1190),
    ("INT_MY_WOOD_COUNT", 1191),
    ("INT_TARGET_SHAMAN_NUM_BRAVES", 1192),
    ("INT_MY_ATTACK_ARMY_COUNT", 1193),
    ("INT_MY_DEFEND_ARMY_COUNT", 1194),
    ("INT_BLUE_MANA", 1195),
    ("INT_RED_MANA", 1196),
    ("INT_YELLOW_MANA", 1197),
    ("INT_GREEN_MANA", 1198),
    ("INT_IS_SHAMAN_AVAILABLE", 1199),
    ("INT_IS_SHAMAN_ALIVE", 1200),
    ("INT_M_PERSON_LEFT_OF_DRUM_TOWER", 3),
    ("INT_M_PERSON_RIGHT_OF_DRUM_TOWER", 4),
];

/// States and compass directions.
pub const POPSCRIPT_STATES: [(&'static str, i32); 16] = [
    ("INT_STATE_IDLE", 0),
    ("INT_STATE_GATHER", 1),
    ("INT_STATE_ATTACK", 2),
    ("INT_STATE_DEFEND", 3),
    ("INT_STATE_BUILD", 4),
    ("INT_STATE_CONVERT", 5),
    ("INT_STATE_PREACH", 6),
    ("INT_STATE_SPY", 7),
    ("INT_STATE_PATROL", 8),
    ("INT_STATE_GUARD", 9),
    ("INT_NO", 0),
    ("INT_YES", 1),
    ("INT_NORTH", 0),
    ("INT_SOUTH", 1),
    ("INT_EAST", 2),
    ("INT_WEST", 3),
];

/// Game defines: attacks, targets, buttons, effects, buildings, terrain and more.
pub const DEFINES_GAME: [(&'static str, i32); 270] = [
    ("ATTACK_NORMAL", 0),
    ("ATTACK_BY_BOAT", 1),
    ("ATTACK_BY_BALLOON", 2),
    ("TARGET_SHAMAN", 0),
    ("TARGET_BUILDING", 1),
    ("TARGET_PERSON", 2),
    ("TARGET_MARKER", 3),
    ("ATTR_EXPANSION", 0),
    ("ATTR_PREF_SPY_TRAINS", 1),
    ("ATTR_PREF_WARRIOR_TRAINS", 2),
    ("ATTR_PREF_RELIGIOUS_TRAINS", 3),
    ("ATTR_PREF_SUPER_WARRIOR_TRAINS", 4),
    ("ATTR_PREF_SPY_PEOPLE", 5),
    ("ATTR_PREF_WARRIOR_PEOPLE", 6),
    ("ATTR_PREF_RELIGIOUS_PEOPLE", 7),
    ("ATTR_PREF_SUPER_WARRIOR_PEOPLE", 8),
    ("ATTR_MAX_BUILDINGS_ON_GO", 9),
    ("ATTR_HOUSE_PERCENTAGE", 10),
    ("ATTR_AWAY_BRAVE", 11),
    ("ATTR_AWAY_WARRIOR", 12),
    ("ATTR_AWAY_RELIGIOUS", 13),
    ("ATTR_DEFENSE_RAD_INCR", 14),
    ("ATTR_MAX_DEFENSIVE_ACTIONS", 15),
    ("ATTR_AWAY_SPY", 16),
    ("ATTR_AWAY_SUPER_WARRIOR", 17),
    ("ATTR_ATTACK_PERCENTAGE", 18),
    ("ATTR_AWAY_SHAMAN", 19),
    ("ATTR_PEOPLE_PER_BOAT", 20),
    ("ATTR_PEOPLE_PER_BALLOON", 21),
    ("ATTR_DONT_USE_BOATS", 22),
    ("ATTR_MAX_SPY_ATTACKS", 23),
    ("ATTR_ENEMY_SPY_MAX_STAND", 24),
    ("ATTR_MAX_ATTACKS", 25),
    ("ATTR_EMPTY_AT_WAYPOINT", 26),
    ("ATTR_SPY_CHECK_FREQUENCY", 27),
    ("ATTR_RETREAT_VALUE", 28),
    ("ATTR_BASE_UNDER_ATTACK_RETREAT", 29),
    ("ATTR_RANDOM_BUILD_SIDE", 30),
    ("ATTR_USE_PREACHER_FOR_DEFENCE", 31),
    ("ATTR_SHAMEN_BLAST", 32),
    ("ATTR_MAX_TRAIN_AT_ONCE", 33),
    ("ATTR_GROUP_OPTION", 34),
    ("ATTR_PREF_BOAT_HUTS", 35),
    ("ATTR_PREF_BALLOON_HUTS", 36),
    ("ATTR_PREF_GUARD_TOWERS", 37),
    ("ATTR_FIGHT_STOP_DISTANCE", 38),
    ("ATTR_SPY_DISCOVER_CHANCE", 39),
    ("ATTR_COUNT_PREACH_DAMAGE", 40),
    ("ATTR_DONT_GROUP_AT_DT", 41),
    ("ATTR_SPELL_DELAY", 42),
    ("ATTR_DONT_DELETE_USELESS_BOAT_HOUSE", 43),
    ("ATTR_BOAT_HOUSE_BROKEN", 44),
    ("ATTR_DONT_AUTO_TRAIN_PREACHERS", 45),
    ("ATTR_SPARE_6", 46),
    ("ATTR_SPARE_7", 47),
    ("FLAG_SHAMAN_DEFEND", 0),
    ("FLAG_DONT_PREACH", 1),
    ("FLAG_DONT_TARGET_DT", 2),
    ("FLAG_ONLY_STAND_AT_MARKERS", 3),
    ("BTN_BURN", 0),
    ("BTN_BLAST", 1),
    ("BTN_LIGHTNING", 2),
    ("BTN_TORNADO", 3),
    ("BTN_SWARM", 4),
    ("BTN_INVISIBILITY", 5),
    ("BTN_HYPNOTISM", 6),
    ("BTN_FIRESTORM", 7),
    ("BTN_GHOST_ARMY", 8),
    ("BTN_EROSION", 9),
    ("BTN_SWAMP", 10),
    ("BTN_LAND_BRIDGE", 11),
    ("BTN_ANGEL_OF_DEATH", 12),
    ("BTN_EARTHQUAKE", 13),
    ("BTN_FLATTEN", 14),
    ("BTN_VOLCANO", 15),
    ("BTN_CONVERT", 16),
    ("BTN_ARMAGEDDON", 17),
    ("BTN_SHIELD", 18),
    ("BTN_BLOODLUST", 19),
    ("BTN_TELEPORT", 20),
    ("BTN_SMALL_HUT", 21),
    ("BTN_MEDIUM_HUT", 22),
    ("BTN_LARGE_HUT", 23),
    ("BTN_DRUM_TOWER", 24),
    ("BTN_TEMPLE", 25),
    ("BTN_SPY_TRAIN", 26),
    ("BTN_WARRIOR_TRAIN", 27),
    ("BTN_SUPER_TRAIN", 28),
    ("BTN_GUARD_TOWER", 29),
    ("BTN_BOAT_HUT", 30),
    ("BTN_AIRSHIP_HUT", 31),
    ("BTN_BRAVE", 32),
    ("BTN_WARRIOR", 33),
    ("BTN_PREACHER", 34),
    ("BTN_SPY", 35),
    ("BTN_SUPER_WARRIOR", 36),
    ("CMD_PRIMARY_ATTACK", 0),
    ("CMD_SECONDARY_ATTACK", 1),
    ("CMD_DEFEND_POSITION", 2),
    ("CMD_SPELL_CASTING", 3),
    ("CMD_ARMY_MOVEMENT", 4),
    ("CMD_BUILDING_PLACEMENT", 5),
    ("CMD_RESOURCE_GATHERING", 6),
    ("CMD_CONVERSION", 7),
    ("FLYBY_TRACK_TARGET", 0),
    ("FLYBY_FREE_CAMERA", 1),
    ("FLYBY_ROTATE_AROUND", 2),
    ("DIALOG_NONE", 0),
    ("DIALOG_NARRATIVE", 1),
    ("DIALOG_OBJECTIVE", 2),
    ("DIALOG_INFO", 3),
    ("DIFFICULTY_EASY", 0),
    ("DIFFICULTY_MEDIUM", 1),
    ("DIFFICULTY_HARD", 2),
    ("MAP_SIZE_TINY", 0),
    ("MAP_SIZE_SMALL", 1),
    ("MAP_SIZE_MEDIUM", 2),
    ("MAP_SIZE_LARGE", 3),
    ("MAP_SIZE_HUGE", 4),
    ("SPELL_ENTRY_BURN", 0),
    ("SPELL_ENTRY_BLAST", 1),
    ("SPELL_ENTRY_LIGHTNING", 2),
    ("SPELL_ENTRY_TORNADO", 3),
    ("SPELL_ENTRY_SWARM", 4),
    ("SPELL_ENTRY_INVISIBILITY", 5),
    ("SPELL_ENTRY_HYPNOTISM", 6),
    ("SPELL_ENTRY_FIRESTORM", 7),
    ("SPELL_ENTRY_GHOST_ARMY", 8),
    ("SPELL_ENTRY_EROSION", 9),
    ("SPELL_ENTRY_SWAMP", 10),
    ("SPELL_ENTRY_LAND_BRIDGE", 11),
    ("SPELL_ENTRY_ANGEL_OF_DEATH", 12),
    ("SPELL_ENTRY_EARTHQUAKE", 13),
    ("SPELL_ENTRY_FLATTEN", 14),
    ("SPELL_ENTRY_VOLCANO", 15),
    ("SPELL_ENTRY_CONVERT", 16),
    ("SPELL_ENTRY_ARMAGEDDON", 17),
    ("SPELL_ENTRY_SHIELD", 18),
    ("SPELL_ENTRY_BLOODLUST", 19),
    ("SPELL_ENTRY_TELEPORT", 20),
    ("MARKER_ENTRY_GENERAL", 0),
    ("MARKER_ENTRY_ATTACK", 1),
    ("MARKER_ENTRY_DEFEND", 2),
    ("MARKER_ENTRY_SPY", 3),
    ("BAND_00_03", 0),
    ("BAND_04_07", 1),
    ("BAND_08_11", 2),
    ("BAND_12_15", 3),
    ("BAND_16_20", 4),
    ("BAND_21_PLUS", 5),
    ("THREAT_NONE", 0),
    ("THREAT_LOW", 1),
    ("THREAT_MEDIUM", 2),
    ("THREAT_HIGH", 3),
    ("THREAT_CRITICAL", 4),
    ("SCORE_SHAMAN", 1000),
    ("SCORE_SUPER_WARRIOR", 20),
    ("SCORE_WARRIOR", 10),
    ("SCORE_PREACHER", 15),
    ("SCORE_SPY", 5),
    ("SCORE_EXPOSED_SHAMAN_BONUS", 500),
    ("SCORE_SUPER_TRAIN_BUILDING", 250),
    ("SCORE_TEMPLE_BUILDING", 200),
    ("SCORE_WARRIOR_TRAIN_BUILDING", 180),
    ("SCORE_DRUM_TOWER_BUILDING", 150),
    ("SCORE_DEFAULT_BUILDING", 50),
    ("THREAT_WEIGHT_SHAMAN", 50),
    ("THREAT_WEIGHT_SUPER_WARRIOR", 20),
    ("THREAT_WEIGHT_PREACHER", 15),
    ("THREAT_WEIGHT_WARRIOR", 10),
    ("THREAT_WEIGHT_SPY", 5),
    ("BUILDING_PRIORITY_DRUM_TOWER", 0),
    ("BUILDING_PRIORITY_TRAINING", 1),
    ("BUILDING_PRIORITY_HOUSING", 2),
    ("BUILDING_PRIORITY_REINCARNATION", 3),
    ("SPELL_ID_BURN", 107),
    ("SPELL_ID_BLAST", 108),
    ("SPELL_ID_LIGHTNING", 109),
    ("SPELL_ID_TORNADO", 110),
    ("SPELL_ID_SWARM", 111),
    ("SPELL_ID_INVISIBILITY", 112),
    ("SPELL_ID_HYPNOTISM", 113),
    ("SPELL_ID_FIRESTORM", 114),
    ("SPELL_ID_GHOST_ARMY", 115),
    ("SPELL_ID_EROSION", 116),
    ("SPELL_ID_SWAMP", 117),
    ("SPELL_ID_LAND_BRIDGE", 118),
    ("SPELL_ID_ANGEL_OF_DEATH", 119),
    ("SPELL_ID_EARTHQUAKE", 120),
    ("SPELL_ID_FLATTEN", 121),
    ("SPELL_ID_VOLCANO", 122),
    ("SPELL_ID_CONVERT", 123),
    ("SPELL_ID_ARMAGEDDON", 124),
    ("SPELL_ID_SHIELD", 125),
    ("SPELL_ID_BLOODLUST", 126),
    ("SPELL_ID_TELEPORT", 127),
    ("HEAD_TRIGGER_NONE", 0),
    ("HEAD_TRIGGER_WORSHIP", 1),
    ("HEAD_TRIGGER_SPELL", 2),
    ("HEAD_TRIGGER_BUILDING", 3),
    ("SCENERY_TREE_1", 1),
    ("SCENERY_TREE_2", 2),
    ("SCENERY_TREE_3", 3),
    ("SCENERY_TREE_4", 4),
    ("SCENERY_TREE_5", 5),
    ("SCENERY_TREE_6", 6),
    ("SCENERY_STONE_HEAD", 7),
    ("SCENERY_FIRE", 8),
    ("SCENERY_WOODPILE", 9),
    ("SCENERY_FLOWER", 10),
    ("SCENERY_MUSHROOM", 11),
    ("ATTACK_BUILDING", 3),
    ("ATTACK_PERSON", 4),
    ("ATTACK_MARKER", 5),
    ("ATTR_AWAY_MEDICINE_MAN", 48),
    ("ATTR_EXTENSION", 49),
    ("ATTR_INFO_EXTENSION", 50),
    ("ATTR_PREFIX", 51),
    ("ATTR_PREF_BALLOON_DRIVERS", 52),
    ("ATTR_PREF_BOAT_DRIVERS", 53),
    ("ATTR_VERSION_NUM", 54),
    ("ABF_END_LIST", 65535),
    ("AOF_END_LIST", 65535),
    ("AMBIENT_FLAG_HIGH_LAND", 1),
    ("AMBIENT_FLAG_LOW_LAND", 2),
    ("AMBIENT_FLAG_SPACE", 4),
    ("AMBIENT_FLAG_WATER", 8),
    ("AOD2_FLAG_EXPLODE_PENDING", 1),
    ("AOD2_FLAG_WHIRLWIND_AFFECTED", 2),
    ("AFFECT_ALTITUDE", 1),
    ("AFFECT_FIRE", 2),
    ("AFFECT_RAISE_LOWER", 4),
    ("ADD_ON_TYPE_NONE", 0),
    ("ADD_ON_TYPE_WELL", 1),
    ("ADD_ON_TYPE_WINDMIL", 2),
    ("ADD_ON_TYPE_WOODHUT", 3),
    ("AAM_FLATTEN", 0),
    ("AAM_RAISE_LOWER", 1),
    ("AE_MAP_SIZE", 0),
    ("AE_MAP_XZ_SIZE", 1),
    ("AE_MAX_NUM_THINGS", 2048),
    ("ADD_WALL", 0),
    ("AIRSHIPSLIST", 0),
    ("ALPHA_TABLE_FILE_NAME", 0),
    ("ALT_BAND_SIZE", 16),
    ("ALT_CHANGE_AMT", 1),
    ("ALT_QUANTISATION", 4),
    ("ANGEL_HOVER_ALT", 100),
    ("ANGEL_HOVER_COUNT", 32),
    ("ANGEL_KILL_LIMIT", 10),
    ("ANGEL_LOCAL_SEARCH_RAD", 50),
    ("ANGEL_LOWER_COUNT", 16),
    ("ANGEL_SEARCH_PER_TURN", 4),
    ("ANGEL_WAIT_TIME", 60),
    ("ANGEL_WIDE_SEARCH_RAD", 200),
    ("ANGLE_TWEEN_COUNT", 8),
    ("ARMA_SS_FIGHTING", 0),
    ("ARMA_SS_PREPARE_FIGHTERS", 1),
    ("ARMA_SS_PREPARE_LAND", 2),
    ("AT_NONE", 0),
    ("AT_OBJ_MORPH", 1),
    ("AT_OBJ_NORMAL", 2),
    ("AT_SPR_ANIM", 3),
    ("AT_SPR_NORMAL", 4),
    ("SCENERY_OBELISK", 12),
    ("TERRAIN_GRASS", 0),
    ("TERRAIN_WATER", 1),
    ("TERRAIN_SAND", 2),
    ("TERRAIN_SNOW", 3),
    ("TERRAIN_ROCK", 4),
];

/// Creatures, vehicles, timers, boolean aliases and game modes.
pub const DEFINES_UNITS_AND_ALIASES: [(&'static str, i32); 45] = [
    ("CREATURE_EAGLE", 0),
    ("CREATURE_BEAR", 1),
    ("CREATURE_WOLF", 2),
    ("VEHICLE_BOAT", 0),
    ("VEHICLE_AIRSHIP", 1),
    ("REINCARNATION_ENABLED", 1),
    ("REINCARNATION_DISABLED", 0),
    ("TIMER_FAST", 32),
    ("TIMER_MEDIUM", 64),
    ("TIMER_SLOW", 128),
    ("TIMER_VERY_SLOW", 256),
    ("ON", 1),
    ("OFF", 0),
    ("TRUE", 1),
    ("FALSE", 0),
    ("DO", 1),
    ("SET", 1),
    ("INCREMENT", 1),
    ("IF", 1),
    ("NO_SPECIFIC_SPELL", -1),
    ("NO_SPECIFIC_BUILDING", -1),
    ("NO_SPECIFIC_PERSON", -1),
    ("ATTACK_MARKER", 5),
    ("ATTACK_BUILDING", 3),
    ("ATTACK_PERSON", 4),
    ("CONVERT", 0),
    ("INSECT_PLAGUE", 1),
    ("INVISIBILITY", 2),
    ("SHIELD", 3),
    ("LAND_BRIDGE", 4),
    ("LIGHTNING_BOLT", 5),
    ("HYPNOTISM", 6),
    ("WHIRLWIND", 7),
    ("SWAMP", 8),
    ("FLATTEN", 9),
    ("EARTHQUAKE", 10),
    ("EROSION", 11),
    ("FIRESTORM", 12),
    ("ANGEL_OF_DEATH", 13),
    ("VOLCANO", 14),
    ("BLAST", 1),
    ("COUNT_PEOPLE_IN_HOUSES", 0),
    ("MODE_SINGLEPLAYER", 0),
    ("MODE_MULTIPLAYER", 1),
    ("MODE_TUTORIAL", 2),
];

/// Spell and building availability flags.
pub const DEFINES_AVAILABILITY: [(&'static str, i32); 32] = [
    ("SPELL_BURN_AVAILABLE", 0),
    ("SPELL_BLAST_AVAILABLE", 1),
    ("SPELL_LIGHTNING_AVAILABLE", 2),
    ("SPELL_TORNADO_AVAILABLE", 3),
    ("SPELL_SWARM_AVAILABLE", 4),
    ("SPELL_INVISIBILITY_AVAILABLE", 5),
    ("SPELL_HYPNOTISM_AVAILABLE", 6),
    ("SPELL_FIRESTORM_AVAILABLE", 7),
    ("SPELL_GHOST_ARMY_AVAILABLE", 8),
    ("SPELL_EROSION_AVAILABLE", 9),
    ("SPELL_SWAMP_AVAILABLE", 10),
    ("SPELL_LAND_BRIDGE_AVAILABLE", 11),
    ("SPELL_ANGEL_OF_DEATH_AVAILABLE", 12),
    ("SPELL_EARTHQUAKE_AVAILABLE", 13),
    ("SPELL_FLATTEN_AVAILABLE", 14),
    ("SPELL_VOLCANO_AVAILABLE", 15),
    ("SPELL_CONVERT_AVAILABLE", 16),
    ("SPELL_ARMAGEDDON_AVAILABLE", 17),
    ("SPELL_SHIELD_AVAILABLE", 18),
    ("SPELL_BLOODLUST_AVAILABLE", 19),
    ("SPELL_TELEPORT_AVAILABLE", 20),
    ("BUILDING_SMALL_HUT_AVAILABLE", 0),
    ("BUILDING_MEDIUM_HUT_AVAILABLE", 1),
    ("BUILDING_LARGE_HUT_AVAILABLE", 2),
    ("BUILDING_DRUM_TOWER_AVAILABLE", 3),
    ("BUILDING_TEMPLE_AVAILABLE", 4),
    ("BUILDING_SPY_TRAIN_AVAILABLE", 5),
    ("BUILDING_WARRIOR_TRAIN_AVAILABLE", 6),
    ("BUILDING_SUPER_TRAIN_AVAILABLE", 7),
    ("BUILDING_BOAT_HUT_AVAILABLE", 8),
    ("BUILDING_AIRSHIP_HUT_AVAILABLE", 9),
    ("BUILDING_GUARD_TOWER_AVAILABLE", 10),
];

/// Radii with a named constant each.
pub const RADII: [i32; 12] = [64, 128, 192, 256, 384, 512, 768, 1024, 1536, 2048, 3072, 4096];

/// Tribe name prefixes of the spell charge constants.
pub const CHARGE_TRIBES: [&'static str; 4] = ["BLUE", "RED", "YELLOW", "GREEN"];

/// Spell names of the spell charge constants.
pub const CHARGE_SPELLS: [&'static str; 21] = [
    "BURN",
    "BLAST",
    "LIGHTNING",
    "TORNADO",
    "SWARM",
    "INVISIBILITY",
    "HYPNOTISM",
    "FIRESTORM",
    "GHOST_ARMY",
    "EROSION",
    "SWAMP",
    "LAND_BRIDGE",
    "ANGEL_OF_DEATH",
    "EARTHQUAKE",
    "FLATTEN",
    "VOLCANO",
    "CONVERT",
    "ARMAGEDDON",
    "SHIELD",
    "BLOODLUST",
    "TELEPORT",
];

/// Script functions registered as stubs that return zero.
pub const FUNCTION_STUB_NAMES: [&'static str; 126] = [
    "ATTACK",
    "ATTACK_MARKER",
    "DEFEND_SHAMEN",
    "DEFEND",
    "DEFEND_BASE",
    "AUTO_ATTACK",
    "SEND_ALL_PEOPLE_TO_MARKER",
    "SEND_BLUE_PEOPLE_TO_MARKER",
    "SEND_RED_PEOPLE_TO_MARKER",
    "SEND_GREEN_PEOPLE_TO_MARKER",
    "SEND_PEOPLE_TO_MARKER",
    "SEND_GHOSTS_TO_MARKER",
    "SEND_SHAMAN_DEFENDERS_HOME",
    "SET_ATTACK_VARIABLE",
    "SET_BASE_MARKER",
    "RESET_BASE_MARKER",
    "SET_BASE_RADIUS",
    "SET_MARKER_ENTRY",
    "MARKER_ENTRIES",
    "BUILD_AT",
    "CONSTRUCT_BUILDING",
    "SET_DRUM_TOWER_POS",
    "SET_BUILDING_DIRECTION",
    "SET_BOAT_HOUSE_WITH_BOAT",
    "PARTIAL_BUILDING_COUNT",
    "IS_BUILDING_NEAR",
    "TRAIN_PEOPLE_NOW",
    "TRAIN_PEOPLE",
    "CONVERT_AT_MARKER",
    "PREACH_AT_MARKER",
    "SEND_PEOPLE_TO_MARKER",
    "SEND_GHOSTS",
    "COUNT_PEOPLE_IN_HOUSES",
    "COUNT_PEOPLE_IN_MARKER",
    "CLEAR_STANDING_PEOPLE",
    "DESELECT_ALL_PEOPLE",
    "HOUSE_A_PERSON",
    "PRAY_AT_HEAD",
    "SET_REINCARNATION",
    "SET_BUCKET_USAGE",
    "SET_WOOD_COLLECTION_RADII",
    "ONLY_STAND_AT_MARKERS",
    "I_KILL_CONVERTABLE",
    "CLEAR_HOUSE_INFO_FLAG",
    "FIX_WILD_IN_AREA",
    "BRING_NEW_PEOPLE_BACK",
    "FETCH_FAR_VEHICLE",
    "FETCH_LOST_PEOPLE",
    "FETCH_LOST_VEHICLE",
    "FETCH_WOOD",
    "SPELL_AT_MARKER",
    "SPELL_AT_THING",
    "SPELL_DEFENSE",
    "SHAMAN_GET_WILDS",
    "SET_SPELL_ENTRY",
    "SET_BUCKET_COUNT_FOR_SPELL",
    "GIVE_MANA_TO_PLAYER",
    "STATE_SET",
    "SET_TIMER_GOING",
    "HAS_TIMER_REACHED_ZERO",
    "REMOVE_TIMER",
    "EVERY",
    "DO_TRIGGER",
    "TRIGGER_THING",
    "TRIGGER_LEVEL_WON",
    "TRIGGER_LEVEL_LOST",
    "TURN_PUSH_ON",
    "TURN_PUSH_OFF",
    "TURN_PUSH",
    "ENABLE_USER_INPUTS",
    "TARGET_SHAMAN",
    "TARGET_MEDICINE_MAN",
    "TARGET_WARRIORS",
    "TARGET_S_WARRIOR",
    "TARGET_FIREWARRIORS",
    "TARGET_BLUE_SHAMAN",
    "TARGET_RED_SHAMAN",
    "TARGET_YELLOW_SHAMAN",
    "TARGET_GREEN_SHAMAN",
    "TARGET_BLUE_DRUM_TOWERS",
    "TARGET_RED_DRUM_TOWERS",
    "TARGET_YELLOW_DRUM_TOWERS",
    "TARGET_GREEN_DRUM_TOWERS",
    "TARGET_BLUE_SUPER_WARRIORS",
    "TARGET_RED_SUPER_WARRIORS",
    "TARGET_YELLOW_SUPER_WARRIORS",
    "TARGET_GREEN_SUPER_WARRIORS",
    "DONT_TARGET_SHAMAN",
    "IS_SHAMAN_AVAILABLE_FOR_ATTACK",
    "IS_SHAMAN_IN_AREA",
    "IS_PRISONER_LEFT",
    "NAV_CHECK",
    "GET_HEAD_TRIGGER_COUNT",
    "GET_HEIGHT_AT_POS",
    "GET_NUM_ONE_OFF_SPELLS",
    "GET_SPELLS_CAST",
    "DELAY_MAIN_DRUM_TOWER",
    "THING_COUNT_IN_AREA",
    "CAMERA_ROTATION",
    "FLYBY_CREATE_NEW",
    "FLYBY_SET_EVENT_POS",
    "FLYBY_SET_EVENT_ANGLE",
    "FLYBY_SET_EVENT_ZOOM",
    "FLYBY_SET_EVENT_INT_POINT",
    "FLYBY_SET_EVENT_TOOLTIP",
    "FLYBY_SET_END_TARGET",
    "FLYBY_START",
    "FLYBY_STOP",
    "FLYBY_ALLOW_INTERRUPT",
    "OPEN_DIALOG",
    "SET_MSG_AUTO_OPEN_DLG",
    "SET_MSG_DELETE_ON_OK",
    "SET_MSG_ID",
    "SET_MSG_NARRATIVE",
    "SET_MSG_OK_SAVE",
    "SET_MSG_TIMEOUT",
    "FLASH_BUTTON",
    "DELETE_SMOKE_STUFF",
    "MARVELLOUS_HOUSE_DEATH",
    "REMOVE_HEAD_AT_POS",
    "REMOVE_PLAYER_THING",
    "SET_NO_BLUE",
    "SET_NO_RED",
    "SET_NO_GREEN",
    "SET_NO_YELLOW",
    "BOAT_PATROL",
];

/// Script functions the game does not serve yet; they return zero.
pub const UNSERVED_FUNCTION_NAMES: [&'static str; 146] = [
    "DEFEND_SHAMEN",
    "SEND_ALL_PEOPLE_TO_MARKER",
    "SEND_BLUE_PEOPLE_TO_MARKER",
    "SEND_RED_PEOPLE_TO_MARKER",
    "SEND_GREEN_PEOPLE_TO_MARKER",
    "SEND_GHOSTS_TO_MARKER",
    "SET_BASE_MARKER",
    "RESET_BASE_MARKER",
    "MARKER_ENTRIES",
    "SET_DRUM_TOWER_POS",
    "SET_BUILDING_DIRECTION",
    "SET_BOAT_HOUSE_WITH_BOAT",
    "PARTIAL_BUILDING_COUNT",
    "IS_BUILDING_NEAR",
    "PREACH_AT_MARKER",
    "COUNT_PEOPLE_IN_HOUSES",
    "CLEAR_STANDING_PEOPLE",
    "DESELECT_ALL_PEOPLE",
    "SET_WOOD_COLLECTION_RADII",
    "ONLY_STAND_AT_MARKERS",
    "I_KILL_CONVERTABLE",
    "CLEAR_HOUSE_INFO_FLAG",
    "FIX_WILD_IN_AREA",
    "SPELL_AT_THING",
    "GIVE_MANA_TO_PLAYER",
    "STATE_SET",
    "SET_TIMER_GOING",
    "HAS_TIMER_REACHED_ZERO",
    "REMOVE_TIMER",
    "DO_TRIGGER",
    "TRIGGER_THING",
    "TRIGGER_LEVEL_WON",
    "TRIGGER_LEVEL_LOST",
    "TURN_PUSH_ON",
    "TURN_PUSH_OFF",
    "TARGET_SHAMAN",
    "TARGET_MEDICINE_MAN",
    "TARGET_WARRIORS",
    "TARGET_S_WARRIOR",
    "TARGET_FIREWARRIORS",
    "TARGET_BLUE_SHAMAN",
    "TARGET_RED_SHAMAN",
    "TARGET_YELLOW_SHAMAN",
    "TARGET_GREEN_SHAMAN",
    "TARGET_BLUE_DRUM_TOWERS",
    "TARGET_RED_DRUM_TOWERS",
    "TARGET_YELLOW_DRUM_TOWERS",
    "TARGET_GREEN_DRUM_TOWERS",
    "TARGET_BLUE_SUPER_WARRIORS",
    "TARGET_RED_SUPER_WARRIORS",
    "TARGET_YELLOW_SUPER_WARRIORS",
    "TARGET_GREEN_SUPER_WARRIORS",
    "DONT_TARGET_SHAMAN",
    "IS_SHAMAN_AVAILABLE_FOR_ATTACK",
    "IS_SHAMAN_IN_AREA",
    "IS_PRISONER_LEFT",
    "NAV_CHECK",
    "GET_HEAD_TRIGGER_COUNT",
    "GET_HEIGHT_AT_POS",
    "THING_COUNT_IN_AREA",
    "CAMERA_ROTATION",
    "FLYBY_CREATE_NEW",
    "FLYBY_SET_EVENT_POS",
    "FLYBY_SET_EVENT_ANGLE",
    "FLYBY_SET_EVENT_ZOOM",
    "FLYBY_SET_EVENT_INT_POINT",
    "FLYBY_SET_EVENT_TOOLTIP",
    "FLYBY_SET_END_TARGET",
    "FLYBY_START",
    "FLYBY_STOP",
    "FLYBY_ALLOW_INTERRUPT",
    "CREATE_MSG_NARRATIVE",
    "CREATE_MSG_OBJECTIVE",
    "CREATE_MSG_INFORMATION",
    "OPEN_DIALOG",
    "SET_MSG_AUTO_OPEN_DLG",
    "SET_MSG_DELETE_ON_OK",
    "SET_MSG_ID",
    "SET_MSG_NARRATIVE",
    "SET_MSG_OK_SAVE",
    "SET_MSG_TIMEOUT",
    "FLASH_BUTTON",
    "MARVELLOUS_HOUSE_DEATH",
    "REMOVE_HEAD_AT_POS",
    "REMOVE_PLAYER_THING",
    "SET_NO_BLUE",
    "SET_NO_RED",
    "SET_NO_GREEN",
    "SET_NO_YELLOW",
    "BOAT_PATROL",
    "MY_NUM_KILLED_BY_BLUE",
    "MY_NUM_KILLED_BY_RED",
    "MY_NUM_KILLED_BY_YELLOW",
    "MY_NUM_KILLED_BY_GREEN",
    "MY_NUM_BRAVES",
    "MY_NUM_WARRIORS",
    "MY_NUM_PREACHERS",
    "MY_NUM_SPIES",
    "MY_NUM_SUPER_WARRIORS",
    "BLUE_BRAVES",
    "BLUE_WARRIORS",
    "BLUE_PREACHERS",
    "BLUE_SPIES",
    "BLUE_SUPER_WARRIORS",
    "RED_BRAVES",
    "RED_WARRIORS",
    "RED_PREACHERS",
    "RED_SPIES",
    "RED_SUPER_WARRIORS",
    "YELLOW_BRAVES",
    "YELLOW_WARRIORS",
    "YELLOW_PREACHERS",
    "YELLOW_SPIES",
    "YELLOW_SUPER_WARRIORS",
    "GREEN_BRAVES",
    "GREEN_WARRIORS",
    "GREEN_PREACHERS",
    "GREEN_SPIES",
    "GREEN_SUPER_WARRIORS",
    "MY_SPELL_BURN_COST",
    "MY_SPELL_BLAST_COST",
    "MY_SPELL_LIGHTNING_COST",
    "MY_NUM_SMALL_HUT",
    "MY_NUM_MEDIUM_HUT",
    "MY_NUM_LARGE_HUT",
    "MY_NUM_DRUM_TOWER",
    "MY_NUM_TEMPLE",
    "MY_NUM_SPY_TRAIN",
    "MY_NUM_WARRIOR_TRAIN",
    "MY_NUM_SUPER_TRAIN",
    "MY_NUM_BOATS",
    "MY_NUM_AIRSHIPS",
    "MY_NUM_VEHICLES",
    "IS_SHAMAN_AVAILABLE",
    "IS_SHAMAN_ALIVE",
    "MY_SHAMAN_LIVES",
    "MY_REINCARNATION_TIMER",
    "WILD_PEOPLE",
    "MY_WOOD_COUNT",
    "MY_ATTACK_ARMY_COUNT",
    "MY_DEFEND_ARMY_COUNT",
    "BLUE_MANA",
    "RED_MANA",
    "YELLOW_MANA",
    "GREEN_MANA",
    "RANDOM_100",
];

} // verus!
