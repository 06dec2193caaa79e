//! Names of the spell effect types, and the xorshift generator that scatters
//! spawned effects.
use vstd::prelude::*;

verus! {

/// Effect type id and spell name.
pub const SPELL_NAMES: [(u8, &'static str); 12] = [
    (0x01, "Burn"),
    (0x02, "Blast"),
    (0x03, "Lightning"),
    (0x04, "Tornado"),
    (0x05, "Swamp"),
    (0x06, "Flatten"),
    (0x07, "Earthquake"),
    (0x08, "Erosion"),
    (0x09, "Volcano"),
    (0x0A, "Firestorm"),
    (0x0B, "AngelOfDeath"),
    (0x0C, "Shield"),
];

/// Name of the first table entry with effect type `t`, or `?`.
pub open spec fn spell_name_of(s: Seq<(u8, &'static str)>, t: u8) -> Seq<char>
    decreases s.len(),
{
    if s.len() == 0 {
        "?"@
    } else if s[0].0 == t {
        s[0].1@
    } else {
        spell_name_of(s.drop_first(), t)
    }
}

/// The spell name of effect type `effect_type`, or `?` for an unknown type.
pub fn spell_name(effect_type: u8) -> (r: &'static str)
    ensures
        r@ == spell_name_of(SPELL_NAMES@, effect_type),
{
    let table = SPELL_NAMES;
    let mut i: usize = 0;
    assert(table@.skip(0) =~= table@);
    while i < table.len()
        invariant
            table@ == SPELL_NAMES@,
            0 <= i <= table@.len(),
            spell_name_of(table@, effect_type) == spell_name_of(table@.skip(i as int), effect_type),
        decreases table@.len() - i,
    {
        let (t, name) = table[i];
        assert(table@.skip(i as int)[0] == table@[i as int]);
        assert(table@.skip(i as int).drop_first() =~= table@.skip(i + 1));
        if t == effect_type {
            return name;
        }
        i = i + 1;
    }
    "?"
}

/// One xorshift step: shift-xor by 13 left, 17 right, 5 left (32-bit).
pub open spec fn xorshift_next(x: u32) -> u32 {
    let a = x ^ (x << 13u32);
    let b = a ^ (a >> 17u32);
    b ^ (b << 5u32)
}

/// Advance the generator state and return the new value.
pub fn xorshift(s: &mut u32) -> (r: u32)
    ensures
        r == xorshift_next(*old(s)),
        *final(s) == r,
{
    let mut x = *s;
    x = x ^ (x << 13u32);
    x = x ^ (x >> 17u32);
    x = x ^ (x << 5u32);
    *s = x;
    x
}

/// From zero the generator stays at zero, and from any other state it never
/// reaches zero.
pub proof fn lemma_xorshift_nonzero(x: u32)
    ensures
        x == 0 ==> xorshift_next(x) == 0,
        x != 0 ==> xorshift_next(x) != 0,
{
    let a = x ^ (x << 13u32);
    let b = a ^ (a >> 17u32);
    assert((x != 0 ==> b ^ (b << 5u32) != 0) && (x == 0 ==> b ^ (b << 5u32) == 0)) by (bit_vector)
        requires
            a == x ^ (x << 13u32),
            b == a ^ (a >> 17u32),
    ;
}

} // verus!
