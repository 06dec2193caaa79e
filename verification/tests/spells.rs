use faithful::spells::{spell_name, xorshift};

#[test]
fn spell_names_by_effect_type() {
    assert_eq!(spell_name(0x01), "Burn");
    assert_eq!(spell_name(0x0B), "AngelOfDeath");
    assert_eq!(spell_name(0x0C), "Shield");
    assert_eq!(spell_name(0x00), "?");
    assert_eq!(spell_name(0x0D), "?");
}

#[test]
fn xorshift_steps() {
    let mut s: u32 = 1;
    let a = xorshift(&mut s);
    assert_eq!(a, 270369);
    assert_eq!(s, 270369);
    let b = xorshift(&mut s);
    assert_eq!(b, 67634689);
    let mut z: u32 = 0;
    assert_eq!(xorshift(&mut z), 0);
}
