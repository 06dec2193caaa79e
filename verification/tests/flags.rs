use faithful::flags::{GameFlags, FLAG_MULTIPLAYER, FLAG_PAUSED};

#[test]
fn test_default_is_zero() {
    let f = GameFlags::new();
    assert_eq!(f.raw(), 0);
    assert!(!f.is_paused());
    assert!(!f.is_multiplayer());
    assert!(!f.has_won());
    assert!(!f.has_lost());
}

#[test]
fn test_set_won_clears_lost() {
    let mut f = GameFlags::new();
    f.set_lost();
    assert!(f.has_lost());
    f.set_won();
    assert!(f.has_won());
    assert!(!f.has_lost());
}

#[test]
fn test_set_lost_clears_won() {
    let mut f = GameFlags::new();
    f.set_won();
    assert!(f.has_won());
    f.set_lost();
    assert!(f.has_lost());
    assert!(!f.has_won());
}

#[test]
fn test_paused_toggle() {
    let mut f = GameFlags::new();
    f.set_paused(true);
    assert!(f.is_paused());
    f.set_paused(false);
    assert!(!f.is_paused());
}

#[test]
fn test_multiplayer_preserves_other_flags() {
    let mut f = GameFlags::new();
    f.set_paused(true);
    f.set_multiplayer(true);
    assert!(f.is_paused());
    assert!(f.is_multiplayer());
}

#[test]
fn test_from_raw_roundtrip() {
    let f = GameFlags::from_raw(FLAG_PAUSED | FLAG_MULTIPLAYER);
    assert!(f.is_paused());
    assert!(f.is_multiplayer());
    assert!(!f.has_won());
}

#[test]
fn outcome_flags_and_clear() {
    let mut f = GameFlags::from_raw(0xFFFF_FFFF);
    f.clear_victory_defeat();
    assert_eq!(f.raw(), 0xF9FF_FFFF);
    assert!(!f.is_victory_defeat());
    assert!(f.is_paused() && f.is_net_waiting() && f.is_net_paused());
    f.set_won();
    assert!(f.is_victory_defeat());
    assert!(f.is_paused());
    f.set_multiplayer(false);
    assert!(!f.is_multiplayer());
    assert!(f.has_won());
}
