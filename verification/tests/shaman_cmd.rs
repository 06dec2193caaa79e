use faithful::shaman_cmd::{ShamanCommand, ShamanCommandQueue, ShamanCommandType, MAX_SHAMAN_COMMANDS};

#[test]
fn new_queue_has_10_empty_slots() {
    let queue = ShamanCommandQueue::new();
    assert_eq!(queue.slots.len(), MAX_SHAMAN_COMMANDS);
    assert_eq!(queue.active_count(), 0);
}

#[test]
fn push_command_adds_to_first_slot() {
    let mut queue = ShamanCommandQueue::new();
    let mut cmd = ShamanCommand::empty();
    cmd.cmd_type = ShamanCommandType::SpellCasting;
    cmd.active = true;
    assert!(queue.push_command(cmd));
    assert_eq!(queue.active_count(), 1);
    assert_eq!(queue.slots[0].cmd_type, ShamanCommandType::SpellCasting);
}

#[test]
fn push_command_on_full_queue_returns_false() {
    let mut queue = ShamanCommandQueue::new();
    for _ in 0..MAX_SHAMAN_COMMANDS {
        assert!(queue.push_command(ShamanCommand::empty()));
    }
    assert!(!queue.push_command(ShamanCommand::empty()));
}

#[test]
fn clear_command_frees_slot_for_reuse() {
    let mut queue = ShamanCommandQueue::new();
    queue.push_command(ShamanCommand::empty());
    assert_eq!(queue.active_count(), 1);
    queue.clear_command(0);
    assert_eq!(queue.active_count(), 0);
    assert!(queue.push_command(ShamanCommand::empty()));
    assert_eq!(queue.active_count(), 1);
}

#[test]
fn from_raw_all_8_types() {
    assert_eq!(ShamanCommandType::from_raw(0), Some(ShamanCommandType::PrimaryAttack));
    assert_eq!(ShamanCommandType::from_raw(1), Some(ShamanCommandType::SecondaryAttack));
    assert_eq!(ShamanCommandType::from_raw(2), Some(ShamanCommandType::DefendPosition));
    assert_eq!(ShamanCommandType::from_raw(3), Some(ShamanCommandType::SpellCasting));
    assert_eq!(ShamanCommandType::from_raw(4), Some(ShamanCommandType::ArmyMovement));
    assert_eq!(ShamanCommandType::from_raw(5), Some(ShamanCommandType::BuildingPlacement));
    assert_eq!(ShamanCommandType::from_raw(6), Some(ShamanCommandType::ResourceGathering));
    assert_eq!(ShamanCommandType::from_raw(7), Some(ShamanCommandType::Conversion));
    assert_eq!(ShamanCommandType::from_raw(8), None);
}

#[test]
fn push_fills_first_free_slot_after_clear() {
    let mut queue = ShamanCommandQueue::new();
    for _ in 0..3 {
        queue.push_command(ShamanCommand::empty());
    }
    queue.clear_command(1);
    let mut cmd = ShamanCommand::empty();
    cmd.target_x = 77;
    assert!(queue.push_command(cmd));
    assert!(queue.slots[1].active);
    assert_eq!(queue.slots[1].target_x, 77);
    assert_eq!(queue.active_count(), 3);
    queue.clear_command(MAX_SHAMAN_COMMANDS);
    assert_eq!(queue.active_count(), 3);
}
