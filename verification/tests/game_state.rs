use faithful::game_state::GameState;
use faithful::tick::{NetworkTick, NoOp, TerrainTick};

#[test]
fn game_state_raw_roundtrip() {
    for v in 0..=255u8 {
        match GameState::from_raw(v) {
            Some(s) => assert_eq!(s.to_raw(), v),
            None => assert!(v > 4),
        }
    }
    assert_eq!(GameState::from_raw(2), Some(GameState::InGame));
    assert_eq!(GameState::Multiplayer.to_raw(), 4);
}

#[test]
fn noop_network_tick_continues() {
    let mut n = NoOp;
    n.tick_update_terrain();
    assert!(n.tick_process_network());
}
