use faithful::flags::GameFlags;
use faithful::save::{check_version, select_saves, SaveCandidate, SaveError, SaveFile, SAVE_VERSION};
use faithful::state::{GameRng, TribeArray};

fn make_test_save() -> SaveFile {
    let mut tribes = TribeArray::new();
    tribes.tribes[0].active = true;
    tribes.tribes[0].population = 42;
    tribes.tribes[0].mana = 500_000;
    tribes.tribes[1].active = true;
    tribes.tribes[1].population = 30;
    tribes.tribes[1].mana = 200_000;
    tribes.tribes[1].wood_gathered = 150;

    let mut flags = GameFlags::new();
    flags.set_paused(true);

    SaveFile {
        version: SAVE_VERSION,
        level_num: 5,
        game_tick: 1234,
        tick_counter: 5678,
        game_speed: 12,
        player_tribe: 0,
        ai_update_mult: 2,
        flags,
        rng: GameRng::new(0xDEADBEEF),
        tribes,
        ai_script_variables: vec![vec![10, 20, 30], vec![40, 50]],
        ai_every_counters: vec![vec![("timer1".to_string(), 100)], vec![]],
    }
}

#[test]
fn test_savefile_can_be_created() {
    let save = make_test_save();
    assert_eq!(save.version, SAVE_VERSION);
    assert_eq!(save.level_num, 5);
    assert_eq!(save.game_tick, 1234);
}

#[test]
fn test_savefile_version_is_save_version() {
    let save = make_test_save();
    assert_eq!(save.version, 1);
}

#[test]
fn version_check_accepts_current_and_rejects_other() {
    let save = make_test_save();
    let ok = check_version(save).unwrap();
    assert_eq!(ok.game_tick, 1234);
    assert_eq!(ok.rng.seed(), 0xDEADBEEF);
    assert!(ok.flags.is_paused());
    let mut bad = make_test_save();
    bad.version = 99;
    match check_version(bad) {
        Err(SaveError::VersionMismatch { expected, found }) => {
            assert_eq!(expected, SAVE_VERSION);
            assert_eq!(found, 99);
        }
        other => panic!("expected VersionMismatch, got {:?}", other.map(|s| s.version)),
    }
}

#[test]
fn save_error_descriptions() {
    assert_eq!(SaveError::Io("disk".to_string()).describe(), "I/O error: disk");
    assert_eq!(SaveError::Serialize("x".to_string()).describe(), "Serialization error: x");
    assert_eq!(SaveError::Deserialize("y".to_string()).describe(), "Deserialization error: y");
    assert_eq!(
        SaveError::VersionMismatch { expected: 1, found: 99 }.describe(),
        "Save version mismatch: expected 1, found 99"
    );
}

fn cand(name: &str, ext: Option<&str>, modified: Option<i128>) -> SaveCandidate {
    SaveCandidate {
        extension: ext.map(|e| e.to_string()),
        stem: Some(name.to_string()),
        path: format!("/saves/{}", name),
        modified,
    }
}

#[test]
fn select_saves_filters_and_orders_newest_first() {
    let cs = vec![
        cand("old", Some("pop3save"), Some(10)),
        cand("notes", Some("txt"), Some(100)),
        cand("new", Some("pop3save"), Some(50)),
        cand("undated", Some("pop3save"), None),
        cand("same_a", Some("pop3save"), Some(10)),
        SaveCandidate { extension: Some("pop3save".to_string()), stem: None, path: "/x".to_string(), modified: Some(-5) },
        cand("noext", None, Some(1000)),
    ];
    let entries = select_saves(cs);
    let names: Vec<&str> = entries.iter().map(|e| e.filename.as_str()).collect();
    assert_eq!(names, vec!["new", "old", "same_a", "unknown", "undated"]);
    assert_eq!(entries[0].path, "/saves/new");
    assert_eq!(entries[0].modified, Some(50));
}
