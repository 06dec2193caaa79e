use faithful::campaign::{CampaignEvent, CampaignState, TOTAL_LEVELS};

#[test]
fn test_new_starts_at_level_1() {
    let state = CampaignState::new();
    assert_eq!(state.current_level, 1);
    assert!(!state.campaign_complete);
    for i in 0..TOTAL_LEVELS as usize {
        assert!(!state.completed_levels[i]);
    }
}

#[test]
fn test_advance_level_from_1() {
    let mut state = CampaignState::new();
    state.advance_level();
    assert_eq!(state.current_level, 2);
    assert!(state.completed_levels[0]);
}

#[test]
fn test_advance_level_from_25_sets_complete() {
    let mut state = CampaignState::new();
    state.current_level = 25;
    state.advance_level();
    assert_eq!(state.current_level, 25);
    assert!(state.campaign_complete);
    assert!(state.completed_levels[24]);
}

#[test]
fn test_check_progress_won() {
    let mut state = CampaignState::new();
    let event = state.check_progress(true, false);
    assert_eq!(event, CampaignEvent::Victory(1));
}

#[test]
fn test_check_progress_lost() {
    let mut state = CampaignState::new();
    let event = state.check_progress(false, true);
    assert_eq!(event, CampaignEvent::Defeat(1));
}

#[test]
fn test_check_progress_no_flags() {
    let mut state = CampaignState::new();
    let event = state.check_progress(false, false);
    assert_eq!(event, CampaignEvent::NoEvent);
}

#[test]
fn test_check_progress_acknowledged_returns_none() {
    let mut state = CampaignState::new();
    state.check_progress(true, false);
    let event = state.check_progress(true, false);
    assert_eq!(event, CampaignEvent::NoEvent);
}

#[test]
fn test_retry_level_keeps_current() {
    let mut state = CampaignState::new();
    state.current_level = 5;
    state.retry_level();
    assert_eq!(state.current_level, 5);
}

#[test]
fn test_is_level_completed() {
    let mut state = CampaignState::new();
    assert!(!state.is_level_completed(1));
    state.advance_level();
    assert!(state.is_level_completed(1));
    assert!(!state.is_level_completed(2));
}

#[test]
fn test_total_levels() {
    let state = CampaignState::new();
    assert_eq!(state.total_levels(), 25);
}

#[test]
fn test_level_filename() {
    let mut state = CampaignState::new();
    assert_eq!(state.level_filename(), "levl2001.dat");
    state.current_level = 15;
    assert_eq!(state.level_filename(), "levl2015.dat");
}

#[test]
fn test_set_level() {
    let mut state = CampaignState::new();
    state.set_level(10);
    assert_eq!(state.current_level, 10);
    state.set_level(0);
    assert_eq!(state.current_level, 1);
    state.set_level(100);
    assert_eq!(state.current_level, 25);
}

#[test]
fn outcome_reported_again_after_retry() {
    let mut state = CampaignState::new();
    assert_eq!(state.check_progress(false, true), CampaignEvent::Defeat(1));
    assert_eq!(state.check_progress(false, true), CampaignEvent::NoEvent);
    state.retry_level();
    assert_eq!(state.check_progress(true, true), CampaignEvent::Victory(1));
    state.advance_level();
    assert_eq!(state.check_progress(true, false), CampaignEvent::Victory(2));
}

#[test]
fn level_filename_beyond_two_digits_and_out_of_range_levels() {
    let mut state = CampaignState::new();
    state.current_level = 123;
    assert_eq!(state.level_filename(), "levl20123.dat");
    assert!(!state.is_level_completed(26));
}
