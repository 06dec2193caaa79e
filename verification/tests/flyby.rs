use faithful::flyby::{
    offset_tooltips, pending_tooltips, sort_events, FlybyChannelEvent, FlybyTooltip, FLYBY_ANGLE_MODULUS,
    FLYBY_DEFAULT_POS_MODULUS,
};
use std::collections::HashSet;

fn ev(start_tick: u32, target: i16) -> FlybyChannelEvent {
    FlybyChannelEvent { start_tick, target, duration: 10 }
}

#[test]
fn moduli() {
    assert_eq!(FLYBY_ANGLE_MODULUS, 2048);
    assert_eq!(FLYBY_DEFAULT_POS_MODULUS, 256);
}

#[test]
fn events_sort_by_start_keeping_ties_in_order() {
    let mut v = vec![ev(30, 1), ev(10, 2), ev(30, 3), ev(0, 4), ev(10, 5)];
    sort_events(&mut v);
    let targets: Vec<i16> = v.iter().map(|e| e.target).collect();
    assert_eq!(targets, vec![4, 2, 5, 1, 3]);
}

#[test]
fn sorting_sorted_events_changes_nothing() {
    let mut v = vec![ev(1, 1), ev(2, 2), ev(2, 3)];
    let before = v.clone();
    sort_events(&mut v);
    assert_eq!(v, before);
}

#[test]
fn tooltips_are_offset_to_absolute_ticks() {
    let mut t = vec![FlybyTooltip { tick: 5, tooltip_id: 1 }, FlybyTooltip { tick: 0, tooltip_id: 2 }];
    offset_tooltips(&mut t, 100);
    assert_eq!(t, vec![FlybyTooltip { tick: 105, tooltip_id: 1 }, FlybyTooltip { tick: 100, tooltip_id: 2 }]);
}

#[test]
fn flyby_pending_tooltips_returns_at_correct_tick() {
    let mut tooltips = vec![FlybyTooltip { tick: 50, tooltip_id: 5 }];
    offset_tooltips(&mut tooltips, 0);
    let mut shown = HashSet::new();
    assert_eq!(pending_tooltips(&tooltips, &mut shown, 50), vec![5]);
    assert_eq!(pending_tooltips(&tooltips, &mut shown, 60), Vec::<i32>::new());
}

#[test]
fn flyby_pending_tooltips_deduplicates_already_shown() {
    let mut tooltips = vec![FlybyTooltip { tick: 50, tooltip_id: 5 }];
    offset_tooltips(&mut tooltips, 0);
    let mut shown = HashSet::new();
    assert_eq!(pending_tooltips(&tooltips, &mut shown, 50), vec![5]);
    assert_eq!(pending_tooltips(&tooltips, &mut shown, 50), Vec::<i32>::new());
}

#[test]
fn one_tooltip_per_tick() {
    let t = vec![FlybyTooltip { tick: 15, tooltip_id: 42 }, FlybyTooltip { tick: 15, tooltip_id: 43 }];
    let mut shown = HashSet::new();
    assert!(pending_tooltips(&t, &mut shown, 14).is_empty());
    assert_eq!(pending_tooltips(&t, &mut shown, 15), vec![42]);
    assert!(pending_tooltips(&t, &mut shown, 15).is_empty());
    assert!(shown.contains(&15));
}
