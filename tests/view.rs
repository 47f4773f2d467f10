use poise_paginator::{Control, ControlKind, DefaultView, Event, MinimalView, Press};

fn check(c: &Control, id: &str, kind: ControlKind, label: Option<&str>, disabled: bool) {
    assert_eq!(c.id, id);
    assert_eq!(c.kind, kind);
    assert_eq!(c.label.as_deref(), label);
    assert_eq!(c.disabled, disabled);
}

#[test]
fn default_ids_are_scoped_to_the_session() {
    let ids = DefaultView::create_ids(42);
    assert_eq!(
        ids,
        vec![
            "42_fast_rewind",
            "42_rewind",
            "42_counter",
            "42_forward",
            "42_fast_forward",
            "42_jump_to",
            "42_cancel"
        ]
    );
    let other = DefaultView::create_ids(420);
    for a in &ids {
        assert!(!other.contains(a));
    }
}

#[test]
fn single_page_disables_both_directions() {
    let ids = DefaultView::create_ids(1);
    let rows = DefaultView::rerender_components(&ids, 0, 1, false);
    assert_eq!(rows.len(), 2);
    check(&rows[0][0], "1_fast_rewind", ControlKind::FastRewind, None, true);
    check(&rows[0][1], "1_rewind", ControlKind::Rewind, None, true);
    check(&rows[0][2], "1_counter", ControlKind::Counter, Some("1 / 1"), true);
    check(&rows[0][3], "1_forward", ControlKind::Forward, None, true);
    check(&rows[0][4], "1_fast_forward", ControlKind::FastForward, None, true);
    check(&rows[1][0], "1_jump_to", ControlKind::JumpTo, Some("Jump to page"), false);
    check(&rows[1][1], "1_cancel", ControlKind::Cancel, Some("Cancel"), false);
}

#[test]
fn middle_page_enables_navigation() {
    let ids = DefaultView::create_ids(9);
    let rows = DefaultView::rerender_components(&ids, 3, 10, false);
    assert!(rows[0].iter().filter(|c| c.kind != ControlKind::Counter).all(|c| !c.disabled));
    check(&rows[0][2], "9_counter", ControlKind::Counter, Some("4 / 10"), true);
}

#[test]
fn last_page_disables_forward_only() {
    let ids = DefaultView::create_ids(9);
    let rows = DefaultView::rerender_components(&ids, 4, 5, false);
    assert!(!rows[0][0].disabled);
    assert!(!rows[0][1].disabled);
    assert!(rows[0][3].disabled);
    assert!(rows[0][4].disabled);
    assert!(!rows[1][0].disabled);
}

#[test]
fn final_render_disables_everything() {
    let ids = DefaultView::create_ids(9);
    let rows = DefaultView::rerender_components(&ids, 2, 5, true);
    assert_eq!(rows[0].len() + rows[1].len(), 7);
    assert!(rows.iter().flatten().all(|c| c.disabled));
    check(&rows[0][2], "9_counter", ControlKind::Counter, Some("3 / 5"), true);
}

#[test]
fn default_presses() {
    let ids = DefaultView::create_ids(5);
    let press = |s: &str| DefaultView::on_button_press(&ids, &s.to_string());
    assert_eq!(press("5_fast_rewind"), Some(Press::ToStart));
    assert_eq!(press("5_rewind"), Some(Press::Previous));
    assert_eq!(press("5_forward"), Some(Press::Next));
    assert_eq!(press("5_fast_forward"), Some(Press::ToEnd));
    assert_eq!(press("5_jump_to"), Some(Press::OpenJump));
    assert_eq!(press("5_cancel"), Some(Press::Cancel));
    assert_eq!(press("5_counter"), None);
    assert_eq!(press("6_cancel"), None);
}

#[test]
fn presses_become_events() {
    assert!(matches!(Press::ToStart.into_event::<u8, ()>(1), Some(Event::ToStart(1))));
    assert!(matches!(Press::Previous.into_event::<u8, ()>(2), Some(Event::Previous(2))));
    assert!(matches!(Press::Next.into_event::<u8, ()>(3), Some(Event::Next(3))));
    assert!(matches!(Press::ToEnd.into_event::<u8, ()>(4), Some(Event::ToEnd(4))));
    assert!(matches!(Press::Cancel.into_event::<u8, ()>(5), Some(Event::CancelledByUser(5))));
    assert!(Press::OpenJump.into_event::<u8, ()>(6).is_none());
}

#[test]
fn minimal_view() {
    let ids = MinimalView::create_ids(77);
    assert_eq!(ids, vec!["77_rewind", "77_counter", "77_forward"]);
    let rows = MinimalView::rerender_components(&ids, 0, 2, false);
    assert_eq!(rows.len(), 1);
    check(&rows[0][0], "77_rewind", ControlKind::Rewind, None, true);
    check(&rows[0][1], "77_counter", ControlKind::Counter, Some("1 / 2"), true);
    check(&rows[0][2], "77_forward", ControlKind::Forward, None, false);
    assert_eq!(MinimalView::on_button_press(&ids, &"77_rewind".to_string()), Some(Press::Previous));
    assert_eq!(MinimalView::on_button_press(&ids, &"77_forward".to_string()), Some(Press::Next));
    assert_eq!(MinimalView::on_button_press(&ids, &"77_counter".to_string()), None);
}
