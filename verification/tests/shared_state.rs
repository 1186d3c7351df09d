//! Tests for the lock-guarded shared state container and the ticker loop
//! body that writes through it.

use praymodoro::shared::SharedState;
use praymodoro::state::{AppState, Character, PomodoroMode};
use praymodoro::timer::{format_time, Ticker, TimeUpdate};
use praymodoro::tray::TrayAction;

#[test]
fn snapshot_returns_what_was_stored() {
    let shared = SharedState::new(AppState::new());
    let snap = shared.snapshot();
    assert_eq!(snap.mode, PomodoroMode::Work);
    assert_eq!(snap.formatted_time, "25:00");
    assert_eq!(snap.scale, 100);
    assert!(snap.visible);
}

#[test]
fn publish_is_visible_to_readers() {
    let shared = SharedState::new(AppState::new());
    shared.publish(&TimeUpdate {
        mode_type: PomodoroMode::Rest,
        remaining: 299,
        formatted_time: format_time(299),
    });
    let snap = shared.snapshot();
    assert_eq!(snap.mode, PomodoroMode::Rest);
    assert_eq!(snap.remaining_seconds, 299);
    assert_eq!(snap.formatted_time, "04:59");
}

#[test]
fn intents_apply_atomically_through_the_lock() {
    let shared = SharedState::new(AppState::new());
    let e = shared.apply_tray_action(&TrayAction::SetScale(1));
    assert_eq!(e.resize_scale, Some(50));
    let e = shared.apply_tray_action(&TrayAction::SetCharacter(String::from("thomas-more")));
    assert!(e.save_settings);
    let snap = shared.snapshot();
    assert_eq!(snap.scale, 50);
    assert_eq!(snap.character, Character::ThomasMore);
    assert!(!shared.should_quit());
    shared.apply_tray_action(&TrayAction::Quit);
    assert!(shared.should_quit());
}

#[test]
fn menu_actions_apply_through_the_lock() {
    let shared = SharedState::new(AppState::new());
    shared.menu_action("increase-size");
    shared.menu_action("next-character");
    let ms = shared.menu_state();
    assert_eq!(ms.scale, 110);
    assert_eq!(ms.character, "thomas-aquinas");
    assert_eq!(ms.mode, "work");
    assert!(ms.is_character_visible);
}

#[test]
fn set_position_persists_into_settings() {
    let shared = SharedState::new(AppState::new());
    shared.set_position(12, 34);
    let settings = shared.settings();
    assert_eq!(settings.window.x, 12);
    assert_eq!(settings.window.y, 34);
}

#[test]
fn ticker_publishes_consistent_snapshots() {
    let shared = SharedState::new(AppState::new());
    let mut ticker = Ticker::new();
    let (update, changed) = ticker.tick_and_publish(&shared);
    assert!(!changed);
    assert!(update.remaining >= 1 && update.remaining <= 1500);
    let snap = shared.snapshot();
    assert_eq!(snap.mode, update.mode_type);
    assert_eq!(snap.remaining_seconds, update.remaining);
    assert_eq!(snap.formatted_time, update.formatted_time);
    assert_eq!(snap.formatted_time, format_time(update.remaining));
}
