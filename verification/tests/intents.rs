//! Tests for the shared state and the intents the control surface issues.

use praymodoro::settings::{clamp_scale, Settings};
use praymodoro::state::{AppState, Character, PomodoroMode};
use praymodoro::tray::{TrayAction, TrayEffect};

#[test]
fn new_state_defaults() {
    let st = AppState::new();
    assert_eq!(st.mode, PomodoroMode::Work);
    assert_eq!(st.remaining_seconds, 1500);
    assert_eq!(st.formatted_time, "25:00");
    assert_eq!(st.character, Character::AugustineOfHippo);
    assert_eq!(st.scale, 100);
    assert!(st.visible);
    assert!(!st.should_quit);
    assert_eq!(st.window_position, None);
    assert_eq!(st.settings, Settings::default());
}

#[test]
fn set_scale_clamps_large_values() {
    let mut st = AppState::new();
    // A requested factor of ten times natural size (1000 hundredths)
    // stores the maximum of three times natural size.
    st.set_scale(1000);
    assert_eq!(st.scale, 300);
    assert_eq!(st.settings.window.scale, 300);
}

#[test]
fn set_scale_clamps_small_values() {
    let mut st = AppState::new();
    // A requested factor of one hundredth stores the minimum of one half.
    st.set_scale(1);
    assert_eq!(st.scale, 50);
    assert_eq!(st.settings.window.scale, 50);
}

#[test]
fn set_scale_keeps_values_in_range() {
    let mut st = AppState::new();
    st.set_scale(125);
    assert_eq!(st.scale, 125);
    assert_eq!(st.settings.window.scale, 125);
}

#[test]
fn clamp_scale_bounds() {
    assert_eq!(clamp_scale(0), 50);
    assert_eq!(clamp_scale(49), 50);
    assert_eq!(clamp_scale(50), 50);
    assert_eq!(clamp_scale(300), 300);
    assert_eq!(clamp_scale(301), 300);
    assert_eq!(clamp_scale(u32::MAX), 300);
}

#[test]
fn set_character_unknown_id_is_rejected() {
    let mut st = AppState::new();
    let accepted = st.set_character("not-a-saint");
    assert!(!accepted);
    assert_eq!(st.character, Character::AugustineOfHippo);
    assert_eq!(st.settings.character, Character::AugustineOfHippo);
}

#[test]
fn set_character_known_id_is_stored() {
    let mut st = AppState::new();
    let accepted = st.set_character("thomas-more");
    assert!(accepted);
    assert_eq!(st.character, Character::ThomasMore);
    assert_eq!(st.settings.character, Character::ThomasMore);
}

#[test]
fn character_lookup_covers_the_enumerated_set() {
    assert_eq!(
        Character::from_id("augustine-of-hippo"),
        Some(Character::AugustineOfHippo)
    );
    assert_eq!(Character::from_id("thomas-aquinas"), Some(Character::ThomasAquinas));
    assert_eq!(Character::from_id("saint-patrick"), Some(Character::SaintPatrick));
    assert_eq!(Character::from_id("thomas-more"), Some(Character::ThomasMore));
    assert_eq!(Character::from_id(""), None);
    assert_eq!(Character::from_id("augustine-of-hippo "), None);
}

#[test]
fn next_character_wraps_around() {
    let mut st = AppState::new();
    assert_eq!(st.next_character(), Character::ThomasAquinas);
    assert_eq!(st.next_character(), Character::SaintPatrick);
    assert_eq!(st.next_character(), Character::ThomasMore);
    assert_eq!(st.next_character(), Character::AugustineOfHippo);
    assert_eq!(st.character, Character::AugustineOfHippo);
    assert_eq!(st.settings.character, Character::AugustineOfHippo);
}

#[test]
fn toggle_visibility_flips() {
    let mut st = AppState::new();
    st.toggle_visibility();
    assert!(!st.visible);
    st.toggle_visibility();
    assert!(st.visible);
}

#[test]
fn quit_sets_the_flag() {
    let mut st = AppState::new();
    st.quit();
    assert!(st.should_quit);
}

#[test]
fn set_position_updates_state_and_settings() {
    let mut st = AppState::new();
    st.set_position(-20, 640);
    assert_eq!(st.window_position, Some((-20, 640)));
    assert_eq!(st.settings.window.x, -20);
    assert_eq!(st.settings.window.y, 640);
}

#[test]
fn tray_toggle_reports_new_visibility() {
    let mut st = AppState::new();
    let e = st.apply_tray_action(&TrayAction::ToggleVisibility);
    assert_eq!(
        e,
        TrayEffect {
            window_visible: Some(false),
            resize_scale: None,
            save_settings: false,
            close: false,
        }
    );
    assert!(!st.visible);
}

#[test]
fn tray_set_scale_clamps_and_saves() {
    let mut st = AppState::new();
    let e = st.apply_tray_action(&TrayAction::SetScale(1000));
    assert_eq!(
        e,
        TrayEffect {
            window_visible: None,
            resize_scale: Some(300),
            save_settings: true,
            close: false,
        }
    );
    assert_eq!(st.scale, 300);
}

#[test]
fn tray_set_character_rejected_saves_nothing() {
    let mut st = AppState::new();
    let e = st.apply_tray_action(&TrayAction::SetCharacter(String::from("unknown-saint")));
    assert!(!e.save_settings);
    assert_eq!(st.character, Character::AugustineOfHippo);
}

#[test]
fn tray_set_character_accepted_saves() {
    let mut st = AppState::new();
    let e = st.apply_tray_action(&TrayAction::SetCharacter(String::from("saint-patrick")));
    assert!(e.save_settings);
    assert_eq!(st.character, Character::SaintPatrick);
    assert_eq!(st.settings.character, Character::SaintPatrick);
}

#[test]
fn tray_quit_closes_and_raises_flag() {
    let mut st = AppState::new();
    let e = st.apply_tray_action(&TrayAction::Quit);
    assert!(e.close);
    assert!(st.should_quit);
}

#[test]
fn settings_from_parts_restores_invariants() {
    let s = Settings::from_parts(5, -7, 9999, "thomas-aquinas");
    assert_eq!(s.window.x, 5);
    assert_eq!(s.window.y, -7);
    assert_eq!(s.window.scale, 300);
    assert_eq!(s.character, Character::ThomasAquinas);

    let corrupt = Settings::from_parts(0, 0, 0, "someone-else");
    assert_eq!(corrupt.window.scale, 50);
    assert_eq!(corrupt.character, Character::AugustineOfHippo);
}

#[test]
fn settings_defaults() {
    let s = Settings::default();
    assert_eq!(s.window.x, 100);
    assert_eq!(s.window.y, 100);
    assert_eq!(s.window.scale, 100);
    assert_eq!(s.character, Character::AugustineOfHippo);
}
