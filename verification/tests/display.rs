//! Tests for the display strings and the menu control surface.

use praymodoro::menu::window_size_for_scale;
use praymodoro::state::{AppState, Character, PomodoroMode};
use praymodoro::timer::{format_time, TimeUpdate};
use praymodoro::tray::{countdown_label, format_character_name, menu_sizes};

#[test]
fn mode_identifiers() {
    assert_eq!(PomodoroMode::Work.as_str(), "work");
    assert_eq!(PomodoroMode::Rest.as_str(), "rest");
}

#[test]
fn character_display_names() {
    assert_eq!(format_character_name("augustine-of-hippo"), "Augustine Hippo");
    assert_eq!(format_character_name("thomas-aquinas"), "Thomas Aquinas");
    assert_eq!(format_character_name("saint-patrick"), "Saint Patrick");
    assert_eq!(format_character_name("thomas-more"), "Thomas More");
}

#[test]
fn character_display_name_edge_cases() {
    assert_eq!(format_character_name(""), "");
    assert_eq!(format_character_name("of"), "");
    assert_eq!(format_character_name("of-of"), "");
    assert_eq!(format_character_name("hello"), "Hello");
    assert_eq!(format_character_name("a-of-b"), "A B");
    assert_eq!(format_character_name("already-Upper"), "Already Upper");
    assert_eq!(format_character_name("4two-words"), "4two Words");
}

#[test]
fn countdown_label_shows_mode_and_time() {
    let mut st = AppState::new();
    assert_eq!(countdown_label(&st), "Work for: 25:00");
    st.publish(&TimeUpdate {
        mode_type: PomodoroMode::Rest,
        remaining: 42,
        formatted_time: format_time(42),
    });
    assert_eq!(countdown_label(&st), "Pray for: 00:42");
}

#[test]
fn publish_replaces_only_the_snapshot() {
    let mut st = AppState::new();
    st.set_scale(150);
    st.publish(&TimeUpdate {
        mode_type: PomodoroMode::Rest,
        remaining: 120,
        formatted_time: format_time(120),
    });
    assert_eq!(st.mode, PomodoroMode::Rest);
    assert_eq!(st.remaining_seconds, 120);
    assert_eq!(st.formatted_time, "02:00");
    assert_eq!(st.scale, 150);
    assert_eq!(st.character, Character::AugustineOfHippo);
}

#[test]
fn menu_state_reflects_the_state() {
    let mut st = AppState::new();
    st.set_character("saint-patrick");
    st.set_scale(75);
    st.toggle_visibility();
    let ms = st.menu_state();
    assert_eq!(ms.countdown, "25:00");
    assert_eq!(ms.mode, "work");
    assert!(!ms.is_character_visible);
    assert_eq!(ms.scale, 75);
    assert_eq!(ms.character, "saint-patrick");
}

#[test]
fn menu_toggle_character() {
    let mut st = AppState::new();
    let e = st.menu_action("toggle-character");
    assert_eq!(e.window_visible, Some(false));
    assert!(!e.refocus_menu);
    assert!(!st.visible);
    let e = st.menu_action("toggle-character");
    assert_eq!(e.window_visible, Some(true));
    assert!(e.refocus_menu);
    assert!(st.visible);
}

#[test]
fn menu_increase_size_steps_and_caps() {
    let mut st = AppState::new();
    let e = st.menu_action("increase-size");
    assert_eq!(st.scale, 110);
    assert_eq!(st.settings.window.scale, 110);
    assert_eq!(e.scale_changed, Some(110));
    assert_eq!(e.resize, Some((220, 495)));
    assert!(e.save_window);

    st.set_scale(300);
    st.menu_action("increase-size");
    assert_eq!(st.scale, 300);
}

#[test]
fn menu_decrease_size_steps_and_floors_at_natural_size() {
    let mut st = AppState::new();
    st.set_scale(120);
    let e = st.menu_action("decrease-size");
    assert_eq!(st.scale, 110);
    assert_eq!(e.scale_changed, Some(110));
    assert!(e.save_window);

    st.set_scale(100);
    st.menu_action("decrease-size");
    assert_eq!(st.scale, 100);

    st.set_scale(50);
    st.menu_action("decrease-size");
    assert_eq!(st.scale, 100);
}

#[test]
fn menu_next_character_advances_and_saves() {
    let mut st = AppState::new();
    let e = st.menu_action("next-character");
    assert_eq!(e.character_changed, Some(Character::ThomasAquinas));
    assert!(e.save_character);
    assert_eq!(st.character, Character::ThomasAquinas);
    assert_eq!(st.settings.character, Character::ThomasAquinas);
}

#[test]
fn menu_quit_raises_the_flag() {
    let mut st = AppState::new();
    let e = st.menu_action("quit");
    assert!(e.quit);
    assert!(st.should_quit);
}

#[test]
fn menu_unknown_action_is_a_no_op() {
    let mut st = AppState::new();
    let e = st.menu_action("make-coffee");
    assert_eq!(e.window_visible, None);
    assert_eq!(e.resize, None);
    assert_eq!(e.scale_changed, None);
    assert_eq!(e.character_changed, None);
    assert!(!e.save_window);
    assert!(!e.save_character);
    assert!(!e.quit);
    assert_eq!(st.scale, 100);
    assert!(st.visible);
    assert!(!st.should_quit);
}

#[test]
fn window_sizes_for_scales() {
    assert_eq!(window_size_for_scale(100), (200, 450));
    assert_eq!(window_size_for_scale(50), (100, 225));
    assert_eq!(window_size_for_scale(125), (250, 562));
    assert_eq!(window_size_for_scale(300), (600, 1350));
}

#[test]
fn size_menu_offers_the_fixed_set() {
    assert_eq!(menu_sizes(), vec![50, 75, 100, 125, 150, 200]);
}

#[test]
fn character_menu_lists_the_enumerated_set_in_order() {
    assert_eq!(
        Character::all(),
        vec![
            Character::AugustineOfHippo,
            Character::ThomasAquinas,
            Character::SaintPatrick,
            Character::ThomasMore,
        ]
    );
}

#[test]
fn character_identifiers_round_trip() {
    for c in [
        Character::AugustineOfHippo,
        Character::ThomasAquinas,
        Character::SaintPatrick,
        Character::ThomasMore,
    ] {
        assert_eq!(Character::from_id(c.id()), Some(c));
    }
}
