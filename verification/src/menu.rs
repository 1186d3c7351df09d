//! The menu-window control surface: the state it displays each poll cycle
//! and the named actions it issues, applied atomically to the shared state.
//!
//! Action names arrive as plain strings from the menu frontend; an unknown
//! name is a no-op. Each action returns the effect the platform layer must
//! carry out (window commands, change notifications, settings saves).

use vstd::prelude::*;
use vstd::string::StringExecFns;

use crate::settings::{Settings, WindowSettings, MAX_SCALE};
use crate::state::{str_eq, AppState, Character};

verus! {

/// Base width of the companion window in pixels, at natural size.
pub const WINDOW_WIDTH: u32 = 200;

/// Base height of the companion window in pixels, at natural size.
pub const WINDOW_HEIGHT: u32 = 450;

/// Scale step of the size menu actions, in hundredths.
pub const SCALE_STEP: u32 = 10;

/// Smallest scale the size menu actions step down to, in hundredths.
/// The decrease action never goes below natural size.
pub const MIN_MENU_SCALE: u32 = 100;

/// The scale after one increase step: one tenth more, capped at the
/// largest accepted scale.
pub open spec fn spec_increase_scale(sc: int) -> int {
    if sc + SCALE_STEP > MAX_SCALE {
        MAX_SCALE as int
    } else {
        sc + SCALE_STEP
    }
}

/// The scale after one decrease step: one tenth less, but no smaller than
/// natural size.
pub open spec fn spec_decrease_scale(sc: int) -> int {
    if sc - SCALE_STEP < MIN_MENU_SCALE {
        MIN_MENU_SCALE as int
    } else {
        sc - SCALE_STEP
    }
}

/// The companion window size, in pixels, for a scale in hundredths.
pub open spec fn spec_window_size(sc: int) -> (int, int) {
    (WINDOW_WIDTH * sc / 100, WINDOW_HEIGHT * sc / 100)
}

/// Computes the companion window size, in pixels, for a scale in
/// hundredths.
pub fn window_size_for_scale(scale: u32) -> (r: (u32, u32))
    requires
        scale <= MAX_SCALE,
    ensures
        r.0 == spec_window_size(scale as int).0,
        r.1 == spec_window_size(scale as int).1,
{
    (WINDOW_WIDTH * scale / 100, WINDOW_HEIGHT * scale / 100)
}

/// What the menu frontend displays each poll cycle.
#[derive(Debug)]
pub struct MenuState {
    /// The countdown, rendered as "MM:SS".
    pub countdown: String,
    /// The current mode identifier ("work" or "rest").
    pub mode: String,
    /// Whether the companion window is currently visible.
    pub is_character_visible: bool,
    /// The stored window scale, in hundredths.
    pub scale: u32,
    /// Identifier of the selected character.
    pub character: String,
}

/// Whether `ms` displays exactly the state `st`.
pub open spec fn menu_state_matches(ms: MenuState, st: AppState) -> bool {
    &&& ms.countdown@ == st.formatted_time@
    &&& ms.mode@ == st.mode.spec_as_str()
    &&& ms.is_character_visible == st.visible
    &&& ms.scale == st.settings.window.scale
    &&& ms.character@ == st.settings.character.spec_id()
}

/// What the platform layer must do after a menu action was applied.
#[derive(Clone, Copy, Debug, PartialEq, Eq)]
pub struct MenuEffect {
    /// Set the companion window visibility to this value.
    pub window_visible: Option<bool>,
    /// After showing the window, give focus back to the menu so it stays
    /// open.
    pub refocus_menu: bool,
    /// Resize the companion window to this pixel size.
    pub resize: Option<(u32, u32)>,
    /// Announce a new scale, in hundredths, to listeners.
    pub scale_changed: Option<u32>,
    /// Announce a newly selected character to listeners.
    pub character_changed: Option<Character>,
    /// Persist the window settings (best effort).
    pub save_window: bool,
    /// Persist the character choice (best effort).
    pub save_character: bool,
    /// Terminate the application.
    pub quit: bool,
}

impl MenuEffect {
    /// The effect that asks for nothing.
    pub open spec fn spec_none() -> MenuEffect {
        MenuEffect {
            window_visible: None,
            refocus_menu: false,
            resize: None,
            scale_changed: None,
            character_changed: None,
            save_window: false,
            save_character: false,
            quit: false,
        }
    }
}

/// The state after applying the named menu action; an unknown name leaves
/// the state unchanged.
pub open spec fn spec_menu_apply(st: AppState, action: Seq<char>) -> AppState {
    if action == "toggle-character"@ {
        AppState { visible: !st.visible, ..st }
    } else if action == "increase-size"@ {
        AppState {
            scale: spec_increase_scale(st.scale as int) as u32,
            settings: Settings {
                window: WindowSettings {
                    scale: spec_increase_scale(st.scale as int) as u32,
                    ..st.settings.window
                },
                ..st.settings
            },
            ..st
        }
    } else if action == "decrease-size"@ {
        AppState {
            scale: spec_decrease_scale(st.scale as int) as u32,
            settings: Settings {
                window: WindowSettings {
                    scale: spec_decrease_scale(st.scale as int) as u32,
                    ..st.settings.window
                },
                ..st.settings
            },
            ..st
        }
    } else if action == "next-character"@ {
        let c = Character::spec_from_index((st.character.spec_index() + 1) % Character::count());
        AppState { character: c, settings: Settings { character: c, ..st.settings }, ..st }
    } else if action == "quit"@ {
        AppState { should_quit: true, ..st }
    } else {
        st
    }
}

/// The effect reported after applying the named menu action.
pub open spec fn spec_menu_effect(st: AppState, action: Seq<char>) -> MenuEffect {
    if action == "toggle-character"@ {
        MenuEffect {
            window_visible: Some(!st.visible),
            refocus_menu: !st.visible,
            ..MenuEffect::spec_none()
        }
    } else if action == "increase-size"@ {
        let sc = spec_increase_scale(st.scale as int);
        MenuEffect {
            resize: Some((spec_window_size(sc).0 as u32, spec_window_size(sc).1 as u32)),
            scale_changed: Some(sc as u32),
            save_window: true,
            ..MenuEffect::spec_none()
        }
    } else if action == "decrease-size"@ {
        let sc = spec_decrease_scale(st.scale as int);
        MenuEffect {
            resize: Some((spec_window_size(sc).0 as u32, spec_window_size(sc).1 as u32)),
            scale_changed: Some(sc as u32),
            save_window: true,
            ..MenuEffect::spec_none()
        }
    } else if action == "next-character"@ {
        MenuEffect {
            character_changed: Some(
                Character::spec_from_index((st.character.spec_index() + 1) % Character::count()),
            ),
            save_character: true,
            ..MenuEffect::spec_none()
        }
    } else if action == "quit"@ {
        MenuEffect { quit: true, ..MenuEffect::spec_none() }
    } else {
        MenuEffect::spec_none()
    }
}

impl AppState {
    /// Steps the scale one tenth up, capped at the largest accepted scale,
    /// in both the live state and the persisted settings.
    pub fn increase_size(&mut self)
        requires
            old(self).wf(),
        ensures
            *final(self) == (AppState {
                scale: spec_increase_scale(old(self).scale as int) as u32,
                settings: (Settings {
                    window: (WindowSettings {
                        scale: spec_increase_scale(old(self).scale as int) as u32,
                        ..old(self).settings.window
                    }),
                    ..old(self).settings
                }),
                ..*old(self)
            }),
            final(self).wf(),
    {
        let stepped: u32 = if self.scale + SCALE_STEP > MAX_SCALE {
            MAX_SCALE
        } else {
            self.scale + SCALE_STEP
        };
        self.scale = stepped;
        self.settings.window.scale = stepped;
    }

    /// Steps the scale one tenth down, but never below natural size, in
    /// both the live state and the persisted settings.
    pub fn decrease_size(&mut self)
        requires
            old(self).wf(),
        ensures
            *final(self) == (AppState {
                scale: spec_decrease_scale(old(self).scale as int) as u32,
                settings: (Settings {
                    window: (WindowSettings {
                        scale: spec_decrease_scale(old(self).scale as int) as u32,
                        ..old(self).settings.window
                    }),
                    ..old(self).settings
                }),
                ..*old(self)
            }),
            final(self).wf(),
    {
        let stepped: u32 = if self.scale < MIN_MENU_SCALE + SCALE_STEP {
            MIN_MENU_SCALE
        } else {
            self.scale - SCALE_STEP
        };
        self.scale = stepped;
        self.settings.window.scale = stepped;
    }

    /// What the menu frontend should display for this state.
    pub fn menu_state(&self) -> (r: MenuState)
        ensures
            menu_state_matches(r, *self),
    {
        MenuState {
            countdown: self.formatted_time.clone(),
            mode: String::from_str(self.mode.as_str()),
            is_character_visible: self.visible,
            scale: self.settings.window.scale,
            character: String::from_str(self.settings.character.id()),
        }
    }

    /// Applies one named menu action atomically and reports what the
    /// platform layer must do in response. An unknown name is rejected as
    /// a no-op.
    pub fn menu_action(&mut self, action: &str) -> (e: MenuEffect)
        requires
            old(self).wf(),
        ensures
            *final(self) == spec_menu_apply(*old(self), action@),
            e == spec_menu_effect(*old(self), action@),
            final(self).wf(),
    {
        if str_eq(action, "toggle-character") {
            self.toggle_visibility();
            MenuEffect {
                window_visible: Some(self.visible),
                refocus_menu: self.visible,
                resize: None,
                scale_changed: None,
                character_changed: None,
                save_window: false,
                save_character: false,
                quit: false,
            }
        } else if str_eq(action, "increase-size") {
            self.increase_size();
            let size = window_size_for_scale(self.scale);
            MenuEffect {
                window_visible: None,
                refocus_menu: false,
                resize: Some(size),
                scale_changed: Some(self.scale),
                character_changed: None,
                save_window: true,
                save_character: false,
                quit: false,
            }
        } else if str_eq(action, "decrease-size") {
            self.decrease_size();
            let size = window_size_for_scale(self.scale);
            MenuEffect {
                window_visible: None,
                refocus_menu: false,
                resize: Some(size),
                scale_changed: Some(self.scale),
                character_changed: None,
                save_window: true,
                save_character: false,
                quit: false,
            }
        } else if str_eq(action, "next-character") {
            let c = self.next_character();
            MenuEffect {
                window_visible: None,
                refocus_menu: false,
                resize: None,
                scale_changed: None,
                character_changed: Some(c),
                save_window: false,
                save_character: true,
                quit: false,
            }
        } else if str_eq(action, "quit") {
            self.quit();
            MenuEffect {
                window_visible: None,
                refocus_menu: false,
                resize: None,
                scale_changed: None,
                character_changed: None,
                save_window: false,
                save_character: false,
                quit: true,
            }
        } else {
            MenuEffect {
                window_visible: None,
                refocus_menu: false,
                resize: None,
                scale_changed: None,
                character_changed: None,
                save_window: false,
                save_character: false,
                quit: false,
            }
        }
    }
}

} // verus!
