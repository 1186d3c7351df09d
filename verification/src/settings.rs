//! User preferences persisted between sessions.
//!
//! The stored scale factor is kept in hundredths (100 means natural size),
//! so the clamp bounds of the scale intent — one half to three times the
//! natural size — are the integers 50 and 300. Reading and writing the
//! settings file is left to the unverified shell around the library, which
//! hands plain values in and out and falls back to the defaults when the
//! file is missing or corrupt.

use vstd::prelude::*;

use crate::state::Character;

verus! {

/// Smallest stored scale, in hundredths: half the natural size.
pub const MIN_SCALE: u32 = 50;

/// Largest stored scale, in hundredths: three times the natural size.
pub const MAX_SCALE: u32 = 300;

/// The scale clamped into the accepted range.
pub open spec fn spec_clamp_scale(v: int) -> int {
    if v < MIN_SCALE {
        MIN_SCALE as int
    } else if v > MAX_SCALE {
        MAX_SCALE as int
    } else {
        v
    }
}

/// Clamps a requested scale into the accepted range.
pub fn clamp_scale(v: u32) -> (r: u32)
    ensures
        r == spec_clamp_scale(v as int),
        MIN_SCALE <= r <= MAX_SCALE,
{
    if v < MIN_SCALE {
        MIN_SCALE
    } else if v > MAX_SCALE {
        MAX_SCALE
    } else {
        v
    }
}

/// Window positioning and scale settings.
#[derive(Clone, Copy, Debug, PartialEq, Eq, Structural)]
pub struct WindowSettings {
    /// Window X position on screen.
    pub x: i32,
    /// Window Y position on screen.
    pub y: i32,
    /// Window scale in hundredths (50 = half size, 100 = natural size).
    pub scale: u32,
}

impl WindowSettings {
    /// The stored scale lies in the accepted range.
    pub open spec fn wf(&self) -> bool {
        MIN_SCALE <= self.scale <= MAX_SCALE
    }

    /// The default window placement: position (100, 100) at natural size.
    pub open spec fn spec_default() -> WindowSettings {
        WindowSettings { x: 100, y: 100, scale: 100 }
    }
}

impl Default for WindowSettings {
    fn default() -> (r: WindowSettings)
        ensures
            r == WindowSettings::spec_default(),
            r.wf(),
    {
        WindowSettings { x: 100, y: 100, scale: 100 }
    }
}

/// User preferences persisted between application sessions.
#[derive(Clone, Copy, Debug, PartialEq, Eq, Structural)]
pub struct Settings {
    /// Window positioning and scale preferences.
    pub window: WindowSettings,
    /// Selected companion character.
    pub character: Character,
}

impl Settings {
    /// The stored window settings are well formed.
    pub open spec fn wf(&self) -> bool {
        self.window.wf()
    }

    /// The default preferences: default placement and the default
    /// character.
    pub open spec fn spec_default() -> Settings {
        Settings {
            window: WindowSettings::spec_default(),
            character: Character::AugustineOfHippo,
        }
    }

    /// Builds settings from values read out of external storage, restoring
    /// the invariants a corrupt file may have lost: the scale is clamped
    /// into range, and an unknown character identifier falls back to the
    /// default character.
    pub fn from_parts(x: i32, y: i32, scale: u32, character_id: &str) -> (r: Settings)
        ensures
            r.window.x == x,
            r.window.y == y,
            r.window.scale == spec_clamp_scale(scale as int),
            r.character == match Character::spec_from_id(character_id@) {
                Some(c) => c,
                None => Character::AugustineOfHippo,
            },
            r.wf(),
    {
        let character: Character = match Character::from_id(character_id) {
            Some(c) => c,
            None => Character::AugustineOfHippo,
        };
        Settings { window: WindowSettings { x, y, scale: clamp_scale(scale) }, character }
    }
}

impl Default for Settings {
    fn default() -> (r: Settings)
        ensures
            r == Settings::spec_default(),
            r.wf(),
    {
        Settings { window: WindowSettings::default(), character: Character::AugustineOfHippo }
    }
}

} // verus!
