//! Application state: the timer mode, the fixed set of companion
//! characters, and the shared state mutated by user intents.

use vstd::prelude::*;
use vstd::string::StrSliceExecFns;
use vstd::string::StringExecFns;

use crate::settings::{clamp_scale, spec_clamp_scale, Settings, WindowSettings, MAX_SCALE, MIN_SCALE};
use crate::timer::TimeUpdate;

verus! {

/// Compares two strings character by character.
pub fn str_eq(a: &str, b: &str) -> (r: bool)
    ensures
        r == (a@ == b@),
{
    let a_len: usize = a.unicode_len();
    let b_len: usize = b.unicode_len();
    if a_len != b_len {
        return false;
    }
    let mut i: usize = 0;
    while i < a_len
        invariant
            i <= a_len,
            a_len == a@.len(),
            b_len == b@.len(),
            a_len == b_len,
            forall|j: int| 0 <= j < i ==> a@[j] == b@[j],
        decreases a_len - i,
    {
        if a.get_char(i) != b.get_char(i) {
            return false;
        }
        i = i + 1;
    }
    proof {
        assert(a@ =~= b@);
    }
    true
}

/// Current mode of the Pomodoro timer.
///
/// The hourly schedule alternates between focused work and short rest
/// periods; see the schedule in the timer module.
#[derive(Clone, Copy, Debug, PartialEq, Eq, Structural)]
pub enum PomodoroMode {
    /// Work mode: time for focused productivity.
    Work,
    /// Rest mode: time for prayer and reflection.
    Rest,
}

impl PomodoroMode {
    /// The string identifier of the mode, as used for display and
    /// asset lookup.
    pub open spec fn spec_as_str(&self) -> Seq<char> {
        match self {
            PomodoroMode::Work => "work"@,
            PomodoroMode::Rest => "rest"@,
        }
    }

    /// Returns the string representation of the mode.
    pub fn as_str(&self) -> (r: &'static str)
        ensures
            r@ == self.spec_as_str(),
    {
        match self {
            PomodoroMode::Work => "work",
            PomodoroMode::Rest => "rest",
        }
    }
}

/// The fixed enumerated set of companion characters.
///
/// Each character has sprite assets keyed by its kebab-case identifier.
/// The cyclical order below is the order of the character menu.
#[derive(Clone, Copy, Debug, PartialEq, Eq, Structural)]
pub enum Character {
    AugustineOfHippo,
    ThomasAquinas,
    SaintPatrick,
    ThomasMore,
}

impl Character {
    /// Number of characters in the enumerated set.
    pub open spec fn count() -> int {
        4
    }

    /// Position of the character in the cyclical menu order.
    pub open spec fn spec_index(&self) -> int {
        match self {
            Character::AugustineOfHippo => 0,
            Character::ThomasAquinas => 1,
            Character::SaintPatrick => 2,
            Character::ThomasMore => 3,
        }
    }

    /// The character at a given position of the cyclical menu order.
    pub open spec fn spec_from_index(i: int) -> Character {
        if i == 0 {
            Character::AugustineOfHippo
        } else if i == 1 {
            Character::ThomasAquinas
        } else if i == 2 {
            Character::SaintPatrick
        } else {
            Character::ThomasMore
        }
    }

    /// The kebab-case identifier of the character.
    pub open spec fn spec_id(&self) -> Seq<char> {
        match self {
            Character::AugustineOfHippo => "augustine-of-hippo"@,
            Character::ThomasAquinas => "thomas-aquinas"@,
            Character::SaintPatrick => "saint-patrick"@,
            Character::ThomasMore => "thomas-more"@,
        }
    }

    /// The character whose identifier is `id`, if `id` names one.
    pub open spec fn spec_from_id(id: Seq<char>) -> Option<Character> {
        if id == Character::AugustineOfHippo.spec_id() {
            Some(Character::AugustineOfHippo)
        } else if id == Character::ThomasAquinas.spec_id() {
            Some(Character::ThomasAquinas)
        } else if id == Character::SaintPatrick.spec_id() {
            Some(Character::SaintPatrick)
        } else if id == Character::ThomasMore.spec_id() {
            Some(Character::ThomasMore)
        } else {
            None
        }
    }

    /// Returns the identifier of the character, as stored in settings and
    /// used for asset lookup.
    pub fn id(&self) -> (r: &'static str)
        ensures
            r@ == self.spec_id(),
    {
        match self {
            Character::AugustineOfHippo => "augustine-of-hippo",
            Character::ThomasAquinas => "thomas-aquinas",
            Character::SaintPatrick => "saint-patrick",
            Character::ThomasMore => "thomas-more",
        }
    }

    /// Looks an identifier up in the enumerated set; unknown identifiers
    /// yield nothing.
    pub fn from_id(id: &str) -> (r: Option<Character>)
        ensures
            r == Character::spec_from_id(id@),
    {
        if str_eq(id, "augustine-of-hippo") {
            Some(Character::AugustineOfHippo)
        } else if str_eq(id, "thomas-aquinas") {
            Some(Character::ThomasAquinas)
        } else if str_eq(id, "saint-patrick") {
            Some(Character::SaintPatrick)
        } else if str_eq(id, "thomas-more") {
            Some(Character::ThomasMore)
        } else {
            None
        }
    }

    /// The characters available in the menu, in their cyclical order.
    pub fn all() -> (r: Vec<Character>)
        ensures
            r@.len() == Character::count(),
            forall|i: int| 0 <= i < r@.len() ==> r@[i] == Character::spec_from_index(i),
    {
        let r = vec![
            Character::AugustineOfHippo,
            Character::ThomasAquinas,
            Character::SaintPatrick,
            Character::ThomasMore,
        ];
        r
    }

    /// The next character in the cyclical menu order, wrapping around
    /// modulo the size of the set.
    pub fn next(&self) -> (r: Character)
        ensures
            r == Character::spec_from_index((self.spec_index() + 1) % Character::count()),
    {
        match self {
            Character::AugustineOfHippo => Character::ThomasAquinas,
            Character::ThomasAquinas => Character::SaintPatrick,
            Character::SaintPatrick => Character::ThomasMore,
            Character::ThomasMore => Character::AugustineOfHippo,
        }
    }
}

/// The shared timer state: the latest published snapshot together with the
/// user-facing fields the control surface mutates.
///
/// One instance exists per process. It is written by the scheduler ticker
/// (the snapshot fields) and read and written by the control surface and
/// the presentation loop (everything else); the shared module guards it
/// with a single lock.
#[derive(Debug)]
pub struct AppState {
    /// Current timer mode.
    pub mode: PomodoroMode,
    /// Remaining seconds in the current period.
    pub remaining_seconds: i32,
    /// Pre-formatted time string ("MM:SS") for display.
    pub formatted_time: String,
    /// Currently selected companion character.
    pub character: Character,
    /// Window scale in hundredths (50 to 300).
    pub scale: u32,
    /// Whether the companion window is visible.
    pub visible: bool,
    /// User settings persisted to external storage.
    pub settings: Settings,
    /// Signal flag telling the presentation loop to terminate.
    pub should_quit: bool,
    /// Last known window position (x, y) in screen coordinates.
    pub window_position: Option<(i32, i32)>,
}

impl AppState {
    /// The scale fields lie in the accepted range.
    pub open spec fn wf(&self) -> bool {
        &&& MIN_SCALE <= self.scale <= MAX_SCALE
        &&& self.settings.wf()
    }

    /// Creates the initial state: work mode with a full 25-minute period,
    /// the default character at natural size, window visible.
    pub fn new() -> (r: AppState)
        ensures
            r.mode == PomodoroMode::Work,
            r.remaining_seconds == 1500,
            r.formatted_time@ == "25:00"@,
            r.character == Character::AugustineOfHippo,
            r.scale == 100,
            r.visible,
            r.settings == Settings::spec_default(),
            !r.should_quit,
            r.window_position is None,
            r.wf(),
    {
        AppState {
            mode: PomodoroMode::Work,
            remaining_seconds: 1500,
            formatted_time: String::from_str("25:00"),
            character: Character::AugustineOfHippo,
            scale: 100,
            visible: true,
            settings: Settings::default(),
            should_quit: false,
            window_position: None,
        }
    }

    /// An exact copy, made field by field so the copy is known to equal
    /// the original.
    pub fn duplicate(&self) -> (r: AppState)
        ensures
            r == *self,
    {
        AppState {
            mode: self.mode,
            remaining_seconds: self.remaining_seconds,
            formatted_time: self.formatted_time.clone(),
            character: self.character,
            scale: self.scale,
            visible: self.visible,
            settings: self.settings,
            should_quit: self.should_quit,
            window_position: self.window_position,
        }
    }

    /// Publishes a fresh snapshot from the scheduler ticker; all other
    /// fields are left untouched.
    pub fn publish(&mut self, update: &TimeUpdate)
        ensures
            *final(self) == (AppState {
                mode: update.mode_type,
                remaining_seconds: update.remaining,
                formatted_time: update.formatted_time,
                ..*old(self)
            }),
    {
        self.mode = update.mode_type;
        self.remaining_seconds = update.remaining;
        self.formatted_time = update.formatted_time.clone();
    }

    /// Flips the visibility of the companion window.
    pub fn toggle_visibility(&mut self)
        ensures
            *final(self) == (AppState { visible: !old(self).visible, ..*old(self) }),
    {
        self.visible = !self.visible;
    }

    /// Stores a new scale, clamped into the accepted range, in both the
    /// live state and the persisted settings.
    pub fn set_scale(&mut self, scale: u32)
        ensures
            *final(self) == (AppState {
                scale: spec_clamp_scale(scale as int) as u32,
                settings: (Settings {
                    window: (WindowSettings {
                        scale: spec_clamp_scale(scale as int) as u32,
                        ..old(self).settings.window
                    }),
                    ..old(self).settings
                }),
                ..*old(self)
            }),
            final(self).wf(),
    {
        let clamped = clamp_scale(scale);
        self.scale = clamped;
        self.settings.window.scale = clamped;
    }

    /// Selects the character named by `id`. An identifier outside the
    /// enumerated set is rejected: the state is left unchanged and `false`
    /// is returned.
    pub fn set_character(&mut self, id: &str) -> (accepted: bool)
        ensures
            accepted == (Character::spec_from_id(id@) is Some),
            *final(self) == match Character::spec_from_id(id@) {
                Some(c) => (AppState {
                    character: c,
                    settings: (Settings { character: c, ..old(self).settings }),
                    ..*old(self)
                }),
                None => *old(self),
            },
    {
        match Character::from_id(id) {
            Some(c) => {
                self.character = c;
                self.settings.character = c;
                true
            },
            None => false,
        }
    }

    /// Advances to the next character in the cyclical menu order, in both
    /// the live state and the persisted settings.
    pub fn next_character(&mut self) -> (r: Character)
        ensures
            r == Character::spec_from_index(
                (old(self).character.spec_index() + 1) % Character::count(),
            ),
            *final(self) == (AppState {
                character: r,
                settings: (Settings { character: r, ..old(self).settings }),
                ..*old(self)
            }),
    {
        let c = self.character.next();
        self.character = c;
        self.settings.character = c;
        c
    }

    /// Records a new window position in both the live state and the
    /// persisted settings.
    pub fn set_position(&mut self, x: i32, y: i32)
        ensures
            *final(self) == (AppState {
                window_position: Some((x, y)),
                settings: (Settings {
                    window: (WindowSettings { x, y, ..old(self).settings.window }),
                    ..old(self).settings
                }),
                ..*old(self)
            }),
    {
        self.window_position = Some((x, y));
        self.settings.window.x = x;
        self.settings.window.y = y;
    }

    /// Raises the quit flag; the presentation loop terminates when it next
    /// observes it. This is the only termination path.
    pub fn quit(&mut self)
        ensures
            *final(self) == (AppState { should_quit: true, ..*old(self) }),
    {
        self.should_quit = true;
    }
}

impl Default for AppState {
    fn default() -> (r: AppState)
        ensures
            r.mode == PomodoroMode::Work,
            r.remaining_seconds == 1500,
            r.formatted_time@ == "25:00"@,
            r.character == Character::AugustineOfHippo,
            r.scale == 100,
            r.visible,
            r.settings == Settings::spec_default(),
            !r.should_quit,
            r.window_position is None,
            r.wf(),
    {
        AppState::new()
    }
}

} // verus!
