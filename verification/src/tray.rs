//! The tray control surface: the intents a tray menu issues, their effect
//! on the shared state, and the display strings the menu shows.
//!
//! Building the actual tray icon and widgets is platform glue and lives
//! outside the library; it feeds intents in and carries the returned
//! effects out (showing or hiding the window, resizing it, saving the
//! settings, closing the application).

use vstd::prelude::*;
use vstd::string::StrSliceExecFns;
use vstd::string::StringExecFns;

use crate::settings::{spec_clamp_scale, Settings, WindowSettings};
use crate::state::{AppState, Character, PomodoroMode};

verus! {

/// An intent issued from the tray menu.
#[derive(Debug, PartialEq, Eq)]
pub enum TrayAction {
    /// Toggle the visibility of the character window.
    ToggleVisibility,
    /// Change the selected character to the one with this identifier.
    SetCharacter(String),
    /// Change the window scale, in hundredths.
    SetScale(u32),
    /// Quit the application.
    Quit,
}

/// What the platform layer must do after an intent was applied.
#[derive(Clone, Copy, Debug, PartialEq, Eq, Structural)]
pub struct TrayEffect {
    /// Set the companion window visibility to this value.
    pub window_visible: Option<bool>,
    /// Resize the companion window for this scale, in hundredths.
    pub resize_scale: Option<u32>,
    /// Persist the settings (best effort, failures are swallowed).
    pub save_settings: bool,
    /// Close the application window.
    pub close: bool,
}

impl TrayEffect {
    /// The effect that asks for nothing.
    pub open spec fn spec_none() -> TrayEffect {
        TrayEffect { window_visible: None, resize_scale: None, save_settings: false, close: false }
    }
}

/// The state after applying a tray intent.
pub open spec fn spec_apply_tray(st: AppState, action: TrayAction) -> AppState {
    match action {
        TrayAction::ToggleVisibility => AppState { visible: !st.visible, ..st },
        TrayAction::SetCharacter(id) => match Character::spec_from_id(id@) {
            Some(c) => AppState {
                character: c,
                settings: Settings { character: c, ..st.settings },
                ..st
            },
            None => st,
        },
        TrayAction::SetScale(v) => AppState {
            scale: spec_clamp_scale(v as int) as u32,
            settings: Settings {
                window: WindowSettings {
                    scale: spec_clamp_scale(v as int) as u32,
                    ..st.settings.window
                },
                ..st.settings
            },
            ..st
        },
        TrayAction::Quit => AppState { should_quit: true, ..st },
    }
}

/// The effect reported after applying a tray intent. The settings are
/// saved exactly when a persisted preference (scale or character) changed.
pub open spec fn spec_tray_effect(st: AppState, action: TrayAction) -> TrayEffect {
    match action {
        TrayAction::ToggleVisibility => TrayEffect {
            window_visible: Some(!st.visible),
            ..TrayEffect::spec_none()
        },
        TrayAction::SetCharacter(id) => if Character::spec_from_id(id@) is Some {
            TrayEffect { save_settings: true, ..TrayEffect::spec_none() }
        } else {
            TrayEffect::spec_none()
        },
        TrayAction::SetScale(v) => TrayEffect {
            resize_scale: Some(spec_clamp_scale(v as int) as u32),
            save_settings: true,
            ..TrayEffect::spec_none()
        },
        TrayAction::Quit => TrayEffect { close: true, ..TrayEffect::spec_none() },
    }
}

impl AppState {
    /// Applies one tray intent atomically and reports what the platform
    /// layer must do in response. Unknown character identifiers are
    /// rejected: the state is left unchanged.
    pub fn apply_tray_action(&mut self, action: &TrayAction) -> (e: TrayEffect)
        ensures
            *final(self) == spec_apply_tray(*old(self), *action),
            e == spec_tray_effect(*old(self), *action),
    {
        match action {
            TrayAction::ToggleVisibility => {
                self.toggle_visibility();
                TrayEffect {
                    window_visible: Some(self.visible),
                    resize_scale: None,
                    save_settings: false,
                    close: false,
                }
            },
            TrayAction::SetCharacter(id) => {
                let accepted = self.set_character(id.as_str());
                TrayEffect {
                    window_visible: None,
                    resize_scale: None,
                    save_settings: accepted,
                    close: false,
                }
            },
            TrayAction::SetScale(v) => {
                self.set_scale(*v);
                TrayEffect {
                    window_visible: None,
                    resize_scale: Some(self.scale),
                    save_settings: true,
                    close: false,
                }
            },
            TrayAction::Quit => {
                self.quit();
                TrayEffect {
                    window_visible: None,
                    resize_scale: None,
                    save_settings: false,
                    close: true,
                }
            },
        }
    }
}

/// The scale options of the size submenu, in hundredths.
pub open spec fn spec_menu_sizes() -> Seq<u32> {
    seq![50u32, 75u32, 100u32, 125u32, 150u32, 200u32]
}

/// The discrete scale options the size submenu offers, in hundredths.
/// The option equal to the stored scale is the checked one.
pub fn menu_sizes() -> (r: Vec<u32>)
    ensures
        r@ == spec_menu_sizes(),
{
    let r = vec![50u32, 75u32, 100u32, 125u32, 150u32, 200u32];
    proof {
        assert(r@ =~= spec_menu_sizes());
    }
    r
}

/// The label prefix shown before the countdown for a mode.
pub open spec fn spec_mode_label(mode: PomodoroMode) -> Seq<char> {
    match mode {
        PomodoroMode::Work => "Work for:"@,
        PomodoroMode::Rest => "Pray for:"@,
    }
}

/// The countdown line of the tray menu for `state`.
pub open spec fn spec_countdown_label(st: AppState) -> Seq<char> {
    spec_mode_label(st.mode) + " "@ + st.formatted_time@
}

/// Renders the countdown line the tray menu displays, for example
/// "Work for: 25:00".
pub fn countdown_label(st: &AppState) -> (r: String)
    ensures
        r@ == spec_countdown_label(*st),
{
    let mut r = match st.mode {
        PomodoroMode::Work => String::from_str("Work for:"),
        PomodoroMode::Rest => String::from_str("Pray for:"),
    };
    r.append(" ");
    r.append(st.formatted_time.as_str());
    r
}

/// Lower-case ASCII letter.
pub open spec fn is_ascii_lower(c: char) -> bool {
    'a' <= c <= 'z'
}

/// The upper-case counterpart of a lower-case ASCII letter; any other
/// character is unchanged.
pub open spec fn to_upper(c: char) -> char {
    if is_ascii_lower(c) {
        ((c as u32) - 32) as char
    } else {
        c
    }
}

/// A word with its first character upper-cased.
pub open spec fn capitalize(w: Seq<char>) -> Seq<char> {
    if w.len() == 0 {
        w
    } else {
        seq![to_upper(w[0])] + w.skip(1)
    }
}

/// The words of `rest` split on dashes, the first of them continuing the
/// partial word `cur`.
pub open spec fn split_acc(rest: Seq<char>, cur: Seq<char>) -> Seq<Seq<char>>
    decreases rest.len(),
{
    if rest.len() == 0 {
        seq![cur]
    } else if rest[0] == '-' {
        seq![cur] + split_acc(rest.skip(1), Seq::empty())
    } else {
        split_acc(rest.skip(1), cur.push(rest[0]))
    }
}

/// The dash-separated words of an identifier.
pub open spec fn split_words(s: Seq<char>) -> Seq<Seq<char>> {
    split_acc(s, Seq::empty())
}

/// Every word capitalized, with the filler word "of" dropped.
pub open spec fn title_words(ws: Seq<Seq<char>>) -> Seq<Seq<char>>
    decreases ws.len(),
{
    if ws.len() == 0 {
        Seq::empty()
    } else if ws[0] == "of"@ {
        title_words(ws.skip(1))
    } else {
        seq![capitalize(ws[0])] + title_words(ws.skip(1))
    }
}

/// The words joined by single spaces.
pub open spec fn join_space(ws: Seq<Seq<char>>) -> Seq<char>
    decreases ws.len(),
{
    if ws.len() == 0 {
        Seq::empty()
    } else if ws.len() == 1 {
        ws[0]
    } else {
        ws[0] + seq![' '] + join_space(ws.skip(1))
    }
}

/// The human-readable display name of a kebab-case identifier: its words
/// in title case, joined by spaces, with the filler word "of" dropped.
pub open spec fn spec_display_name(s: Seq<char>) -> Seq<char> {
    join_space(title_words(split_words(s)))
}

/// The text still to be rendered for the remaining words `ws`; `sep` says
/// whether a word was already rendered, so a space must come first.
spec fn rest_render(ws: Seq<Seq<char>>, sep: bool) -> Seq<char>
    decreases ws.len(),
{
    if ws.len() == 0 {
        Seq::empty()
    } else if ws[0] == "of"@ {
        rest_render(ws.skip(1), sep)
    } else {
        (if sep {
            seq![' ']
        } else {
            Seq::empty()
        }) + capitalize(ws[0]) + rest_render(ws.skip(1), true)
    }
}

/// Word-by-word rendering agrees with joining the title-cased words.
proof fn lemma_rest_render_join(ws: Seq<Seq<char>>)
    ensures
        rest_render(ws, false) == join_space(title_words(ws)),
        rest_render(ws, true) == if title_words(ws).len() == 0 {
            Seq::<char>::empty()
        } else {
            seq![' '] + join_space(title_words(ws))
        },
    decreases ws.len(),
{
    if ws.len() == 0 {
    } else {
        lemma_rest_render_join(ws.skip(1));
        if ws[0] == "of"@ {
        } else {
            let t = title_words(ws.skip(1));
            assert(title_words(ws) == seq![capitalize(ws[0])] + t);
            if t.len() == 0 {
                assert(title_words(ws) =~= seq![capitalize(ws[0])]);
                assert(rest_render(ws, false) =~= capitalize(ws[0]));
                assert(rest_render(ws, true) =~= seq![' '] + capitalize(ws[0]));
            } else {
                assert((seq![capitalize(ws[0])] + t).skip(1) =~= t);
                assert(title_words(ws).len() >= 2);
                assert(join_space(title_words(ws)) == capitalize(ws[0]) + seq![' '] + join_space(t));
                assert(rest_render(ws, false) =~= join_space(title_words(ws)));
                assert(rest_render(ws, true) =~= seq![' '] + join_space(title_words(ws)));
            }
        }
    }
}

/// Consuming a dashless run of `k` characters extends the partial word.
proof fn lemma_split_acc_run(s: Seq<char>, cur: Seq<char>, k: int)
    requires
        0 <= k <= s.len(),
        forall|j: int| 0 <= j < k ==> s[j] != '-',
    ensures
        split_acc(s, cur) == split_acc(s.skip(k), cur + s.take(k)),
    decreases k,
{
    if k == 0 {
        assert(s.skip(0) =~= s);
        assert(cur + s.take(0) =~= cur);
    } else {
        assert(forall|j: int| 0 <= j < k - 1 ==> s.skip(1)[j] == s[j + 1] && s[j + 1] != '-');
        lemma_split_acc_run(s.skip(1), cur.push(s[0]), k - 1);
        assert(s.skip(1).skip(k - 1) =~= s.skip(k));
        assert(cur.push(s[0]) + s.skip(1).take(k - 1) =~= cur + s.take(k));
    }
}

/// The single-character string for the upper-case counterpart of a
/// lower-case ASCII letter.
fn upper_str(c: char) -> (r: &'static str)
    requires
        is_ascii_lower(c),
    ensures
        r@ == seq![to_upper(c)],
{
    let r: &'static str = match c {
        'a' => "A",
        'b' => "B",
        'c' => "C",
        'd' => "D",
        'e' => "E",
        'f' => "F",
        'g' => "G",
        'h' => "H",
        'i' => "I",
        'j' => "J",
        'k' => "K",
        'l' => "L",
        'm' => "M",
        'n' => "N",
        'o' => "O",
        'p' => "P",
        'q' => "Q",
        'r' => "R",
        's' => "S",
        't' => "T",
        'u' => "U",
        'v' => "V",
        'w' => "W",
        'x' => "X",
        'y' => "Y",
        _ => "Z",
    };
    proof {
        reveal_strlit("A");
        reveal_strlit("B");
        reveal_strlit("C");
        reveal_strlit("D");
        reveal_strlit("E");
        reveal_strlit("F");
        reveal_strlit("G");
        reveal_strlit("H");
        reveal_strlit("I");
        reveal_strlit("J");
        reveal_strlit("K");
        reveal_strlit("L");
        reveal_strlit("M");
        reveal_strlit("N");
        reveal_strlit("O");
        reveal_strlit("P");
        reveal_strlit("Q");
        reveal_strlit("R");
        reveal_strlit("S");
        reveal_strlit("T");
        reveal_strlit("U");
        reveal_strlit("V");
        reveal_strlit("W");
        reveal_strlit("X");
        reveal_strlit("Y");
        reveal_strlit("Z");
        assert(r@ =~= seq![to_upper(c)]);
    }
    r
}

/// Formats a character identifier into a human-readable display name:
/// kebab-case becomes Title Case, and the filler word "of" is dropped, so
/// "augustine-of-hippo" becomes "Augustine Hippo".
pub fn format_character_name(name: &str) -> (r: String)
    requires
        name.is_ascii(),
        name@.len() < usize::MAX,
    ensures
        r@ == spec_display_name(name@),
{
    let len: usize = name.unicode_len();
    let mut start: usize = 0;
    let mut sep = false;
    let mut r = String::new();
    proof {
        lemma_rest_render_join(split_words(name@));
        assert(name@.skip(0) =~= name@);
    }
    while start <= len
        invariant
            name.is_ascii(),
            len == name@.len(),
            len < usize::MAX,
            start <= len + 1,
            start <= len ==> spec_display_name(name@) == r@ + rest_render(
                split_acc(name@.skip(start as int), Seq::empty()),
                sep,
            ),
            start == len + 1 ==> spec_display_name(name@) == r@,
        decreases len + 1 - start,
    {
        let mut end: usize = start;
        while end < len && name.get_char(end) != '-'
            invariant
                name.is_ascii(),
                len == name@.len(),
                start <= end <= len,
                forall|j: int| start <= j < end ==> name@[j] != '-',
            decreases len - end,
        {
            end = end + 1;
        }
        let ghost w = name@.subrange(start as int, end as int);
        let ghost rest = split_acc(name@.skip(end as int + 1), Seq::<char>::empty());
        proof {
            assert(forall|j: int|
                0 <= j < end - start ==> name@.skip(start as int)[j] == name@[start + j]
                    && name@[start + j] != '-');
            lemma_split_acc_run(name@.skip(start as int), Seq::empty(), (end - start) as int);
            assert(name@.skip(start as int).skip((end - start) as int) =~= name@.skip(end as int));
            assert(Seq::empty() + name@.skip(start as int).take((end - start) as int) =~= w);
            if end < len {
                assert(name@.skip(end as int)[0] == name@[end as int]);
                assert(name@.skip(end as int).skip(1) =~= name@.skip(end as int + 1));
                assert(split_acc(name@.skip(start as int), Seq::empty()) == seq![w] + rest);
                assert((seq![w] + rest)[0] == w);
                assert((seq![w] + rest).skip(1) =~= rest);
            } else {
                assert(name@.skip(end as int).len() == 0);
                assert(split_acc(name@.skip(start as int), Seq::empty()) == seq![w]);
                assert((seq![w]).skip(1) =~= Seq::<Seq<char>>::empty());
            }
        }
        let is_of = if end - start == 2 {
            name.get_char(start) == 'o' && name.get_char(start + 1) == 'f'
        } else {
            false
        };
        proof {
            reveal_strlit("of");
            assert("of"@.len() == 2 && "of"@[0] == 'o' && "of"@[1] == 'f');
            assert(w.len() == end - start);
            if end - start == 2 {
                assert(w[0] == name@[start as int]);
                assert(w[1] == name@[start as int + 1]);
            }
            if is_of {
                assert(w =~= "of"@);
            } else {
                assert(w != "of"@);
            }
        }
        let ghost r0 = r@;
        let ghost sep0 = sep;
        if !is_of {
            if sep {
                r.append(" ");
                proof {
                    reveal_strlit(" ");
                }
            }
            if start < end {
                proof {
                    assert(w[0] == name@[start as int]);
                    assert(capitalize(w) == seq![to_upper(w[0])] + w.skip(1));
                }
                let c = name.get_char(start);
                if c >= 'a' && c <= 'z' {
                    r.append(upper_str(c));
                } else {
                    r.append(name.substring_ascii(start, start + 1));
                    proof {
                        assert(name@.subrange(start as int, start as int + 1) =~= seq![w[0]]);
                        assert(seq![w[0]] =~= seq![to_upper(w[0])]);
                    }
                }
                r.append(name.substring_ascii(start + 1, end));
                proof {
                    assert(name@.subrange(start as int + 1, end as int) =~= w.skip(1));
                }
            } else {
                proof {
                    assert(capitalize(w) =~= Seq::<char>::empty());
                }
            }
            sep = true;
        }
        proof {
            assert((seq![w])[0] == w);
            if end < len {
                assert((seq![w] + rest)[0] == w);
                assert((seq![w] + rest).skip(1) =~= rest);
            } else {
                assert((seq![w]).skip(1) =~= Seq::<Seq<char>>::empty());
                assert(rest_render(Seq::<Seq<char>>::empty(), sep0) == Seq::<char>::empty());
                assert(rest_render(Seq::<Seq<char>>::empty(), true) == Seq::<char>::empty());
            }
            if is_of {
                if end < len {
                    assert(rest_render(seq![w] + rest, sep0) == rest_render(rest, sep0));
                } else {
                    assert(rest_render(seq![w], sep0) == Seq::<char>::empty());
                }
            } else {
                let sep_text: Seq<char> = if sep0 {
                    seq![' ']
                } else {
                    Seq::empty()
                };
                assert(r@ =~= r0 + sep_text + capitalize(w));
                if end < len {
                    assert(rest_render(seq![w] + rest, sep0) == sep_text + capitalize(w)
                        + rest_render(rest, true));
                } else {
                    assert(rest_render(seq![w], sep0) == sep_text + capitalize(w) + rest_render(
                        Seq::<Seq<char>>::empty(),
                        true,
                    ));
                }
            }
            if end < len {
                assert(spec_display_name(name@) == r@ + rest_render(rest, sep)) by {
                    assert(r@ + rest_render(rest, sep) =~= spec_display_name(name@));
                }
            } else {
                assert(spec_display_name(name@) == r@) by {
                    assert(r@ =~= spec_display_name(name@));
                }
            }
        }
        start = end + 1;
    }
    r
}

} // verus!
