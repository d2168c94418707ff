//! What each menu screen shows, as text: the heading, the marker on the selected row, the
//! options screen's value column with its arrows, the window of the level list, and the
//! footer's hints. Where each line goes, and in what colour, is the renderer's.

use vstd::prelude::*;
use crate::layout::LEVEL_WINDOW;
use crate::menu::{
    level_window_start, still, update_of, window_start, MenuState, Nav, Screen, OPT_MOUSE, OPT_MUTE,
    OPT_PAD,
};
use crate::settings::{Settings, LEVELS};
use crate::text::{decimal, decimal_string};

verus! {

/// The marker drawn on the selected row.
pub const MARKER: &'static str = ">";

/// The footer's navigation hints, and its back hint.
pub const NAV_HINT: &'static str = "UP/DOWN  SELECT     ENTER  CONFIRM";
pub const BACK_HINT: &'static str = "ESC  BACK";
/// The options screen's hint for its value rows.
pub const CHANGE_HINT: &'static str = "LEFT/RIGHT  CHANGE";
/// What stands above and below a level list that runs on past its window.
pub const MORE: &'static str = "...";

/// The heading over a screen. The title screen has none: its name is the poster's wordmark.
pub open spec fn heading_of(screen: Screen) -> Option<&'static str> {
    match screen {
        Screen::Title => None,
        Screen::Pause => Some("PAUSED"),
        Screen::Options => Some("OPTIONS"),
        Screen::Controls => Some("CONTROLS"),
        Screen::Credits => Some("CREDITS"),
        Screen::Levels => Some("SWITCH LEVEL"),
    }
}

pub fn heading(screen: Screen) -> (r: Option<&'static str>)
    ensures
        r == heading_of(screen),
{
    match screen {
        Screen::Title => None,
        Screen::Pause => Some("PAUSED"),
        Screen::Options => Some("OPTIONS"),
        Screen::Controls => Some("CONTROLS"),
        Screen::Credits => Some("CREDITS"),
        Screen::Levels => Some("SWITCH LEVEL"),
    }
}

/// Whether the footer carries the back hint: everywhere but the title screen, where Back does
/// nothing and the corner is EXIT's.
pub fn shows_back_hint(screen: Screen) -> (r: bool)
    ensures
        r == (screen != Screen::Title),
{
    screen != Screen::Title
}

/// A row's text: with the marker in front when it is the selected one.
pub fn marked(text: &str, selected: bool) -> (r: String)
    ensures
        r@ == if selected {
            ">"@ + " "@ + text@
        } else {
            text@
        },
{
    let mut s = String::new();
    if selected {
        s.append(MARKER);
        s.append(" ");
    }
    s.append(text);
    s
}

/// The options screen's value for `row`: the text, and whether it can go lower and higher. A
/// sensitivity shows its notch and can move until it reaches an end; the mute row shows ON or
/// OFF and flips either way; the last two rows have no value.
pub open spec fn option_value_of(row: usize, st: Settings, muted: bool) -> Option<
    (Seq<char>, bool, bool),
> {
    if row == OPT_MOUSE {
        Some((decimal(st.mouse as nat), st.mouse > 1, st.mouse < LEVELS))
    } else if row == OPT_PAD {
        Some((decimal(st.pad as nat), st.pad > 1, st.pad < LEVELS))
    } else if row == OPT_MUTE {
        Some((if muted {
            "ON"@
        } else {
            "OFF"@
        }, true, true))
    } else {
        None
    }
}

pub fn option_value(row: usize, st: &Settings, muted: bool) -> (r: Option<(String, bool, bool)>)
    requires
        st.wf(),
    ensures
        match (r, option_value_of(row, *st, muted)) {
            (Some(v), Some(w)) => v.0@ == w.0 && v.1 == w.1 && v.2 == w.2,
            (None, None) => true,
            _ => false,
        },
{
    if row == OPT_MOUSE {
        Some((decimal_string(st.mouse as u64), st.mouse > 1, st.mouse < LEVELS))
    } else if row == OPT_PAD {
        Some((decimal_string(st.pad as u64), st.pad > 1, st.pad < LEVELS))
    } else if row == OPT_MUTE {
        let mut s = String::new();
        if muted {
            s.append("ON");
        } else {
            s.append("OFF");
        }
        Some((s, true, true))
    } else {
        None
    }
}

/// How a value is shown: on the selected row between its arrows, each only on a side that
/// still has somewhere to go; elsewhere bare.
pub fn shown_value(value: &str, selected: bool, can_less: bool, can_more: bool) -> (r: String)
    ensures
        r@ == if selected {
            (if can_less {
                "<"@
            } else {
                " "@
            }) + " "@ + value@ + " "@ + (if can_more {
                ">"@
            } else {
                " "@
            })
        } else {
            value@
        },
{
    let mut s = String::new();
    if selected {
        if can_less {
            s.append("<");
        } else {
            s.append(" ");
        }
        s.append(" ");
        s.append(value);
        s.append(" ");
        if can_more {
            s.append(">");
        } else {
            s.append(" ");
        }
    } else {
        s.append(value);
    }
    s
}

/// A missing arrow is how the screen says a sensitivity is at its end: it offers to go lower
/// exactly above the first notch and higher exactly below the last, and the mute row always
/// offers both.
pub proof fn lemma_the_arrows_mark_the_ends(row: usize, st: Settings, muted: bool)
    requires
        st.wf(),
        row == OPT_MOUSE || row == OPT_PAD || row == OPT_MUTE,
    ensures
        ({
            let (_, less, more) = option_value_of(row, st, muted)->0;
            let level = if row == OPT_MOUSE {
                st.mouse
            } else {
                st.pad
            };
            &&& row != OPT_MUTE ==> (less <==> level != 1) && (more <==> level != LEVELS)
            &&& row == OPT_MUTE ==> less && more
        }),
{
}

/// The arrows tell the truth about the keys: on a sensitivity row, the left arrow is shown
/// exactly when a frame of Left would change the notch, and the right arrow exactly when a
/// frame of Right would.
pub proof fn lemma_the_arrows_say_what_the_keys_do(v: MenuState, scene_count: nat, st: Settings)
    requires
        st.wf(),
        v.open,
        v.screen == Screen::Options,
        v.sel == OPT_MOUSE || v.sel == OPT_PAD,
    ensures
        ({
            let (_, less, more) = option_value_of(v.sel as usize, st, v.muted)->0;
            let level_after = |nav: Nav|
                {
                    let after = update_of(v, nav, scene_count, st).2;
                    if v.sel == OPT_MOUSE {
                        after.mouse
                    } else {
                        after.pad
                    }
                };
            let level = if v.sel == OPT_MOUSE {
                st.mouse
            } else {
                st.pad
            };
            &&& less <==> level_after(Nav { left: true, ..still() }) != level
            &&& more <==> level_after(Nav { right: true, ..still() }) != level
        }),
{
    vstd::arithmetic::div_mod::lemma_small_mod(v.sel, 5);
}

/// A level-list row: the scene's one-based number, then its name.
pub fn level_row(i: usize, name: &str) -> (r: String)
    requires
        i < usize::MAX,
    ensures
        r@ == decimal((i + 1) as nat) + ". "@ + name@,
{
    let mut s = decimal_string((i + 1) as u64);
    s.append(". ");
    s.append(name);
    s
}

/// The rows of an `n`-scene list the level screen shows around the selection `sel`, as
/// `start..end`, and whether more of the list runs on above and below the window.
pub fn level_window(sel: usize, n: usize) -> (r: (usize, usize, bool, bool))
    ensures
        r.0 == window_start(sel as nat, n as nat, LEVEL_WINDOW as nat),
        r.1 == if r.0 + LEVEL_WINDOW < n {
            r.0 + LEVEL_WINDOW
        } else {
            n as int
        },
        r.0 <= r.1 <= n,
        r.2 == (r.0 > 0),
        r.3 == (r.1 < n),
        sel < n ==> r.0 <= sel < r.1,
{
    let start = level_window_start(sel, n, LEVEL_WINDOW);
    let end = if start < n && n - start > LEVEL_WINDOW {
        start + LEVEL_WINDOW
    } else {
        n
    };
    (start, end, start > 0, end < n)
}

} // verus!
