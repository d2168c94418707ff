//! The title screen and the pause menu: a small stack of screens, each a fixed list of rows
//! except level-select, whose rows are the scene registry.
//!
//! Every screen is plain data and the row list is derived from it, so navigation, wrapping
//! and drawing share one definition of what is on the screen. The title screen and the pause
//! menu are roots (Back does nothing / means Continue); Options and Credits hang off the
//! title and return there, Controls hangs off Options and returns to the row that opened it,
//! and the level list hangs off the pause menu. [`Menu::update`] is the only place the state
//! changes; drawing reads it.

use vstd::prelude::*;
use crate::audio::Sfx;
use crate::input::{Input, PadEvents};
use crate::settings::{self, clamp_level, Settings, LEVELS};
use crate::layout::KEYMAP_ROWS;

verus! {

// Key slots (VK codes) read from `Input::key_press`.
pub const KEY_BACKSPACE: usize = 8;
pub const KEY_ENTER: usize = 13;
pub const KEY_ESCAPE: usize = 27;
pub const KEY_LEFT: usize = 37;
pub const KEY_UP: usize = 38;
pub const KEY_RIGHT: usize = 39;
pub const KEY_DOWN: usize = 40;
pub const KEY_SPACE: usize = 32;
pub const KEY_A: usize = 65;
pub const KEY_D: usize = 68;
pub const KEY_E: usize = 69;
pub const KEY_S: usize = 83;
pub const KEY_W: usize = 87;

/// What the engine should do after a frame of menu input.
#[derive(Clone, Copy, PartialEq, Eq, Debug, Structural)]
pub enum MenuAction {
    Nothing,
    /// Start a fresh game at the first level.
    NewGame,
    /// Close the pause menu and resume.
    Continue,
    /// Reload the current scene.
    RestartLevel,
    /// Load this scene index.
    SwitchLevel(usize),
    /// Back to the title screen.
    MainMenu,
    /// Exit the program.
    Quit,
    /// Options screen: flip audio mute. The menu stays open.
    ToggleMute,
}

impl MenuAction {
    /// Whether this action begins somewhere new rather than carrying on where the player was:
    /// the actions after which the inventory starts empty.
    pub open spec fn fresh(self) -> bool {
        match self {
            MenuAction::NewGame | MenuAction::RestartLevel | MenuAction::SwitchLevel(_)
            | MenuAction::MainMenu => true,
            _ => false,
        }
    }

    /// [`MenuAction::fresh`], computed.
    pub fn starts_fresh(self) -> (r: bool)
        ensures
            r == self.fresh(),
    {
        match self {
            MenuAction::NewGame | MenuAction::RestartLevel | MenuAction::SwitchLevel(_)
            | MenuAction::MainMenu => true,
            MenuAction::Nothing | MenuAction::Continue | MenuAction::Quit | MenuAction::ToggleMute => {
                false
            },
        }
    }
}

/// Which screen is up.
#[derive(Clone, Copy, PartialEq, Eq, Debug, Structural)]
pub enum Screen {
    Title,
    Pause,
    Options,
    Controls,
    Credits,
    Levels,
}

/// The directional, confirm and back edges for one frame, merged from keyboard and pad.
#[derive(Clone, Copy, PartialEq, Eq, Debug, Structural)]
pub struct Nav {
    pub up: bool,
    pub down: bool,
    pub left: bool,
    pub right: bool,
    pub confirm: bool,
    pub back: bool,
}

/// The edges `input` and `pad` make: arrows or WASD, Enter / Space / E to confirm, Backspace
/// or Escape to go back, and the pad's menu edges for each.
pub open spec fn nav_of(input: &Input, pad: &PadEvents) -> Nav {
    let k = input.key_press;
    Nav {
        up: k[KEY_UP as int] || k[KEY_W as int] || pad.menu_up,
        down: k[KEY_DOWN as int] || k[KEY_S as int] || pad.menu_down,
        left: k[KEY_LEFT as int] || k[KEY_A as int] || pad.menu_left,
        right: k[KEY_RIGHT as int] || k[KEY_D as int] || pad.menu_right,
        confirm: k[KEY_ENTER as int] || k[KEY_SPACE as int] || k[KEY_E as int] || pad.menu_confirm,
        back: k[KEY_BACKSPACE as int] || k[KEY_ESCAPE as int] || pad.menu_back,
    }
}

impl Nav {
    pub fn read(input: &Input, pad: &PadEvents) -> (n: Nav)
        ensures
            n == nav_of(input, pad),
            pad.menu_up ==> n.up,
            pad.menu_down ==> n.down,
            pad.menu_left ==> n.left,
            pad.menu_right ==> n.right,
            pad.menu_confirm ==> n.confirm,
            pad.menu_back ==> n.back,
            input.key_press[KEY_UP as int] || input.key_press[KEY_W as int] ==> n.up,
            input.key_press[KEY_DOWN as int] || input.key_press[KEY_S as int] ==> n.down,
            input.key_press[KEY_LEFT as int] || input.key_press[KEY_A as int] ==> n.left,
            input.key_press[KEY_RIGHT as int] || input.key_press[KEY_D as int] ==> n.right,
            input.key_press[KEY_ENTER as int] || input.key_press[KEY_SPACE as int]
                || input.key_press[KEY_E as int] ==> n.confirm,
            input.key_press[KEY_BACKSPACE as int] || input.key_press[KEY_ESCAPE as int] ==> n.back,
            (forall|k: int| 0 <= k < 256 ==> !input.key_press[k]) && !pad.menu_up && !pad.menu_down
                && !pad.menu_left && !pad.menu_right && !pad.menu_confirm && !pad.menu_back ==> !n.up
                && !n.down && !n.left && !n.right && !n.confirm && !n.back,
    {
        let k = &input.key_press;
        Nav {
            up: k[KEY_UP] || k[KEY_W] || pad.menu_up,
            down: k[KEY_DOWN] || k[KEY_S] || pad.menu_down,
            left: k[KEY_LEFT] || k[KEY_A] || pad.menu_left,
            right: k[KEY_RIGHT] || k[KEY_D] || pad.menu_right,
            confirm: k[KEY_ENTER] || k[KEY_SPACE] || k[KEY_E] || pad.menu_confirm,
            back: k[KEY_BACKSPACE] || k[KEY_ESCAPE] || pad.menu_back,
        }
    }
}

/// One of the pad's menu edges.
pub enum PadEdge {
    Up,
    Down,
    Left,
    Right,
    Confirm,
    Back,
}

/// `pad` with the edge `e` set as well.
pub open spec fn with_edge(pad: PadEvents, e: PadEdge) -> PadEvents {
    match e {
        PadEdge::Up => PadEvents { menu_up: true, ..pad },
        PadEdge::Down => PadEvents { menu_down: true, ..pad },
        PadEdge::Left => PadEvents { menu_left: true, ..pad },
        PadEdge::Right => PadEvents { menu_right: true, ..pad },
        PadEdge::Confirm => PadEvents { menu_confirm: true, ..pad },
        PadEdge::Back => PadEvents { menu_back: true, ..pad },
    }
}

/// The key each pad edge stands for: the arrows, Enter and Escape.
pub open spec fn key_of_edge(e: PadEdge) -> usize {
    match e {
        PadEdge::Up => KEY_UP,
        PadEdge::Down => KEY_DOWN,
        PadEdge::Left => KEY_LEFT,
        PadEdge::Right => KEY_RIGHT,
        PadEdge::Confirm => KEY_ENTER,
        PadEdge::Back => KEY_ESCAPE,
    }
}

/// A pad's menu edge does exactly what its key does: a frame with the edge set navigates,
/// and so runs the menu, just as the same frame with the key pressed instead -- the confirm
/// button as Enter, the D-pad as the arrows, the back button as Escape.
pub proof fn lemma_pad_edges_act_as_their_keys(
    with_pad: Input,
    with_key: Input,
    pad: PadEvents,
    e: PadEdge,
    v: MenuState,
    scene_count: nat,
    st: Settings,
)
    requires
        with_key.key_press@ == with_pad.key_press@.update(key_of_edge(e) as int, true),
    ensures
        nav_of(&with_pad, &with_edge(pad, e)) == nav_of(&with_key, &pad),
        update_of(v, nav_of(&with_pad, &with_edge(pad, e)), scene_count, st) == update_of(
            v,
            nav_of(&with_key, &pad),
            scene_count,
            st,
        ),
{
}

/// Options rows, in order. The first three are value rows -- left/right change them in place
/// and confirm is a shortcut for "next value" -- and the last two are ordinary ones.
pub const OPT_MOUSE: usize = 0;
pub const OPT_PAD: usize = 1;
pub const OPT_MUTE: usize = 2;
pub const OPT_CONTROLS: usize = 3;
pub const OPT_BACK: usize = 4;

/// Number of selectable rows on `screen`; the level list has one per scene.
pub open spec fn row_count(screen: Screen, scene_count: nat) -> nat {
    match screen {
        Screen::Title => 4,
        Screen::Pause => 4,
        Screen::Options => 5,
        Screen::Controls => 1,
        Screen::Credits => 1,
        Screen::Levels => scene_count,
    }
}

/// The title screen and its sub-screens, where the world behind the menu is the intro level
/// running as a backdrop; the pause menu and the level list are over a paused game.
pub open spec fn in_title_stack(screen: Screen) -> bool {
    match screen {
        Screen::Title | Screen::Options | Screen::Controls | Screen::Credits => true,
        _ => false,
    }
}

/// The menu's state as the contracts see it.
pub struct MenuState {
    pub open: bool,
    pub screen: Screen,
    pub sel: nat,
    /// The mute row's view of the mute setting.
    pub muted: bool,
    /// Set whenever the credits screen is entered, until the roll's clock is restarted.
    pub credits_opened: bool,
}

/// `v` with screen `s` up and its first row selected.
pub open spec fn goto_state(v: MenuState, s: Screen) -> MenuState {
    MenuState { screen: s, sel: 0, credits_opened: v.credits_opened || s == Screen::Credits, ..v }
}

/// Where an `n`-row list's selection lands after the frame's up and down, starting from `sel`
/// pulled back onto the list; both wrap.
pub open spec fn moved_sel(sel: nat, n: nat, up: bool, down: bool) -> nat
    recommends
        n >= 1,
{
    let s0 = if sel < n {
        sel
    } else {
        (n - 1) as nat
    };
    let s1 = if up {
        ((s0 + n - 1) % (n as int)) as nat
    } else {
        s0
    };
    if down {
        ((s1 + 1) % n) as nat
    } else {
        s1
    }
}

/// Back: nothing on the title, Continue on the pause root; Options and Credits return to the
/// title, Controls to the Options row that opened it, the level list to the pause root.
pub open spec fn back_of(v: MenuState) -> (MenuState, MenuAction) {
    match v.screen {
        Screen::Title => (v, MenuAction::Nothing),
        Screen::Pause => (v, MenuAction::Continue),
        Screen::Options | Screen::Credits => (goto_state(v, Screen::Title), MenuAction::Nothing),
        Screen::Controls => (
            MenuState { screen: Screen::Options, sel: OPT_CONTROLS as nat, ..v },
            MenuAction::Nothing,
        ),
        Screen::Levels => (goto_state(v, Screen::Pause), MenuAction::Nothing),
    }
}

/// The mute row flipped, and the setting with it.
pub open spec fn toggle_mute_of(v: MenuState, st: Settings) -> (MenuState, MenuAction, Settings) {
    (
        MenuState { muted: !v.muted, ..v },
        MenuAction::ToggleMute,
        Settings { muted: !v.muted, dirty: true, ..st },
    )
}

/// Left/right on the selected row, `delta` notches: a sensitivity moves and saturates, the
/// mute row flips either way. `None` off the value rows, or for no net direction.
pub open spec fn adjust_of(v: MenuState, delta: int, st: Settings) -> Option<
    (MenuState, MenuAction, Settings),
> {
    if v.screen != Screen::Options || delta == 0 {
        None
    } else if v.sel == OPT_MOUSE {
        Some(
            (
                v,
                MenuAction::Nothing,
                Settings { mouse: clamp_level(st.mouse + delta) as i32, dirty: true, ..st },
            ),
        )
    } else if v.sel == OPT_PAD {
        Some(
            (
                v,
                MenuAction::Nothing,
                Settings { pad: clamp_level(st.pad + delta) as i32, dirty: true, ..st },
            ),
        )
    } else if v.sel == OPT_MUTE {
        Some(toggle_mute_of(v, st))
    } else {
        None
    }
}

/// Confirm on the selected row.
pub open spec fn confirm_of(v: MenuState, scene_count: nat, st: Settings) -> (
    MenuState,
    MenuAction,
    Settings,
) {
    match v.screen {
        Screen::Title => if v.sel == 0 {
            (v, MenuAction::NewGame, st)
        } else if v.sel == 1 {
            (goto_state(v, Screen::Options), MenuAction::Nothing, st)
        } else if v.sel == 2 {
            (goto_state(v, Screen::Credits), MenuAction::Nothing, st)
        } else {
            (v, MenuAction::Quit, st)
        },
        Screen::Pause => if v.sel == 0 {
            (v, MenuAction::Continue, st)
        } else if v.sel == 1 {
            (v, MenuAction::RestartLevel, st)
        } else if v.sel == 2 {
            (
                if scene_count > 0 {
                    goto_state(v, Screen::Levels)
                } else {
                    v
                },
                MenuAction::Nothing,
                st,
            )
        } else {
            (v, MenuAction::MainMenu, st)
        },
        Screen::Options => if v.sel == OPT_MOUSE || v.sel == OPT_PAD {
            let a = adjust_of(v, 1, st)->0;
            (a.0, MenuAction::Nothing, a.2)
        } else if v.sel == OPT_MUTE {
            toggle_mute_of(v, st)
        } else if v.sel == OPT_CONTROLS {
            (goto_state(v, Screen::Controls), MenuAction::Nothing, st)
        } else {
            let b = back_of(v);
            (b.0, b.1, st)
        },
        Screen::Controls | Screen::Credits => {
            let b = back_of(v);
            (b.0, b.1, st)
        },
        Screen::Levels => if v.sel < scene_count {
            (v, MenuAction::SwitchLevel(v.sel as usize), st)
        } else {
            (v, MenuAction::Nothing, st)
        },
    }
}

/// The number of rows navigation wraps over: the row count, or one for an empty list.
pub open spec fn nav_rows(v: MenuState, scene_count: nat) -> nat {
    if row_count(v.screen, scene_count) == 0 {
        1
    } else {
        row_count(v.screen, scene_count)
    }
}

/// The selection move of a frame: up/down wrap over the screen's rows.
pub open spec fn moved_of(v: MenuState, nav: Nav, scene_count: nat) -> MenuState {
    MenuState { sel: moved_sel(v.sel, nav_rows(v, scene_count), nav.up, nav.down), ..v }
}

/// The tick a frame's up/down makes, when there is anywhere to go.
pub open spec fn tick_of(v: MenuState, nav: Nav, scene_count: nat) -> Seq<Sfx> {
    if (nav.up || nav.down) && nav_rows(v, scene_count) > 1 {
        seq![Sfx::UiMove]
    } else {
        seq![]
    }
}

/// Left and right together, as notches: +1, -1 or nothing.
pub open spec fn delta_of(nav: Nav) -> int {
    (if nav.right {
        1int
    } else {
        0
    }) - (if nav.left {
        1int
    } else {
        0
    })
}

/// What the frame does once the selection has moved: the first of left/right on a value row,
/// back, and confirm that applies, with its sound after the tick.
pub open spec fn act_of(m: MenuState, nav: Nav, scene_count: nat, st: Settings, tick: Seq<Sfx>) -> (
    MenuState,
    MenuAction,
    Settings,
    Seq<Sfx>,
) {
    if (nav.left || nav.right) && adjust_of(m, delta_of(nav), st) is Some {
        let a = adjust_of(m, delta_of(nav), st)->0;
        (a.0, a.1, a.2, tick.push(Sfx::UiMove))
    } else if nav.back {
        let b = back_of(m);
        (b.0, b.1, st, tick.push(Sfx::UiBack))
    } else if nav.confirm {
        let c = confirm_of(m, scene_count, st);
        (c.0, c.1, c.2, tick.push(Sfx::UiConfirm))
    } else {
        (m, MenuAction::Nothing, st, tick)
    }
}

/// One frame of the menu: the state after it, what the engine should do, the settings after
/// it and the sounds it asks for. A closed menu ignores its input.
pub open spec fn update_of(v: MenuState, nav: Nav, scene_count: nat, st: Settings) -> (
    MenuState,
    MenuAction,
    Settings,
    Seq<Sfx>,
) {
    if !v.open {
        (v, MenuAction::Nothing, st, seq![])
    } else {
        act_of(moved_of(v, nav, scene_count), nav, scene_count, st, tick_of(v, nav, scene_count))
    }
}

pub struct Menu {
    open: bool,
    screen: Screen,
    sel: usize,
    /// Local view of the mute setting, flipped whenever `ToggleMute` fires.
    muted: bool,
    /// The credits screen was entered and its roll has not been restarted since.
    credits_opened: bool,
}

impl View for Menu {
    type V = MenuState;

    closed spec fn view(&self) -> MenuState {
        MenuState {
            open: self.open,
            screen: self.screen,
            sel: self.sel as nat,
            muted: self.muted,
            credits_opened: self.credits_opened,
        }
    }
}

impl Menu {
    /// The selection fits in a `usize` with room to wrap.
    pub closed spec fn wf(&self) -> bool {
        self.sel < usize::MAX
    }

    /// Open on the title screen -- the game opens to the menu -- with the mute row mirroring
    /// the saved setting.
    pub fn new(st: &Settings) -> (m: Menu)
        ensures
            m.wf(),
            m@ == (MenuState {
                open: true,
                screen: Screen::Title,
                sel: 0,
                muted: st.muted,
                credits_opened: false,
            }),
    {
        Menu {
            open: true,
            screen: Screen::Title,
            sel: 0,
            muted: settings::muted(st),
            credits_opened: false,
        }
    }

    pub fn is_open(&self) -> (r: bool)
        ensures
            r == self@.open,
    {
        self.open
    }

    /// True on the title screen and its sub-screens.
    pub fn is_title(&self) -> (r: bool)
        ensures
            r == in_title_stack(self@.screen),
    {
        match self.screen {
            Screen::Title | Screen::Options | Screen::Controls | Screen::Credits => true,
            _ => false,
        }
    }

    /// The screen that is up.
    pub fn screen(&self) -> (r: Screen)
        ensures
            r == self@.screen,
    {
        self.screen
    }

    /// The selected row.
    pub fn selected(&self) -> (r: usize)
        ensures
            r == self@.sel,
    {
        self.sel
    }

    /// What the mute row shows.
    pub fn muted(&self) -> (r: bool)
        ensures
            r == self@.muted,
    {
        self.muted
    }

    /// Whether the credits screen was entered since the last call, so the roll's clock can
    /// restart from the bottom; the flag is cleared.
    pub fn take_credits_opened(&mut self) -> (r: bool)
        requires
            old(self).wf(),
        ensures
            final(self).wf(),
            r == old(self)@.credits_opened,
            final(self)@ == (MenuState { credits_opened: false, ..old(self)@ }),
    {
        let r = self.credits_opened;
        self.credits_opened = false;
        r
    }

    /// Open the pause menu, on its first row.
    pub fn open_pause(&mut self)
        requires
            old(self).wf(),
        ensures
            final(self).wf(),
            final(self)@ == goto_state(MenuState { open: true, ..old(self)@ }, Screen::Pause),
    {
        self.open = true;
        self.goto(Screen::Pause);
    }

    pub fn close(&mut self)
        requires
            old(self).wf(),
        ensures
            final(self).wf(),
            final(self)@ == (MenuState { open: false, ..old(self)@ }),
    {
        self.open = false;
    }

    fn goto(&mut self, s: Screen)
        ensures
            final(self).wf(),
            final(self)@ == goto_state(old(self)@, s),
    {
        self.screen = s;
        self.sel = 0;
        if s == Screen::Credits {
            self.credits_opened = true;
        }
    }

    /// Number of selectable rows on the current screen.
    fn row_count(&self, scene_count: usize) -> (r: usize)
        ensures
            r == row_count(self@.screen, scene_count as nat),
    {
        match self.screen {
            Screen::Title => 4,
            Screen::Pause => 4,
            Screen::Options => 5,
            Screen::Controls => 1,
            Screen::Credits => 1,
            Screen::Levels => scene_count,
        }
    }

    /// Advance the state machine with this frame's edges. Returns what the engine should do;
    /// the sounds the frame makes are appended to `sounds`, and the value rows change
    /// `settings`.
    pub fn update(
        &mut self,
        input: &Input,
        pad: &PadEvents,
        scene_count: usize,
        st: &mut Settings,
        sounds: &mut Vec<Sfx>,
    ) -> (r: MenuAction)
        requires
            old(self).wf(),
            old(st).wf(),
        ensures
            final(self).wf(),
            final(st).wf(),
            ({
                let u = update_of(old(self)@, nav_of(input, pad), scene_count as nat, *old(st));
                &&& final(self)@ == u.0
                &&& r == u.1
                &&& *final(st) == u.2
                &&& final(sounds)@ == old(sounds)@ + u.3
            }),
    {
        if !self.open {
            assert(old(sounds)@ + seq![] =~= old(sounds)@);
            return MenuAction::Nothing;
        }
        let nav = Nav::read(input, pad);
        let ghost start = self@;
        let moved = self.move_selection(nav, scene_count);
        if moved {
            sounds.push(Sfx::UiMove);
        }
        assert(sounds@ == old(sounds)@ + tick_of(start, nav, scene_count as nat));
        self.act(nav, scene_count, st, sounds)
    }

    /// Move the selection by the frame's up/down, wrapping; whether there was anywhere to go.
    fn move_selection(&mut self, nav: Nav, scene_count: usize) -> (r: bool)
        requires
            old(self).wf(),
        ensures
            final(self).wf(),
            final(self)@ == moved_of(old(self)@, nav, scene_count as nat),
            r == ((nav.up || nav.down) && nav_rows(old(self)@, scene_count as nat) > 1),
    {
        let rc = self.row_count(scene_count);
        let n = if rc == 0 {
            1
        } else {
            rc
        };
        if self.sel > n - 1 {
            self.sel = n - 1;
        }
        proof {
            let s0 = self.sel as int;
            let ni = n as int;
            if s0 == 0 {
                vstd::arithmetic::div_mod::lemma_small_mod((ni - 1) as nat, ni as nat);
            } else {
                vstd::arithmetic::div_mod::lemma_mod_add_multiples_vanish(s0 - 1, ni);
                vstd::arithmetic::div_mod::lemma_small_mod((s0 - 1) as nat, ni as nat);
            }
            assert(((s0 + ni - 1) % ni) == if s0 == 0 {
                ni - 1
            } else {
                s0 - 1
            });
        }
        let ghost s1: int = if nav.up {
            if self.sel == 0 {
                n - 1
            } else {
                self.sel - 1
            }
        } else {
            self.sel as int
        };
        proof {
            let ni = n as int;
            if s1 + 1 == ni {
                vstd::arithmetic::div_mod::lemma_mod_self_0(ni);
            } else {
                vstd::arithmetic::div_mod::lemma_small_mod((s1 + 1) as nat, ni as nat);
            }
        }
        if nav.up {
            self.sel = if self.sel == 0 {
                n - 1
            } else {
                self.sel - 1
            };
        }
        if nav.down {
            self.sel = if self.sel + 1 == n {
                0
            } else {
                self.sel + 1
            };
        }
        (nav.up || nav.down) && n > 1
    }

    /// The frame's action once the selection has moved.
    fn act(&mut self, nav: Nav, scene_count: usize, st: &mut Settings, sounds: &mut Vec<Sfx>) -> (r:
        MenuAction)
        requires
            old(self).wf(),
            old(st).wf(),
        ensures
            final(self).wf(),
            final(st).wf(),
            ({
                let u = act_of(old(self)@, nav, scene_count as nat, *old(st), old(sounds)@);
                &&& final(self)@ == u.0
                &&& r == u.1
                &&& *final(st) == u.2
                &&& final(sounds)@ == u.3
            }),
    {
        if nav.left || nav.right {
            let delta: i32 = (if nav.right {
                1
            } else {
                0
            }) - (if nav.left {
                1
            } else {
                0
            });
            if let Some(action) = self.adjust(delta, st) {
                sounds.push(Sfx::UiMove);
                return action;
            }
        }
        if nav.back {
            sounds.push(Sfx::UiBack);
            return self.back();
        }
        if nav.confirm {
            sounds.push(Sfx::UiConfirm);
            return self.confirm(scene_count, st);
        }
        MenuAction::Nothing
    }

    /// Change the value row under the selection by `delta` notches. `None`, and nothing
    /// changed, if this row has no value to change.
    fn adjust(&mut self, delta: i32, st: &mut Settings) -> (r: Option<MenuAction>)
        requires
            old(self).wf(),
            old(st).wf(),
            -1 <= delta <= 1,
        ensures
            final(self).wf(),
            final(st).wf(),
            match adjust_of(old(self)@, delta as int, *old(st)) {
                Some(a) => r == Some(a.1) && final(self)@ == a.0 && *final(st) == a.2,
                None => r is None && final(self)@ == old(self)@ && *final(st) == *old(st),
            },
    {
        if self.screen != Screen::Options || delta == 0 {
            return None;
        }
        if self.sel == OPT_MOUSE {
            settings::adjust_mouse(st, delta);
            Some(MenuAction::Nothing)
        } else if self.sel == OPT_PAD {
            settings::adjust_pad(st, delta);
            Some(MenuAction::Nothing)
        } else if self.sel == OPT_MUTE {
            Some(self.toggle_mute(st))
        } else {
            None
        }
    }

    fn toggle_mute(&mut self, st: &mut Settings) -> (r: MenuAction)
        requires
            old(self).wf(),
        ensures
            final(self).wf(),
            (final(self)@, r, *final(st)) == toggle_mute_of(old(self)@, *old(st)),
    {
        self.muted = !self.muted;
        settings::set_muted(st, self.muted);
        MenuAction::ToggleMute
    }

    fn back(&mut self) -> (r: MenuAction)
        requires
            old(self).wf(),
        ensures
            final(self).wf(),
            (final(self)@, r) == back_of(old(self)@),
    {
        match self.screen {
            Screen::Title => MenuAction::Nothing,
            Screen::Pause => MenuAction::Continue,
            Screen::Options | Screen::Credits => {
                self.goto(Screen::Title);
                MenuAction::Nothing
            },
            Screen::Controls => {
                self.screen = Screen::Options;
                self.sel = OPT_CONTROLS;
                MenuAction::Nothing
            },
            Screen::Levels => {
                self.goto(Screen::Pause);
                MenuAction::Nothing
            },
        }
    }

    fn confirm(&mut self, scene_count: usize, st: &mut Settings) -> (r: MenuAction)
        requires
            old(self).wf(),
            old(st).wf(),
        ensures
            final(self).wf(),
            final(st).wf(),
            (final(self)@, r, *final(st)) == confirm_of(old(self)@, scene_count as nat, *old(st)),
    {
        match self.screen {
            Screen::Title => {
                if self.sel == 0 {
                    MenuAction::NewGame
                } else if self.sel == 1 {
                    self.goto(Screen::Options);
                    MenuAction::Nothing
                } else if self.sel == 2 {
                    self.goto(Screen::Credits);
                    MenuAction::Nothing
                } else {
                    MenuAction::Quit
                }
            },
            Screen::Pause => {
                if self.sel == 0 {
                    MenuAction::Continue
                } else if self.sel == 1 {
                    MenuAction::RestartLevel
                } else if self.sel == 2 {
                    if scene_count > 0 {
                        self.goto(Screen::Levels);
                    }
                    MenuAction::Nothing
                } else {
                    MenuAction::MainMenu
                }
            },
            Screen::Options => {
                if self.sel == OPT_MOUSE || self.sel == OPT_PAD {
                    self.adjust(1, st);
                    MenuAction::Nothing
                } else if self.sel == OPT_MUTE {
                    self.toggle_mute(st)
                } else if self.sel == OPT_CONTROLS {
                    self.goto(Screen::Controls);
                    MenuAction::Nothing
                } else {
                    self.back()
                }
            },
            Screen::Controls | Screen::Credits => self.back(),
            Screen::Levels => {
                if self.sel < scene_count {
                    MenuAction::SwitchLevel(self.sel)
                } else {
                    MenuAction::Nothing
                }
            },
        }
    }
}

/// First visible row of a `window`-row view over `n` rows, keeping `sel` roughly centred and
/// never scrolling past either end.
pub open spec fn window_start(sel: nat, n: nat, window: nat) -> nat {
    if n <= window {
        0
    } else if sel >= window / 2 && sel - window / 2 <= n - window {
        (sel - window / 2) as nat
    } else if sel < window / 2 {
        0
    } else {
        (n - window) as nat
    }
}

/// [`window_start`], computed; the selection is always in view and the view always fits.
pub fn level_window_start(sel: usize, n: usize, window: usize) -> (r: usize)
    ensures
        r == window_start(sel as nat, n as nat, window as nat),
        window >= 1 && sel < n ==> r <= sel && sel < r + window,
        n > window ==> r + window <= n,
{
    if n <= window {
        return 0;
    }
    let half = window / 2;
    let lo = if sel >= half {
        sel - half
    } else {
        0
    };
    if lo < n - window {
        lo
    } else {
        n - window
    }
}

/// The menu never crosses between its two stacks on its own: a frame on the title screen or
/// its sub-screens stays among them, and a frame on the pause menu or the level list stays
/// there -- only opening the pause menu moves from one to the other.
pub proof fn lemma_update_keeps_its_stack(v: MenuState, nav: Nav, scene_count: nat, st: Settings)
    ensures
        in_title_stack(update_of(v, nav, scene_count, st).0.screen) == in_title_stack(v.screen),
{
}

/// After any frame of an open menu, the selection is a row of the screen that is up.
pub proof fn lemma_update_selects_a_row(v: MenuState, nav: Nav, scene_count: nat, st: Settings)
    requires
        v.open,
    ensures
        update_of(v, nav, scene_count, st).0.sel < nav_rows(
            update_of(v, nav, scene_count, st).0,
            scene_count,
        ),
{
    let n = nav_rows(v, scene_count);
    let m = moved_of(v, nav, scene_count);
    let s0 = if v.sel < n {
        v.sel
    } else {
        (n - 1) as nat
    };
    let s1 = if nav.up {
        ((s0 + n - 1) % (n as int)) as nat
    } else {
        s0
    };
    assert(s1 < n);
    assert(m.sel < n);
}

/// A closed menu ignores its input: nothing changes, nothing sounds, nothing is asked of the
/// engine.
pub proof fn lemma_closed_menu_ignores_input(v: MenuState, nav: Nav, scene_count: nat, st: Settings)
    requires
        !v.open,
    ensures
        update_of(v, nav, scene_count, st) == (v, MenuAction::Nothing, st, Seq::<Sfx>::empty()),
{
}

/// Left and right change nothing but the value rows of the options screen: anywhere else a
/// frame of them alone leaves the screen, the selection and the settings as they were.
pub proof fn lemma_left_right_only_touch_value_rows(v: MenuState, nav: Nav, scene_count: nat, st: Settings)
    requires
        v.open,
        !nav.up && !nav.down && !nav.back && !nav.confirm,
        !(v.screen == Screen::Options && v.sel <= OPT_MUTE),
        v.sel < nav_rows(v, scene_count),
    ensures
        update_of(v, nav, scene_count, st).0 == v,
        update_of(v, nav, scene_count, st).1 == MenuAction::Nothing,
        update_of(v, nav, scene_count, st).2 == st,
{
}

/// A frame with no edges at all.
pub open spec fn still() -> Nav {
    Nav { up: false, down: false, left: false, right: false, confirm: false, back: false }
}

/// Down then up comes back to the row it started on, with nothing asked of the engine and
/// the settings untouched; both wrap, so the last row's down is the first row and the first
/// row's up is the last.
pub proof fn lemma_down_then_up_returns(v: MenuState, scene_count: nat, st: Settings)
    requires
        v.open,
        v.sel < nav_rows(v, scene_count),
    ensures
        ({
            let d = update_of(v, Nav { down: true, ..still() }, scene_count, st);
            let u = update_of(d.0, Nav { up: true, ..still() }, scene_count, d.2);
            &&& d.1 == MenuAction::Nothing && u.1 == MenuAction::Nothing
            &&& u.0 == v && u.2 == st
            &&& d.0.sel == if v.sel + 1 == nav_rows(v, scene_count) {
                0
            } else {
                v.sel + 1
            }
        }),
        v.sel == 0 ==> update_of(v, Nav { up: true, ..still() }, scene_count, st).0.sel == nav_rows(
            v,
            scene_count,
        ) - 1,
{
    let n = nav_rows(v, scene_count);
    let d = update_of(v, Nav { down: true, ..still() }, scene_count, st);
    assert(d.0.sel == (v.sel + 1) % n);
    if v.sel + 1 == n {
        vstd::arithmetic::div_mod::lemma_mod_self_0(n as int);
    } else {
        vstd::arithmetic::div_mod::lemma_small_mod((v.sel + 1) as nat, n);
    }
    let ds = d.0.sel;
    assert(nav_rows(d.0, scene_count) == n);
    assert(ds < n);
    if ds == 0 {
        vstd::arithmetic::div_mod::lemma_small_mod((n - 1) as nat, n);
    } else {
        vstd::arithmetic::div_mod::lemma_mod_add_multiples_vanish(ds - 1, n as int);
        vstd::arithmetic::div_mod::lemma_small_mod((ds - 1) as nat, n);
    }
    if v.sel == 0 {
        vstd::arithmetic::div_mod::lemma_small_mod((n - 1) as nat, n);
    }
}

/// On a value row of the options screen, confirm is a shortcut for "next value": it does
/// exactly what Right does -- a sensitivity one notch up, saturating at the top, the mute
/// row flipped -- and only the sound differs.
pub proof fn lemma_confirm_on_a_value_row_is_right(v: MenuState, scene_count: nat, st: Settings)
    requires
        v.open,
        v.screen == Screen::Options,
        v.sel <= OPT_MUTE,
        st.wf(),
    ensures
        ({
            let c = update_of(v, Nav { confirm: true, ..still() }, scene_count, st);
            let r = update_of(v, Nav { right: true, ..still() }, scene_count, st);
            &&& c.0 == r.0 && c.1 == r.1 && c.2 == r.2
            &&& c.3 == seq![Sfx::UiConfirm] && r.3 == seq![Sfx::UiMove]
            &&& v.sel == OPT_MOUSE ==> c.2.mouse == if st.mouse < LEVELS {
                st.mouse + 1
            } else {
                LEVELS as int
            }
            &&& v.sel == OPT_PAD ==> c.2.pad == if st.pad < LEVELS {
                st.pad + 1
            } else {
                LEVELS as int
            }
            &&& v.sel == OPT_MUTE ==> c.2.muted == !v.muted && c.0.muted == !v.muted
        }),
{
    vstd::arithmetic::div_mod::lemma_small_mod(v.sel, 5);
}

/// The controls screen comes back to where it was opened from: confirm on the options
/// screen's CONTROLS row, then Back, is the options screen on that row again.
pub proof fn lemma_controls_returns_to_its_row(v: MenuState, scene_count: nat, st: Settings)
    requires
        v.open,
        v.screen == Screen::Options,
        v.sel == OPT_CONTROLS,
    ensures
        ({
            let c = update_of(v, Nav { confirm: true, ..still() }, scene_count, st);
            let b = update_of(c.0, Nav { back: true, ..still() }, scene_count, c.2);
            &&& c.0.screen == Screen::Controls
            &&& b.0 == v && b.2 == st
            &&& c.1 == MenuAction::Nothing && b.1 == MenuAction::Nothing
        }),
{
    vstd::arithmetic::div_mod::lemma_small_mod(v.sel, 5);
    vstd::arithmetic::div_mod::lemma_small_mod(0, 1);
}

/// On the pause menu Back means Continue, as its CONTINUE row does, and neither moves the
/// menu; on the title screen Back does nothing at all.
pub proof fn lemma_back_on_the_roots(v: MenuState, scene_count: nat, st: Settings)
    requires
        v.open,
        v.sel < nav_rows(v, scene_count),
    ensures
        v.screen == Screen::Pause ==> update_of(v, Nav { back: true, ..still() }, scene_count, st)
            == (v, MenuAction::Continue, st, seq![Sfx::UiBack]),
        v.screen == Screen::Pause && v.sel == 0 ==> update_of(
            v,
            Nav { confirm: true, ..still() },
            scene_count,
            st,
        ) == (v, MenuAction::Continue, st, seq![Sfx::UiConfirm]),
        v.screen == Screen::Title ==> update_of(v, Nav { back: true, ..still() }, scene_count, st)
            == (v, MenuAction::Nothing, st, seq![Sfx::UiBack]),
{
    assert(seq![].push(Sfx::UiBack) =~= seq![Sfx::UiBack]);
    assert(seq![].push(Sfx::UiConfirm) =~= seq![Sfx::UiConfirm]);
}

/// The rows of the title screen.
pub open spec fn title_table() -> Seq<&'static str> {
    seq!["NEW GAME", "OPTIONS", "CREDITS", "EXIT"]
}

/// The rows of the pause menu.
pub open spec fn pause_table() -> Seq<&'static str> {
    seq!["CONTINUE", "RESTART LEVEL", "SWITCH LEVEL", "MAIN MENU"]
}

/// The rows of the options screen, in [`OPT_MOUSE`] .. [`OPT_BACK`] order.
pub open spec fn options_table() -> Seq<&'static str> {
    seq!["MOUSE SENSITIVITY", "GAMEPAD SENSITIVITY", "MUTE AUDIO", "CONTROLS", "BACK"]
}

/// [`title_table`], built.
pub fn title_rows() -> (v: Vec<&'static str>)
    ensures
        v@ == title_table(),
{
    let v = vec!["NEW GAME", "OPTIONS", "CREDITS", "EXIT"];
    assert(v@ =~= title_table());
    v
}

/// [`pause_table`], built.
pub fn pause_rows() -> (v: Vec<&'static str>)
    ensures
        v@ == pause_table(),
{
    let v = vec!["CONTINUE", "RESTART LEVEL", "SWITCH LEVEL", "MAIN MENU"];
    assert(v@ =~= pause_table());
    v
}

/// [`options_table`], built.
pub fn options_labels() -> (v: Vec<&'static str>)
    ensures
        v@ == options_table(),
{
    let v = vec!["MOUSE SENSITIVITY", "GAMEPAD SENSITIVITY", "MUTE AUDIO", "CONTROLS", "BACK"];
    assert(v@ =~= options_table());
    v
}

/// The key map, as (action, keyboard, gamepad).
pub open spec fn keymap_table() -> Seq<(&'static str, &'static str, &'static str)> {
    seq![
        ("MOVE", "W A S D", "LEFT STICK"),
        ("SPRINT", "HOLD SHIFT", "L3 (STICK CLICK) TOGGLES"),
        ("JUMP", "SPACE", "CROSS"),
        ("LOOK", "MOUSE", "RIGHT STICK"),
        ("GRAB / RELEASE", "E", "SQUARE / R2"),
        ("ROTATE HELD", "HOLD R + MOUSE", "HOLD R1 + RIGHT STICK"),
        ("STOW / TAKE OUT", "F", "-"),
        ("PUT DOWN", "G", "-"),
        ("PICK SLOT", "1 - 6 / MOUSE WHEEL", "-"),
        ("PAUSE MENU", "ESC", "OPTIONS"),
        ("MENU: MOVE", "ARROWS / W A S D", "D-PAD"),
        ("MENU: CONFIRM", "ENTER / SPACE", "CROSS"),
        ("MUTE", "M", "CREATE"),
        ("FULLSCREEN", "ALT + ENTER", "PS BUTTON"),
    ]
}

/// [`keymap_table`], built; as many rows as the layout makes room for.
pub fn keymap() -> (v: Vec<(&'static str, &'static str, &'static str)>)
    ensures
        v@ == keymap_table(),
        v.len() == KEYMAP_ROWS,
{
    let mut v = Vec::new();
    v.push(("MOVE", "W A S D", "LEFT STICK"));
    v.push(("SPRINT", "HOLD SHIFT", "L3 (STICK CLICK) TOGGLES"));
    v.push(("JUMP", "SPACE", "CROSS"));
    v.push(("LOOK", "MOUSE", "RIGHT STICK"));
    v.push(("GRAB / RELEASE", "E", "SQUARE / R2"));
    v.push(("ROTATE HELD", "HOLD R + MOUSE", "HOLD R1 + RIGHT STICK"));
    v.push(("STOW / TAKE OUT", "F", "-"));
    v.push(("PUT DOWN", "G", "-"));
    v.push(("PICK SLOT", "1 - 6 / MOUSE WHEEL", "-"));
    v.push(("PAUSE MENU", "ESC", "OPTIONS"));
    v.push(("MENU: MOVE", "ARROWS / W A S D", "D-PAD"));
    v.push(("MENU: CONFIRM", "ENTER / SPACE", "CROSS"));
    v.push(("MUTE", "M", "CREATE"));
    v.push(("FULLSCREEN", "ALT + ENTER", "PS BUTTON"));
    assert(v@ =~= keymap_table());
    v
}

/// One line of the credits roll.
#[derive(Clone, Copy, PartialEq, Eq, Debug)]
pub enum Roll {
    /// A section rule.
    Head(&'static str),
    /// A credit.
    Line(&'static str),
    /// The small print under one.
    Note(&'static str),
    /// Air.
    Gap,
}

impl Roll {
    /// The line's words; a gap has none.
    pub open spec fn words(self) -> &'static str {
        match self {
            Roll::Head(t) | Roll::Line(t) | Roll::Note(t) => t,
            Roll::Gap => "",
        }
    }

    pub fn text(self) -> (r: &'static str)
        ensures
            r == self.words(),
    {
        match self {
            Roll::Head(t) | Roll::Line(t) | Roll::Note(t) => t,
            Roll::Gap => "",
        }
    }
}

/// The credits, in the order they roll.
pub open spec fn roll_table() -> Seq<Roll> {
    seq![
        Roll::Head("THE ENGINE"),
        Roll::Line("NONEUCLIDEAN, BY CODEPARADE"),
        Roll::Note("MIT. THE PORTAL RENDERER AND THE FIRST SEVEN SCENES"),
        Roll::Gap,
        Roll::Head("MODELS"),
        Roll::Line("BACKROOMS VR - CARLCAPU9"),
        Roll::Line("POOL ROOMS AND THE OVERGROWN ROOM - BLENDERUST"),
        Roll::Line("ELEVATOR - EFX"),
        Roll::Line("ABANDONED HOUSE - ELBOLILLO"),
        Roll::Line("VILLAGE INTERIOR OBJECTS - ELBOLILLO"),
        Roll::Line("MOON - LUCKASS333"),
        Roll::Line("DOORS - ICEVANILLA"),
        Roll::Line("ESCHER RELATIVITY - BENOIT GAGNIER"),
        Roll::Note("EVERY ONE OF THEM CC-BY-4.0"),
        Roll::Line("MANNEQUIN AND ANIMATION - ADOBE MIXAMO"),
        Roll::Line("EXPLORATION TOOLS - ELBOLILLO"),
        Roll::Gap,
        Roll::Head("TYPE"),
        Roll::Line("PLAYPEN SANS - TYPETOGETHER"),
        Roll::Line("HENNY PENNY - BROWNFOX"),
        Roll::Note("BOTH SIL OPEN FONT LICENSE 1.1"),
        Roll::Gap,
        Roll::Head("SOUND"),
        Roll::Line("EVERY EFFECT AND EVERY LOOP IS SYNTHESISED"),
        Roll::Note("NO SAMPLES, NO RECORDINGS, NO LIBRARIES OF EITHER"),
        Roll::Gap,
        Roll::Head("BUILT WITH"),
        Roll::Line("RUST, GLOW, GLUTIN AND WINIT"),
        Roll::Line("RAPIER, KIRA, GILRS, CLAP, IMAGE, GLTF"),
        Roll::Note("THIRD_PARTY.MD CARRIES EVERY CRATE AND ITS LICENCE"),
        Roll::Gap,
        Roll::Head("AND"),
        Roll::Line("A PORTAL RENDERER, A MEADOW AND A DOOR"),
        Roll::Line("SUPERLIMINAL-STYLE GRABBING, AND ROOMS THAT DO NOT ADD UP"),
        Roll::Gap,
        Roll::Gap,
        Roll::Line("THANK YOU FOR PLAYING"),
    ]
}

/// [`roll_table`], built.
pub fn roll() -> (v: Vec<Roll>)
    ensures
        v@ == roll_table(),
{
    let mut v: Vec<Roll> = Vec::new();
    v.push(Roll::Head("THE ENGINE"));
    v.push(Roll::Line("NONEUCLIDEAN, BY CODEPARADE"));
    v.push(Roll::Note("MIT. THE PORTAL RENDERER AND THE FIRST SEVEN SCENES"));
    v.push(Roll::Gap);
    v.push(Roll::Head("MODELS"));
    v.push(Roll::Line("BACKROOMS VR - CARLCAPU9"));
    v.push(Roll::Line("POOL ROOMS AND THE OVERGROWN ROOM - BLENDERUST"));
    v.push(Roll::Line("ELEVATOR - EFX"));
    v.push(Roll::Line("ABANDONED HOUSE - ELBOLILLO"));
    v.push(Roll::Line("VILLAGE INTERIOR OBJECTS - ELBOLILLO"));
    v.push(Roll::Line("MOON - LUCKASS333"));
    v.push(Roll::Line("DOORS - ICEVANILLA"));
    v.push(Roll::Line("ESCHER RELATIVITY - BENOIT GAGNIER"));
    v.push(Roll::Note("EVERY ONE OF THEM CC-BY-4.0"));
    v.push(Roll::Line("MANNEQUIN AND ANIMATION - ADOBE MIXAMO"));
    v.push(Roll::Line("EXPLORATION TOOLS - ELBOLILLO"));
    v.push(Roll::Gap);
    v.push(Roll::Head("TYPE"));
    v.push(Roll::Line("PLAYPEN SANS - TYPETOGETHER"));
    v.push(Roll::Line("HENNY PENNY - BROWNFOX"));
    v.push(Roll::Note("BOTH SIL OPEN FONT LICENSE 1.1"));
    v.push(Roll::Gap);
    v.push(Roll::Head("SOUND"));
    v.push(Roll::Line("EVERY EFFECT AND EVERY LOOP IS SYNTHESISED"));
    v.push(Roll::Note("NO SAMPLES, NO RECORDINGS, NO LIBRARIES OF EITHER"));
    v.push(Roll::Gap);
    v.push(Roll::Head("BUILT WITH"));
    v.push(Roll::Line("RUST, GLOW, GLUTIN AND WINIT"));
    v.push(Roll::Line("RAPIER, KIRA, GILRS, CLAP, IMAGE, GLTF"));
    v.push(Roll::Note("THIRD_PARTY.MD CARRIES EVERY CRATE AND ITS LICENCE"));
    v.push(Roll::Gap);
    v.push(Roll::Head("AND"));
    v.push(Roll::Line("A PORTAL RENDERER, A MEADOW AND A DOOR"));
    v.push(Roll::Line("SUPERLIMINAL-STYLE GRABBING, AND ROOMS THAT DO NOT ADD UP"));
    v.push(Roll::Gap);
    v.push(Roll::Gap);
    v.push(Roll::Line("THANK YOU FOR PLAYING"));
    assert(v@ =~= roll_table());
    v
}

} // verus!
