//! Running: whether the player is sprinting this frame. Shift is a hold; the pad's stick click
//! is a toggle, which stopping cancels and a Shift press drops; and a run is only ever in the
//! direction the player faces. How far the stick is pushed, and the eased speed and view that
//! follow the run, are measurements and the renderer's; the decision is here.

use vstd::prelude::*;
use crate::input::Input;
use crate::menu::{KEY_A, KEY_D, KEY_S, KEY_W};

verus! {

/// The virtual-key slot both Shift keys map into.
pub const KEY_SPRINT: usize = 16;

/// The keyboard's share of the movement vector: forward and leftward, each -1, 0 or 1.
pub open spec fn keyboard_motion_of(input: &Input) -> (int, int) {
    let k = input.key;
    (
        (if k[KEY_W as int] {
            1int
        } else {
            0
        }) - (if k[KEY_S as int] {
            1int
        } else {
            0
        }),
        (if k[KEY_A as int] {
            1int
        } else {
            0
        }) - (if k[KEY_D as int] {
            1int
        } else {
            0
        }),
    )
}

/// [`keyboard_motion_of`], computed: the stick's share is added to it by whoever reads the pad.
pub fn keyboard_motion(input: &Input) -> (r: (i32, i32))
    ensures
        r.0 == keyboard_motion_of(input).0,
        r.1 == keyboard_motion_of(input).1,
        input.key[KEY_W as int] && !input.key[KEY_S as int] ==> r.0 == 1,
        input.key[KEY_S as int] && !input.key[KEY_W as int] ==> r.0 == -1,
        input.key[KEY_W as int] == input.key[KEY_S as int] ==> r.0 == 0,
        input.key[KEY_A as int] && !input.key[KEY_D as int] ==> r.1 == 1,
        input.key[KEY_D as int] && !input.key[KEY_A as int] ==> r.1 == -1,
        input.key[KEY_A as int] == input.key[KEY_D as int] ==> r.1 == 0,
{
    let f: i32 = (if input.key[KEY_W] {
        1
    } else {
        0
    }) - (if input.key[KEY_S] {
        1
    } else {
        0
    });
    let l: i32 = (if input.key[KEY_A] {
        1
    } else {
        0
    }) - (if input.key[KEY_D] {
        1
    } else {
        0
    });
    (f, l)
}

/// The sprint state: the pad toggle, and the level the last frame settled on.
#[derive(Clone, Copy, PartialEq, Eq, Debug, Structural)]
pub struct Sprint {
    pub toggled: bool,
    pub running: bool,
}

/// One frame's decision from `s`: `moving` is whether the movement vector is past the stop
/// threshold, `forward` whether it is moving with enough of it pointing ahead, `pad_edge`
/// the stick click's rising edge, `shift_pressed` Shift's rising edge, and `held` whether
/// Shift or the stick click is down.
pub open spec fn sprint_after(
    s: Sprint,
    moving: bool,
    forward: bool,
    pad_edge: bool,
    shift_pressed: bool,
    held: bool,
) -> Sprint {
    let t1 = if !moving {
        false
    } else if pad_edge {
        !s.toggled
    } else {
        s.toggled
    };
    let toggled = t1 && !shift_pressed;
    Sprint { toggled, running: (held || toggled) && forward }
}

impl Sprint {
    /// Walking, nothing toggled.
    pub fn new() -> (s: Sprint)
        ensures
            s == (Sprint { toggled: false, running: false }),
    {
        Sprint { toggled: false, running: false }
    }

    /// Decide this frame (see [`sprint_after`]); returns whether the player runs. `forward`
    /// only counts while moving.
    pub fn resolve(
        &mut self,
        moving: bool,
        forward: bool,
        pad_edge: bool,
        shift_pressed: bool,
        held: bool,
    ) -> (running: bool)
        requires
            forward ==> moving,
        ensures
            *final(self) == sprint_after(*old(self), moving, forward, pad_edge, shift_pressed, held),
            running == final(self).running,
    {
        if !moving {
            self.toggled = false;
        } else if pad_edge {
            self.toggled = !self.toggled;
        }
        if shift_pressed {
            self.toggled = false;
        }
        self.running = (held || self.toggled) && forward;
        self.running
    }
}

/// A run is only ever forward, stopping always ends the toggle, and a Shift press always drops
/// it: whatever the frame's edges, no run without a forward push, no toggle survives a stop or
/// a Shift press, and Shift held while running forward always runs.
pub proof fn lemma_the_run_follows_the_rules(
    s: Sprint,
    moving: bool,
    forward: bool,
    pad_edge: bool,
    shift_pressed: bool,
    held: bool,
)
    requires
        forward ==> moving,
    ensures
        ({
            let n = sprint_after(s, moving, forward, pad_edge, shift_pressed, held);
            &&& n.running ==> forward
            &&& !moving ==> !n.toggled && !n.running
            &&& shift_pressed ==> !n.toggled
            &&& held && forward ==> n.running
            &&& moving && !pad_edge && !shift_pressed ==> n.toggled == s.toggled
        }),
{
}

} // verus!
