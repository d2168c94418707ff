//! Rotating the held object: while an object is held and a rotate modifier is down, the look
//! input drives the object instead of the camera.

use vstd::prelude::*;
use crate::input::Input;

verus! {

/// The R key's virtual-key slot.
pub const KEY_R: usize = 82;

/// Whether the last frame diverted the look input to the held object.
pub struct Rotate {
    /// True for frames in which look input was diverted to the held object.
    pub active: bool,
}

/// Whether any rotate modifier is held: the right mouse button, R, or the pad's R1.
pub open spec fn modifier_held(input: &Input) -> bool {
    input.mouse_button[2] || input.key[KEY_R as int] || input.pad_rotate_mod
}

impl Rotate {
    /// Not rotating.
    pub fn new() -> (r: Rotate)
        ensures
            !r.active,
    {
        Rotate { active: false }
    }

    /// Whether any rotate modifier is currently held.
    pub fn modifier_down(input: &Input) -> (r: bool)
        ensures
            r == modifier_held(input),
            input.mouse_button[2] ==> r,
            input.key[KEY_R as int] ==> r,
            input.pad_rotate_mod ==> r,
            !input.mouse_button[2] && !input.key[KEY_R as int] && !input.pad_rotate_mod ==> !r,
    {
        input.mouse_button[2] || input.key[KEY_R] || input.pad_rotate_mod
    }

    /// Decide, once at the top of a rendered frame, whether this frame's look input goes to
    /// the held object: exactly when something is `holding` and a modifier is down.
    pub fn engage(&mut self, input: &Input, holding: bool) -> (r: bool)
        ensures
            r == (holding && modifier_held(input)),
            final(self).active == r,
    {
        let on = holding && Self::modifier_down(input);
        self.active = on;
        on
    }
}

} // verus!
