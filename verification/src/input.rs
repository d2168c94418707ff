//! The frame's input as the game logic reads it: key levels and edges by virtual-key slot,
//! the mouse buttons, and the gamepad's menu edges.

use vstd::prelude::*;

verus! {

/// Keyboard and mouse state for one frame. `key` is held, `key_press` went down this frame;
/// both are indexed by virtual-key code.
pub struct Input {
    pub key: [bool; 256],
    pub key_press: [bool; 256],
    pub mouse_button: [bool; 3],
    /// The gamepad's rotate modifier (R1), published by the gamepad poll.
    pub pad_rotate_mod: bool,
}

impl Input {
    /// Nothing held, nothing pressed.
    pub fn new() -> (i: Input)
        ensures
            forall|k: int| 0 <= k < 256 ==> !i.key[k] && !i.key_press[k],
            forall|k: int| 0 <= k < 3 ==> !i.mouse_button[k],
            !i.pad_rotate_mod,
    {
        Input { key: [false; 256], key_press: [false; 256], mouse_button: [false; 3], pad_rotate_mod: false }
    }
}

/// The gamepad's menu edges for one frame.
#[derive(Clone, Copy, PartialEq, Eq, Debug)]
pub struct PadEvents {
    pub menu_up: bool,
    pub menu_down: bool,
    pub menu_left: bool,
    pub menu_right: bool,
    pub menu_confirm: bool,
    pub menu_back: bool,
}

impl Default for PadEvents {
    /// No edges.
    fn default() -> (p: PadEvents)
        ensures
            !p.menu_up && !p.menu_down && !p.menu_left && !p.menu_right && !p.menu_confirm
                && !p.menu_back,
    {
        PadEvents {
            menu_up: false,
            menu_down: false,
            menu_left: false,
            menu_right: false,
            menu_confirm: false,
            menu_back: false,
        }
    }
}

} // verus!
