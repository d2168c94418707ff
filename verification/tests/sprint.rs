use daydreams::input::Input;
use daydreams::sprint::{keyboard_motion, Sprint, KEY_SPRINT};

// The measurements the decision is made from, as the player's movement code takes them.
const FORWARD_MIN: f32 = 0.3;
const STOP_EPS: f32 = 0.05;

/// A frame's input: the keys, and the stick and the stick click the pad reports.
struct Frame {
    input: Input,
    pad_move_f: f32,
    pad_move_l: f32,
    pad_sprint: bool,
}

impl Frame {
    fn new() -> Frame {
        Frame { input: Input::new(), pad_move_f: 0.0, pad_move_l: 0.0, pad_sprint: false }
    }

    fn walking() -> Frame {
        let mut f = Frame::new();
        f.input.key[b'W' as usize] = true;
        f
    }
}

/// The frame's level, with the vector built the way the feet build it.
fn level(s: &mut Sprint, f: &Frame, pad_edge: bool) -> bool {
    let (kf, kl) = keyboard_motion(&f.input);
    let move_f = f.pad_move_f + kf as f32;
    let move_l = f.pad_move_l + kl as f32;
    let mag = (move_f * move_f + move_l * move_l).sqrt();
    let moving = mag > STOP_EPS;
    let forward = moving && move_f >= FORWARD_MIN * mag;
    let held = f.input.key[KEY_SPRINT] || f.pad_sprint;
    s.resolve(moving, forward, pad_edge, f.input.key_press[KEY_SPRINT], held)
}

#[test]
fn blank_input_never_sprints() {
    let mut s = Sprint::new();
    assert!(!level(&mut s, &Frame::new(), false));
    assert!(!level(&mut s, &Frame::new(), true));
    assert!(!level(&mut s, &Frame::new(), false));
    let mut f = Frame::new();
    f.input.key[KEY_SPRINT] = true;
    assert!(!level(&mut s, &f, false));
}

#[test]
fn shift_is_a_hold() {
    let mut s = Sprint::new();
    let mut f = Frame::walking();
    f.input.key[KEY_SPRINT] = true;
    f.input.key_press[KEY_SPRINT] = true;
    assert!(level(&mut s, &f, false));
    f.input.key_press[KEY_SPRINT] = false;
    assert!(level(&mut s, &f, false));
    f.input.key[KEY_SPRINT] = false;
    assert!(!level(&mut s, &f, false), "releasing Shift ends the run");
}

#[test]
fn l3_toggles_while_moving() {
    let mut s = Sprint::new();
    let mut f = Frame::new();
    f.pad_move_f = 0.8;
    assert!(!level(&mut s, &f, false));
    assert!(level(&mut s, &f, true), "press: on");
    assert!(level(&mut s, &f, false), "stays on with the button released");
    assert!(!level(&mut s, &f, true), "press again: off");
    assert!(!level(&mut s, &f, false));
}

#[test]
fn l3_held_counts_as_hold() {
    let mut s = Sprint::new();
    let mut f = Frame::new();
    f.pad_move_f = 1.0;
    f.pad_sprint = true;
    assert!(level(&mut s, &f, false));
    f.pad_sprint = false;
    assert!(!level(&mut s, &f, false), "...and release stops, there being no toggle");
    f.pad_move_f = 0.0;
    f.pad_sprint = true;
    assert!(!level(&mut s, &f, true));
}

#[test]
fn stopping_cancels_the_toggle() {
    let mut s = Sprint::new();
    let mut f = Frame::new();
    f.pad_move_f = 1.0;
    assert!(level(&mut s, &f, true));
    f.pad_move_f = 0.0;
    assert!(!level(&mut s, &f, false), "stick centred: run over");
    f.pad_move_f = 1.0;
    assert!(!level(&mut s, &f, false), "pushing again walks; the toggle does not come back");
}

#[test]
fn keyboard_movement_keeps_a_pad_toggle_alive() {
    let mut s = Sprint::new();
    let mut f = Frame::walking();
    assert!(level(&mut s, &f, true));
    f.pad_move_f = 0.0;
    assert!(level(&mut s, &f, false), "W is still down, so the player is still moving");
}

#[test]
fn shift_press_drops_a_pad_toggle() {
    let mut s = Sprint::new();
    let mut f = Frame::walking();
    assert!(level(&mut s, &f, true));
    f.input.key[KEY_SPRINT] = true;
    f.input.key_press[KEY_SPRINT] = true;
    assert!(level(&mut s, &f, false), "held Shift sprints");
    f.input.key[KEY_SPRINT] = false;
    f.input.key_press[KEY_SPRINT] = false;
    assert!(!level(&mut s, &f, false), "and its release ends the run: hold mode now");
}

#[test]
fn only_a_forward_run_sprints() {
    let mut s = Sprint::new();
    let mut f = Frame::new();
    for keys in [&[b'A'][..], &[b'D'], &[b'S'], &[b'S', b'A']] {
        f.input.key = [false; 256];
        f.input.key[KEY_SPRINT] = true;
        for k in keys {
            f.input.key[*k as usize] = true;
        }
        assert!(!level(&mut s, &f, false), "{keys:?} should walk");
    }
    for keys in [&[b'W'][..], &[b'W', b'A'], &[b'W', b'D']] {
        f.input.key = [false; 256];
        f.input.key[KEY_SPRINT] = true;
        for k in keys {
            f.input.key[*k as usize] = true;
        }
        assert!(level(&mut s, &f, false), "{keys:?} should run");
    }
    f.input.key = [false; 256];
    f.input.key[KEY_SPRINT] = true;
    f.pad_move_l = 0.9;
    f.pad_move_f = 0.2;
    assert!(!level(&mut s, &f, false));
    f.pad_move_f = 0.4;
    assert!(level(&mut s, &f, false));
}

#[test]
fn a_sidestep_keeps_the_toggle_but_not_the_run() {
    let mut s = Sprint::new();
    let mut f = Frame::new();
    f.pad_move_f = 1.0;
    assert!(level(&mut s, &f, true), "toggled on");
    f.pad_move_f = 0.0;
    f.pad_move_l = 1.0;
    assert!(!level(&mut s, &f, false), "strafing walks...");
    f.pad_move_f = 1.0;
    f.pad_move_l = 0.0;
    assert!(level(&mut s, &f, false), "...and forward again is running again");
}

#[test]
fn the_keyboard_motion_is_one_step_per_key() {
    let mut i = Input::new();
    assert_eq!(keyboard_motion(&i), (0, 0));
    i.key[b'W' as usize] = true;
    i.key[b'D' as usize] = true;
    assert_eq!(keyboard_motion(&i), (1, -1));
    i.key[b'S' as usize] = true;
    i.key[b'A' as usize] = true;
    assert_eq!(keyboard_motion(&i), (0, 0), "opposite keys cancel");
}
