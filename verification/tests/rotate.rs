use daydreams::input::Input;
use daydreams::rotate::{Rotate, KEY_R};

#[test]
fn every_modifier_source_activates() {
    for source in 0..3 {
        let mut i = Input::new();
        match source {
            0 => i.mouse_button[2] = true,
            1 => i.key[b'R' as usize] = true,
            _ => i.pad_rotate_mod = true,
        }
        let mut r = Rotate::new();
        assert!(r.engage(&i, true));
        assert!(r.active);
    }
}

#[test]
fn active_clears_when_modifier_released() {
    let mut i = Input::new();
    i.mouse_button[2] = true;
    let mut r = Rotate::new();
    r.engage(&i, true);
    assert!(r.active);
    i.mouse_button[2] = false;
    assert!(!r.engage(&i, true));
    assert!(!r.active);
}

#[test]
fn nothing_held_nothing_to_rotate() {
    let mut i = Input::new();
    i.key[KEY_R] = true;
    assert!(Rotate::modifier_down(&i));
    let mut r = Rotate::new();
    assert!(!r.engage(&i, false));
    assert!(!r.active);
    let mut none = Input::new();
    none.key[b'Q' as usize] = true;
    assert!(!Rotate::modifier_down(&none));
    assert!(!r.engage(&none, true), "no modifier, no rotation");
}
