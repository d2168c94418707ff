use daydreams::audio::{grab_sfx, Footsteps, Sfx};
use daydreams::key::KeyStep;

#[test]
fn each_footfall_sounds_once() {
    let mut f = Footsteps::new();
    assert_eq!(f.fire(0), None, "no step taken yet");
    assert_eq!(f.fire(1), Some(Sfx::Footstep));
    assert_eq!(f.fire(1), None, "the same footfall is not heard twice");
    assert_eq!(f.fire(3), Some(Sfx::Footstep), "two in one frame are one sound");
    assert_eq!(f.heard, 3);
}

#[test]
fn the_grab_edges_sound_in_order() {
    assert!(grab_sfx(false, false).is_empty());
    assert_eq!(grab_sfx(true, false), vec![Sfx::Grab]);
    assert_eq!(grab_sfx(false, true), vec![Sfx::Release]);
    assert_eq!(grab_sfx(true, true), vec![Sfx::Grab, Sfx::Release]);
}

#[test]
fn only_using_the_key_turns_the_lock() {
    assert_eq!(KeyStep::Use.sound(), Some(Sfx::KeyUse));
    assert_eq!(KeyStep::Offer.sound(), None);
    assert_eq!(KeyStep::Idle.sound(), None);
}
