use daydreams::key::{offer_use, press, take_press, take_wants_use, KeyChannel, KeyLife, KeyStep};

#[test]
fn the_offer_and_the_press_are_each_taken_once() {
    let mut c = KeyChannel::new();
    assert!(!take_wants_use(&mut c));
    offer_use(&mut c);
    offer_use(&mut c);
    assert!(take_wants_use(&mut c));
    assert!(!take_wants_use(&mut c), "consumed by the frame's read");
    assert!(!take_press(&mut c));
    press(&mut c);
    assert!(take_press(&mut c));
    assert!(!take_press(&mut c), "consumed by the key's step");
}

#[test]
fn a_painted_key_neither_offers_nor_collides() {
    let mut c = KeyChannel::new();
    let mut k = KeyLife::new();
    assert!(!k.engine_collision());
    press(&mut c);
    assert_eq!(k.step(&mut c, true), KeyStep::Idle);
    assert!(c.pressed, "a floating key leaves the press alone");
    assert!(!c.wants_use);
}

#[test]
fn a_held_key_offers_on_a_lock_and_a_press_uses_it_once() {
    let mut c = KeyChannel::new();
    let mut k = KeyLife::new();
    press(&mut c);
    k.on_grab(&mut c);
    assert!(!c.pressed, "a fresh hold starts with no press pending");
    assert!(k.engine_collision());
    assert_eq!(k.step(&mut c, false), KeyStep::Idle);
    assert!(!c.wants_use);
    assert_eq!(k.step(&mut c, true), KeyStep::Offer);
    assert!(take_wants_use(&mut c));
    press(&mut c);
    assert_eq!(k.step(&mut c, true), KeyStep::Use);
    assert!(k.used);
    press(&mut c);
    assert_eq!(k.step(&mut c, true), KeyStep::Idle, "a used key opens nothing more");
}

#[test]
fn a_press_with_no_lock_in_reach_is_spent() {
    let mut c = KeyChannel::new();
    let mut k = KeyLife::new();
    k.on_grab(&mut c);
    press(&mut c);
    assert_eq!(k.step(&mut c, false), KeyStep::Idle);
    assert!(!c.pressed, "the press does not wait for a later aim");
    assert_eq!(k.step(&mut c, true), KeyStep::Offer);
    k.on_release();
    assert!(!k.held);
    assert!(!k.floating, "let go of, it is a prop and never the painting's again");
    assert_eq!(k.step(&mut c, true), KeyStep::Idle);
}
