use daydreams::thirdperson::{
    enabled, set_enabled, toggle, Boom, BOOM_X_MM, BOOM_Y_MM, BOOM_Z_MM, MIN_FRACTION_PER_MILLE,
};

#[test]
fn toggle_round_trips() {
    let mut b = Boom::new();
    set_enabled(&mut b, false);
    assert!(toggle(&mut b));
    assert!(enabled(&b));
    assert!(!toggle(&mut b));
    assert!(!enabled(&b));
}

#[test]
fn the_camera_starts_in_the_eye() {
    let b = Boom::new();
    assert!(!enabled(&b));
    let mut b = b;
    set_enabled(&mut b, true);
    assert!(enabled(&b));
}

#[test]
fn the_boom_is_behind_and_above() {
    assert!(BOOM_Z_MM > 0, "+Z is behind the camera");
    assert!(BOOM_Y_MM > 0, "raised, so the body does not fill the lower half");
    assert!(BOOM_X_MM.abs() > 0, "off-centre, so the body is not on the crosshair");
    assert!(MIN_FRACTION_PER_MILLE > 0 && MIN_FRACTION_PER_MILLE < 1000);
}
