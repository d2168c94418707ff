use daydreams::jump::{
    Jump, BUFFER_STEPS, COYOTE_STEPS, LANDING_MIN_AIR_STEPS, LOCKOUT_STEPS, STALE_STEPS,
    STEPS_PER_SECOND,
};

/// Run `n` steps with the button and the ground held as given, counting the launches.
fn launches(j: &mut Jump, n: usize, on_ground: bool, pressed: bool) -> usize {
    (0..n).filter(|_| j.step(on_ground, pressed)).count()
}

#[test]
fn a_press_on_the_ground_fires_once_and_the_floor_under_it_does_not_fire_again() {
    let mut j = Jump::new();
    assert_eq!(launches(&mut j, 100, true, false), 0);
    assert!(j.step(true, true));
    let lockout_steps = LOCKOUT_STEPS as usize - 1;
    assert_eq!(launches(&mut j, lockout_steps, true, true), 0, "the lockout swallows it");
    assert_eq!(launches(&mut j, 300, false, true), 0);
}

#[test]
fn a_held_button_hops_again_on_landing() {
    let mut j = Jump::new();
    assert!(j.step(true, true));
    launches(&mut j, 350, false, true);
    assert!(j.step(true, true), "a held button hops again");
}

#[test]
fn coyote_time_forgives_a_late_press_and_only_that_long() {
    let mut j = Jump::new();
    j.step(true, false);
    let inside = COYOTE_STEPS as usize - 1;
    assert_eq!(launches(&mut j, inside, false, false), 0);
    assert!(j.step(false, true), "inside the window it fires");
    let mut j = Jump::new();
    j.step(true, false);
    let outside = COYOTE_STEPS as usize + 2;
    assert_eq!(launches(&mut j, outside, false, false), 0);
    assert_eq!(launches(&mut j, 200, false, true), 0, "too late is too late");
}

#[test]
fn a_press_just_before_landing_fires_on_touchdown() {
    let mut j = Jump::new();
    assert_eq!(launches(&mut j, 500, false, false), 0);
    assert!(!j.step(false, true));
    let wait = BUFFER_STEPS as usize - 2;
    assert_eq!(launches(&mut j, wait, false, false), 0);
    assert!(j.step(true, false), "the buffered press fires on touchdown");

    let mut j = Jump::new();
    launches(&mut j, 500, false, false);
    j.step(false, true);
    let wait = BUFFER_STEPS as usize + 2;
    assert_eq!(launches(&mut j, wait, false, false), 0);
    assert!(!j.step(true, false));
}

#[test]
fn a_blocked_button_waits_for_its_release() {
    let mut j = Jump::new();
    j.ignore_until_release();
    assert_eq!(launches(&mut j, 500, true, true), 0, "held from the menu: nothing");
    assert!(!j.step(true, false));
    assert!(j.step(true, true));
}

#[test]
fn air_time_is_zero_only_for_a_player_the_floor_is_holding_up() {
    let mut j = Jump::new();
    j.step(true, false);
    assert_eq!(j.air_time(), 0);
    j.step(false, false);
    assert!(j.air_time() > 0);
    j.step(true, false);
    assert_eq!(j.air_time(), 0, "back on the ground");
    assert!(j.step(true, true));
    assert!(j.air_time() > LANDING_MIN_AIR_STEPS);
    j.step(true, false);
    assert!(j.air_time() > 0, "the floor it has not left yet is not the ground");
}

#[test]
fn a_step_or_two_of_air_is_not_a_landing() {
    let mut j = Jump::new();
    j.step(true, false);
    for _ in 0..3 {
        j.step(false, false);
        assert!(j.air_time() < LANDING_MIN_AIR_STEPS);
        assert!(!j.landed_hard_enough());
    }
    let mut j = Jump::new();
    for _ in 0..(LANDING_MIN_AIR_STEPS as usize + 2) {
        j.step(false, false);
    }
    assert!(j.air_time() >= LANDING_MIN_AIR_STEPS);
    assert!(j.landed_hard_enough());
}

#[test]
fn the_windows_are_the_seconds_the_design_names() {
    assert_eq!(STEPS_PER_SECOND, 500);
    assert_eq!(COYOTE_STEPS * 1000 / STEPS_PER_SECOND, 120);
    assert_eq!(BUFFER_STEPS * 1000 / STEPS_PER_SECOND, 120);
    assert_eq!(LOCKOUT_STEPS * 1000 / STEPS_PER_SECOND, 50);
    assert_eq!(LANDING_MIN_AIR_STEPS * 1000 / STEPS_PER_SECOND, 80);
    assert_eq!(STALE_STEPS, STEPS_PER_SECOND);
}

#[test]
fn a_long_fall_stops_counting_at_a_second() {
    let mut j = Jump::new();
    launches(&mut j, 5000, false, false);
    assert_eq!(j.air_time(), STALE_STEPS);
}
