use daydreams::prochouse::{clock_seed, scene_seed, set_cli_seed, Rng, SeedPin};

#[test]
fn the_seed_is_never_zero_locked() {
    let mut r = Rng::new(0);
    assert_ne!(r.next(), 0);
}

#[test]
fn a_zero_seed_runs_as_seed_one() {
    let mut zero = Rng::new(0);
    let mut one = Rng::new(1);
    for _ in 0..8 {
        assert_eq!(zero.next(), one.next());
    }
}

#[test]
fn the_generator_is_xorshift64_star() {
    let mut r = Rng::new(1);
    assert_eq!(r.next(), 5180492295206395165);
    assert_eq!(r.next(), 12380297144915551517);
    let mut r = Rng::new(1);
    assert_eq!(r.below_pub(6), 1);
    assert_eq!(r.below_pub(6), 5);
    assert_eq!(r.below_pub(0), 0, "below nothing is below one");
}

#[test]
fn a_pinned_seed_is_the_seed() {
    let mut pin = SeedPin::new();
    set_cli_seed(&mut pin, Some(42));
    assert_eq!(scene_seed(&pin), 42);
    set_cli_seed(&mut pin, None);
    assert_eq!(pin.pinned, None);
    let _from_the_clock = scene_seed(&pin);
}

#[test]
fn the_clock_seed_mixes_seconds_and_nanoseconds() {
    assert_eq!(clock_seed(Some((0b1100, 0b1010))), 0b0110);
    assert_eq!(clock_seed(Some((1_700_000_000, 0))), 1_700_000_000);
    assert_eq!(clock_seed(None), 1, "a clock before the epoch still seeds");
}
