//! The procedural house's dice: the seed a scene furnishes with, and the generator that
//! deals the furniture from it.

use vstd::prelude::*;

verus! {

/// The multiplier xorshift64* scrambles its state with; odd, so the scramble is a bijection.
pub const SCRAMBLE: u64 = 0x2545_F491_4F6C_DD1D;

/// One xorshift64 step of the state.
pub open spec fn xorshift(x: u64) -> u64 {
    let a = x ^ (x >> 12u64);
    let b = a ^ (a << 25u64);
    b ^ (b >> 27u64)
}

/// What the generator hands out for a state: the state times [`SCRAMBLE`], wrapping.
pub open spec fn scramble(x: u64) -> u64 {
    ((x as nat * SCRAMBLE as nat) % 0x1_0000_0000_0000_0000) as u64
}

/// A non-zero state stays non-zero, and scrambles to a non-zero output.
pub proof fn lemma_nonzero_stays_nonzero(x: u64)
    requires
        x != 0,
    ensures
        xorshift(x) != 0,
        scramble(xorshift(x)) != 0,
{
    let a = x ^ (x >> 12u64);
    let b = a ^ (a << 25u64);
    let c = b ^ (b >> 27u64);
    assert(a != 0) by (bit_vector)
        requires
            x != 0,
            a == x ^ (x >> 12u64),
    ;
    assert(b != 0) by (bit_vector)
        requires
            a != 0,
            b == a ^ (a << 25u64),
    ;
    assert(c != 0) by (bit_vector)
        requires
            b != 0,
            c == b ^ (b >> 27u64),
    ;
    let m = c.wrapping_mul(SCRAMBLE);
    assert(m != 0) by (bit_vector)
        requires
            c != 0,
            m == c.wrapping_mul(0x2545_F491_4F6C_DD1Du64),
    ;
}

/// xorshift64*: the engine carries no RNG crate and a house does not need one.
pub struct Rng(u64);

impl Rng {
    /// The generator's state; never zero, which is xorshift's one fixed point.
    pub closed spec fn state(&self) -> u64 {
        self.0
    }

    #[verifier::type_invariant]
    closed spec fn never_zero(&self) -> bool {
        self.0 != 0
    }

    /// A generator seeded with `seed`, or with 1 for a zero seed, which would lock it at zero.
    pub fn new(seed: u64) -> (r: Rng)
        ensures
            r.state() == if seed == 0 {
                1
            } else {
                seed
            },
    {
        Rng(if seed == 0 {
            1
        } else {
            seed
        })
    }

    /// The next number: the state steps once and is handed out scrambled. Never zero.
    pub fn next(&mut self) -> (r: u64)
        ensures
            final(self).state() == xorshift(old(self).state()),
            r == scramble(final(self).state()),
            r != 0,
    {
        proof {
            use_type_invariant(&*self);
        }
        let mut x = self.0;
        x ^= x >> 12;
        x ^= x << 25;
        x ^= x >> 27;
        proof {
            lemma_nonzero_stays_nonzero(self.0);
        }
        self.0 = x;
        x.wrapping_mul(SCRAMBLE)
    }

    /// A number below `n` (below 1 when `n` is 0).
    fn below(&mut self, n: usize) -> (r: usize)
        ensures
            final(self).state() == xorshift(old(self).state()),
            r == scramble(final(self).state()) % (if n == 0 {
                1
            } else {
                n as u64
            }),
            r < if n == 0 {
                1
            } else {
                n
            },
    {
        let m: u64 = if n == 0 {
            1
        } else {
            n as u64
        };
        (self.next() % m) as usize
    }

    /// [`Rng::below`], for the street deal in level32, which shuffles lot indices with it.
    pub fn below_pub(&mut self, n: usize) -> (r: usize)
        ensures
            final(self).state() == xorshift(old(self).state()),
            r == scramble(final(self).state()) % (if n == 0 {
                1
            } else {
                n as u64
            }),
            r < if n == 0 {
                1
            } else {
                n
            },
    {
        self.below(n)
    }
}

/// `--house-seed N`: the night's seed, when it is pinned from the command line.
pub struct SeedPin {
    pub pinned: Option<u64>,
}

impl SeedPin {
    /// Nothing pinned: every scene load furnishes from the clock.
    pub fn new() -> (p: SeedPin)
        ensures
            p.pinned is None,
    {
        SeedPin { pinned: None }
    }
}

/// Pin (or unpin) the seed every later scene load furnishes with.
pub fn set_cli_seed(pin: &mut SeedPin, seed: Option<u64>)
    ensures
        final(pin).pinned == seed,
{
    pin.pinned = seed;
}

/// The seed a clock reading makes: the whole seconds since the epoch XOR the nanoseconds past
/// them, or 1 for a clock set before the epoch.
pub open spec fn clock_seed_of(since_epoch: Option<(u64, u32)>) -> u64 {
    match since_epoch {
        Some((secs, nanos)) => (nanos as u64) ^ secs,
        None => 1,
    }
}

/// [`clock_seed_of`], computed.
pub fn clock_seed(since_epoch: Option<(u64, u32)>) -> (r: u64)
    ensures
        r == clock_seed_of(since_epoch),
{
    match since_epoch {
        Some((secs, nanos)) => (nanos as u64) ^ secs,
        None => 1,
    }
}

#[verifier::external_type_specification]
#[verifier::external_body]
pub struct ExSystemTime(std::time::SystemTime);

#[verifier::external_type_specification]
#[verifier::external_body]
pub struct ExSystemTimeError(std::time::SystemTimeError);

/// `std::time::SystemTime::now`: the wall clock, whatever it reads.
#[verifier::external_body]
fn system_now() -> std::time::SystemTime {
    std::time::SystemTime::now()
}

/// `std::time::UNIX_EPOCH`, the clock's zero.
#[verifier::external_body]
fn unix_epoch() -> std::time::SystemTime {
    std::time::UNIX_EPOCH
}

/// `SystemTime::duration_since`: how long after `earlier` the time `t` is, or an error when it
/// is before it.
#[verifier::external_body]
fn duration_since(
    t: &std::time::SystemTime,
    earlier: std::time::SystemTime,
) -> Result<core::time::Duration, std::time::SystemTimeError> {
    t.duration_since(earlier)
}

/// `Duration::as_secs`: the whole seconds of a duration.
#[verifier::external_body]
fn duration_secs(d: &core::time::Duration) -> u64 {
    d.as_secs()
}

/// `Duration::subsec_nanos`: the nanoseconds past the whole seconds, which the documentation
/// promises are below one second's worth.
#[verifier::external_body]
fn duration_subsec_nanos(d: &core::time::Duration) -> (r: u32)
    ensures
        r < 1_000_000_000,
{
    d.subsec_nanos()
}

/// The seed a fresh scene load furnishes with: the pinned one, or the clock's -- a new house
/// every visit. The clock's seed is whatever the wall clock reads, run through
/// [`clock_seed`], which is where it is specified; any `u64` can come out of it, so nothing
/// is promised of an unpinned seed here.
pub fn scene_seed(pin: &SeedPin) -> (r: u64)
    ensures
        pin.pinned matches Some(s) ==> r == s,
{
    match pin.pinned {
        Some(s) => s,
        None => {
            let now = system_now();
            let reading = match duration_since(&now, unix_epoch()) {
                Ok(d) => Some((duration_secs(&d), duration_subsec_nanos(&d))),
                Err(_) => None,
            };
            clock_seed(reading)
        },
    }
}

} // verus!
