//! Jumping: the small state machine between the jump button and the impulse -- coyote time,
//! the press buffer, and the lockout that keeps one press from launching the player twice.
//!
//! The engine steps at a fixed [`STEPS_PER_SECOND`], and every time here is counted in those
//! steps. The button is read as a level, true for every step it is held, and this machine is
//! what turns a level held for hundreds of steps into one impulse.

use vstd::prelude::*;

verus! {

/// Fixed steps per second of game time.
pub const STEPS_PER_SECOND: u32 = 500;

/// How long after leaving the ground a jump may still be pressed: 0.12 s.
pub const COYOTE_STEPS: u32 = 60;

/// How long before touchdown a jump may be pressed and still fire on it: 0.12 s.
pub const BUFFER_STEPS: u32 = 60;

/// How long a ground contact is ignored after a launch: 0.05 s. For that long the floor under
/// the player is the one they have not left yet, not a landing.
pub const LOCKOUT_STEPS: u32 = 25;

/// How long the player must have been off the ground for the next contact to count as a
/// landing: 0.08 s, the fall out of a 3 cm drop. Below it a contact is a scuff.
pub const LANDING_MIN_AIR_STEPS: u32 = 40;

/// Where the two counters stop: one second, well above both windows.
pub const STALE_STEPS: u32 = 500;

/// The state between the jump button and the impulse.
#[derive(Clone, Copy, PartialEq, Eq, Debug, Structural)]
pub struct Jump {
    /// Steps since the player was last standing on something, capped at [`STALE_STEPS`].
    pub since_ground: u32,
    /// Steps since the button was last down, capped at [`STALE_STEPS`].
    pub since_press: u32,
    /// Steps of lockout left.
    pub lockout: u32,
    /// The button must be seen released before it counts again.
    pub blocked: bool,
    /// Whether the player was off the ground going into this step.
    pub airborne: bool,
}

/// A counter one step on, stopping at [`STALE_STEPS`].
pub open spec fn aged(t: u32) -> u32 {
    if t >= STALE_STEPS {
        STALE_STEPS
    } else {
        (t + 1) as u32
    }
}

/// The counters stay within their cap.
pub open spec fn jump_wf(j: Jump) -> bool {
    j.since_ground <= STALE_STEPS && j.since_press <= STALE_STEPS && j.lockout <= LOCKOUT_STEPS
}

/// One fixed step from `j`: `on_ground` is the previous collision pass's verdict, `pressed`
/// the button's level. The jump fires when a press within the buffer meets ground within the
/// coyote time; the jump it fires spends both windows and starts the lockout.
pub open spec fn jump_step(j: Jump, on_ground: bool, pressed: bool) -> (Jump, bool) {
    let lockout = if j.lockout == 0 {
        0
    } else {
        (j.lockout - 1) as u32
    };
    let airborne = !on_ground || lockout > 0;
    let since_ground = if airborne {
        aged(j.since_ground)
    } else {
        0
    };
    let blocked = j.blocked && pressed;
    let since_press = if pressed && !blocked {
        0
    } else {
        aged(j.since_press)
    };
    if since_press <= BUFFER_STEPS && since_ground <= COYOTE_STEPS {
        (
            Jump {
                since_ground: STALE_STEPS,
                since_press: STALE_STEPS,
                lockout: LOCKOUT_STEPS,
                blocked,
                airborne: true,
            },
            true,
        )
    } else {
        (Jump { since_ground, since_press, lockout, blocked, airborne }, false)
    }
}

fn age(t: u32) -> (r: u32)
    ensures
        r == aged(t),
{
    if t >= STALE_STEPS {
        STALE_STEPS
    } else {
        t + 1
    }
}

impl Jump {
    /// A player stood still on the ground with nothing pressed. The press counter starts
    /// stale: a fresh zero would read as "pressed this instant" and launch the player on the
    /// first step of the level.
    pub fn new() -> (j: Jump)
        ensures
            j == (Jump {
                since_ground: 0,
                since_press: STALE_STEPS,
                lockout: 0,
                blocked: false,
                airborne: false,
            }),
            jump_wf(j),
    {
        Jump { since_ground: 0, since_press: STALE_STEPS, lockout: 0, blocked: false, airborne: false }
    }

    /// One fixed step (see [`jump_step`]). Returns true on the step the impulse is applied.
    pub fn step(&mut self, on_ground: bool, pressed: bool) -> (fired: bool)
        ensures
            (*final(self), fired) == jump_step(*old(self), on_ground, pressed),
            jump_wf(*old(self)) ==> jump_wf(*final(self)),
    {
        self.lockout = if self.lockout == 0 {
            0
        } else {
            self.lockout - 1
        };
        self.airborne = !on_ground || self.lockout > 0;
        self.since_ground = if self.airborne {
            age(self.since_ground)
        } else {
            0
        };
        if !pressed {
            self.blocked = false;
        }
        self.since_press = if pressed && !self.blocked {
            0
        } else {
            age(self.since_press)
        };
        if self.since_press <= BUFFER_STEPS && self.since_ground <= COYOTE_STEPS {
            self.since_press = STALE_STEPS;
            self.since_ground = STALE_STEPS;
            self.lockout = LOCKOUT_STEPS;
            self.airborne = true;
            return true;
        }
        false
    }

    /// Steps the player has been off the ground going into this step, the lockout included,
    /// and zero while the floor is holding them up.
    pub fn air_time(&self) -> (r: u32)
        ensures
            r == self.since_ground,
    {
        self.since_ground
    }

    /// Whether a contact now is a landing rather than a scuff.
    pub fn landed_hard_enough(&self) -> (r: bool)
        ensures
            r == (self.since_ground >= LANDING_MIN_AIR_STEPS),
    {
        self.since_ground >= LANDING_MIN_AIR_STEPS
    }

    /// Swallow the button until it is released: the menus confirm on the jump buttons.
    pub fn ignore_until_release(&mut self)
        ensures
            *final(self) == (Jump { blocked: true, ..*old(self) }),
    {
        self.blocked = true;
    }
}

/// The machine after a run of steps, each `(on_ground, pressed)`, and whether any of them
/// fired.
pub open spec fn jump_run(j: Jump, steps: Seq<(bool, bool)>) -> (Jump, bool)
    decreases steps.len(),
{
    if steps.len() == 0 {
        (j, false)
    } else {
        let (k, any) = jump_run(j, steps.drop_last());
        let (g, p) = steps.last();
        let (k2, f) = jump_step(k, g, p);
        (k2, any || f)
    }
}

/// No double jump: after a launch, whatever the button does, nothing launches again until the
/// player has stood on the ground with the lockout spent -- neither the floor they have not
/// left yet nor any step in the air.
pub proof fn lemma_no_double_jump(j: Jump, steps: Seq<(bool, bool)>)
    requires
        j.since_ground == STALE_STEPS,
        j.lockout == LOCKOUT_STEPS,
        forall|i: int|
            0 <= i < steps.len() ==> !((#[trigger] steps[i]).0 && i + 1 >= LOCKOUT_STEPS),
    ensures
        !jump_run(j, steps).1,
        jump_run(j, steps).0.since_ground == STALE_STEPS,
        jump_run(j, steps).0.lockout == if steps.len() >= LOCKOUT_STEPS {
            0
        } else {
            LOCKOUT_STEPS - steps.len()
        },
    decreases steps.len(),
{
    if steps.len() > 0 {
        let init = steps.drop_last();
        assert forall|i: int| 0 <= i < init.len() implies !((#[trigger] init[i]).0 && i + 1
            >= LOCKOUT_STEPS) by {
            assert(init[i] == steps[i]);
        }
        lemma_no_double_jump(j, init);
        let last = steps.len() - 1;
        assert(!(steps[last].0 && last + 1 >= LOCKOUT_STEPS));
    }
}

/// A launch needs ground: in the air past the coyote time, no press launches the player.
pub proof fn lemma_no_jump_from_thin_air(j: Jump, steps: Seq<(bool, bool)>)
    requires
        COYOTE_STEPS < j.since_ground <= STALE_STEPS,
        forall|i: int| 0 <= i < steps.len() ==> !(#[trigger] steps[i]).0,
    ensures
        !jump_run(j, steps).1,
        COYOTE_STEPS < jump_run(j, steps).0.since_ground <= STALE_STEPS,
    decreases steps.len(),
{
    if steps.len() > 0 {
        let init = steps.drop_last();
        assert forall|i: int| 0 <= i < init.len() implies !(#[trigger] init[i]).0 by {
            assert(init[i] == steps[i]);
        }
        lemma_no_jump_from_thin_air(j, init);
        assert(!steps[steps.len() - 1].0);
    }
}

} // verus!
