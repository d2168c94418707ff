//! The sleepwalkers' rounds and what they notice: the mood each one is in, the step counters
//! that pace it, and the one-slot channel through which the street says how closely the
//! player is being watched. Where a sleepwalker walks and what it can see are geometry, and
//! the renderer's; what it does about them is here.

use vstd::prelude::*;

verus! {

/// Steps between sight tests, staggered per sleepwalker by its phase.
pub const LOOK_EVERY: u32 = 25;
/// Steps a sleepwalker stands still at a waypoint pause.
pub const PAUSE_STEPS: u32 = 500;
/// Steps it keeps walking toward something it noticed before losing interest.
pub const INTEREST_STEPS: u32 = 1500;
/// Look slots spent blocked before a patrol gives up on the leg it cannot reach.
pub const STUCK_SLOTS: u32 = 16;

/// The line the street says when a sleepwalker is looking at you.
pub const SEEN_HINT: &'static str = "SOMEONE IS LOOKING AT YOU";
/// The line it says when one is merely close.
pub const NEAR_HINT: &'static str = "SOMEONE IS CLOSE";

/// What a sleepwalker is doing.
#[derive(Clone, Copy, PartialEq, Eq, Debug, Structural)]
pub enum Mood {
    /// Walking the round.
    Patrol,
    /// Standing at a waypoint, looking at nothing.
    Pause,
    /// Walking over to look at something it noticed.
    Curious,
}

/// The animation clips the moods play: walking the round, standing, and walking over fast.
pub const CLIP_WALK: &'static str = "walking";
pub const CLIP_IDLE: &'static str = "standing_idle";
pub const CLIP_RUN: &'static str = "running";

impl Mood {
    /// The clip a mood is played with.
    pub open spec fn clip_name(self) -> &'static str {
        match self {
            Mood::Patrol => CLIP_WALK,
            Mood::Pause => CLIP_IDLE,
            Mood::Curious => CLIP_RUN,
        }
    }

    pub fn clip(self) -> (r: &'static str)
        ensures
            r == self.clip_name(),
    {
        match self {
            Mood::Patrol => CLIP_WALK,
            Mood::Pause => CLIP_IDLE,
            Mood::Curious => CLIP_RUN,
        }
    }

    /// Whether the mood's clip has the feet moving: every mood but a pause.
    pub fn moving(self) -> (r: bool)
        ensures
            r == (self != Mood::Pause),
    {
        match self {
            Mood::Pause => false,
            Mood::Patrol | Mood::Curious => true,
        }
    }
}

/// How loud the cast's attention is this step.
#[derive(Clone, Copy, PartialEq, Eq, Debug, Structural)]
pub enum Attention {
    /// Somebody is within a couple of strides.
    Near,
    /// Somebody has their eyes on you.
    Seen,
}

impl Attention {
    /// Loudness: being seen outranks being near.
    pub open spec fn rank(self) -> int {
        match self {
            Attention::Near => 1,
            Attention::Seen => 2,
        }
    }

    /// The hint-line text for this much attention.
    pub open spec fn spec_line(self) -> &'static str {
        match self {
            Attention::Near => NEAR_HINT,
            Attention::Seen => SEEN_HINT,
        }
    }

    pub fn line(self) -> (r: &'static str)
        ensures
            r == self.spec_line(),
    {
        match self {
            Attention::Near => NEAR_HINT,
            Attention::Seen => SEEN_HINT,
        }
    }
}

/// The street's one attention slot for the step: every sleepwalker writes what it noticed,
/// the loudest report survives, and the scene's rule takes it once a step.
pub struct Watch {
    pub heard: Option<Attention>,
}

impl Watch {
    /// Nobody has reported anything.
    pub fn new() -> (w: Watch)
        ensures
            w.heard is None,
    {
        Watch { heard: None }
    }
}

/// The louder of what was heard and a new report.
pub open spec fn louder(had: Option<Attention>, a: Attention) -> Option<Attention> {
    match had {
        Some(h) => if a.rank() > h.rank() {
            Some(a)
        } else {
            Some(h)
        },
        None => Some(a),
    }
}

/// A sleepwalker's step says what it noticed; the loudest report of the step survives.
pub fn report(w: &mut Watch, a: Attention)
    ensures
        final(w).heard == louder(old(w).heard, a),
{
    let louder_now = match w.heard {
        None => true,
        Some(had) => match (a, had) {
            (Attention::Seen, Attention::Near) => true,
            _ => false,
        },
    };
    if louder_now {
        w.heard = Some(a);
    }
}

/// The scene's rule takes the step's attention; the slot is left empty.
pub fn take_attention(w: &mut Watch) -> (r: Option<Attention>)
    ensures
        r == old(w).heard,
        final(w).heard is None,
{
    let r = w.heard;
    w.heard = None;
    r
}

/// Scene-load hygiene: a street's attention must not haunt the next one.
pub fn reset(w: &mut Watch)
    ensures
        final(w).heard is None,
{
    w.heard = None;
}

/// Whatever order a step's reports arrive in, the slot ends up holding the loudest of them.
pub proof fn lemma_loudest_report_wins(reports: Seq<Attention>)
    requires
        reports.len() > 0,
    ensures
        heard_after(None, reports) is Some,
        forall|i: int|
            0 <= i < reports.len() ==> (#[trigger] reports[i]).rank() <= heard_after(
                None,
                reports,
            )->0.rank(),
        exists|i: int| 0 <= i < reports.len() && reports[i] == heard_after(None, reports)->0,
    decreases reports.len(),
{
    let init = reports.drop_last();
    if init.len() == 0 {
        assert(heard_after(None, init) is None);
        assert(reports[0] == heard_after(None, reports)->0);
    } else {
        lemma_loudest_report_wins(init);
        let h = heard_after(None, init)->0;
        let j = choose|j: int| 0 <= j < init.len() && init[j] == h;
        assert forall|i: int| 0 <= i < reports.len() implies (#[trigger] reports[i]).rank()
            <= heard_after(None, reports)->0.rank() by {
            if i < init.len() {
                assert(reports[i] == init[i]);
            }
        }
        if heard_after(None, reports)->0 == h {
            assert(reports[j] == init[j]);
        } else {
            assert(reports[reports.len() - 1] == heard_after(None, reports)->0);
        }
    }
}

/// The slot after `reports`, in order, starting from `had`.
pub open spec fn heard_after(had: Option<Attention>, reports: Seq<Attention>) -> Option<Attention>
    decreases reports.len(),
{
    if reports.len() == 0 {
        had
    } else {
        louder(heard_after(had, reports.drop_last()), reports.last())
    }
}

/// A sleepwalker's round: its mood, the steps left in a pause or a spell of interest, the
/// leg of the route it is on, how long it has pushed at a wall, and the step counter its
/// sight tests are paced by.
pub struct Round {
    pub mood: Mood,
    pub timer: u32,
    pub leg: usize,
    pub stuck: u32,
    pub tick: u32,
    /// Staggers this one's sight tests against its neighbours'.
    pub phase: u32,
}

impl Round {
    /// Walking its route from the first leg, with `phase` staggering its sight tests.
    pub fn new(phase: u32) -> (r: Round)
        ensures
            r == (Round { mood: Mood::Patrol, timer: 0, leg: 1, stuck: 0, tick: 0, phase }),
    {
        Round { mood: Mood::Patrol, timer: 0, leg: 1, stuck: 0, tick: 0, phase }
    }

    /// Start the round over on a new route: the first leg, nothing counted, patrolling.
    /// Returns whether the mood changed (and the walking clip wants setting).
    pub fn restart(&mut self) -> (changed: bool)
        ensures
            *final(self) == (Round { mood: Mood::Patrol, timer: 0, leg: 1, stuck: 0, ..*old(self) }),
            changed == (old(self).mood != Mood::Patrol),
    {
        let changed = self.mood != Mood::Patrol;
        self.leg = 1;
        self.stuck = 0;
        self.timer = 0;
        self.mood = Mood::Patrol;
        changed
    }

    /// Count a step; whether it is this sleepwalker's slot of the shared look budget.
    pub fn tick(&mut self) -> (slot: bool)
        requires
            old(self).tick as int + 1 + old(self).phase <= u32::MAX || old(self).tick == u32::MAX,
        ensures
            final(self).tick == (if old(self).tick == u32::MAX {
                0
            } else {
                old(self).tick + 1
            }),
            *final(self) == (Round { tick: final(self).tick, ..*old(self) }),
            slot == ((final(self).tick + final(self).phase) % (LOOK_EVERY as int) == 0),
    {
        self.tick = self.tick.wrapping_add(1);
        (self.tick + self.phase) % LOOK_EVERY == 0
    }

    /// What a look slot found: whether a wall is a stride ahead and whether the player is
    /// seen. Seeing sets a spell of interest and the curious mood; a patrol pushing at a
    /// wall counts the slot. Returns whether the mood changed.
    pub fn look(&mut self, blocked: bool, sees: bool) -> (changed: bool)
        ensures
            ({
                let o = *old(self);
                let (mood, timer) = if sees {
                    (Mood::Curious, INTEREST_STEPS)
                } else {
                    (o.mood, o.timer)
                };
                let stuck = if blocked && mood == Mood::Patrol {
                    if o.stuck == u32::MAX {
                        u32::MAX
                    } else {
                        (o.stuck + 1) as u32
                    }
                } else {
                    0
                };
                &&& *final(self) == Round { mood, timer, stuck, ..o }
                &&& changed == (mood != o.mood)
            }),
    {
        let before = self.mood;
        if sees {
            self.timer = INTEREST_STEPS;
            self.mood = Mood::Curious;
        }
        if blocked && self.mood == Mood::Patrol {
            self.stuck = self.stuck.saturating_add(1);
        } else {
            self.stuck = 0;
        }
        self.mood != before
    }

    /// A patrolling step on a route of `route_len` waypoints: on arriving at the leg's
    /// waypoint -- or on giving up on a leg proved unreachable -- take the next leg after a
    /// pause. Returns whether the mood changed.
    pub fn patrol(&mut self, arrived: bool, route_len: usize) -> (changed: bool)
        requires
            old(self).mood == Mood::Patrol,
            route_len > 0,
        ensures
            ({
                let o = *old(self);
                if arrived || o.stuck > STUCK_SLOTS {
                    &&& *final(self) == Round {
                        leg: ((o.leg as int + 1) % (route_len as int)) as usize,
                        stuck: 0,
                        timer: PAUSE_STEPS,
                        mood: Mood::Pause,
                        ..o
                    }
                    &&& changed
                } else {
                    *final(self) == o && !changed
                }
            }),
    {
        if arrived || self.stuck > STUCK_SLOTS {
            let next = if self.leg >= route_len - 1 {
                if self.leg == route_len - 1 {
                    0
                } else {
                    ((self.leg - (route_len - 1)) % route_len)
                }
            } else {
                self.leg + 1
            };
            proof {
                let l = self.leg as int;
                let n = route_len as int;
                if l < n - 1 {
                    vstd::arithmetic::div_mod::lemma_small_mod((l + 1) as nat, n as nat);
                } else if l == n - 1 {
                    vstd::arithmetic::div_mod::lemma_mod_self_0(n);
                } else {
                    vstd::arithmetic::div_mod::lemma_mod_add_multiples_vanish(l - n + 1, n);
                }
            }
            self.leg = next;
            self.stuck = 0;
            self.timer = PAUSE_STEPS;
            self.mood = Mood::Pause;
            true
        } else {
            false
        }
    }

    /// A pausing step: count the pause down, and walk on when it is over. Returns whether
    /// the mood changed.
    pub fn pause(&mut self) -> (changed: bool)
        requires
            old(self).mood == Mood::Pause,
        ensures
            ({
                let o = *old(self);
                let timer = if o.timer == 0 {
                    0
                } else {
                    (o.timer - 1) as u32
                };
                &&& *final(self) == Round {
                    timer,
                    mood: if timer == 0 {
                        Mood::Patrol
                    } else {
                        Mood::Pause
                    },
                    ..o
                }
                &&& changed == (timer == 0)
            }),
    {
        self.timer = self.timer.saturating_sub(1);
        if self.timer == 0 {
            self.mood = Mood::Patrol;
            true
        } else {
            false
        }
    }

    /// What the step does about the mood it is in (see [`round_after`]). Returns whether the
    /// mood changed.
    pub fn act(&mut self, arrived: bool, route_len: usize) -> (changed: bool)
        requires
            old(self).mood == Mood::Patrol ==> route_len > 0,
        ensures
            *final(self) == round_after(*old(self), arrived, route_len),
            changed == (final(self).mood != old(self).mood),
    {
        match self.mood {
            Mood::Patrol => self.patrol(arrived, route_len),
            Mood::Pause => self.pause(),
            Mood::Curious => self.curious(),
        }
    }

    /// A curious step: count the interest down, and lose it into a pause when it is spent.
    /// Returns whether the mood changed.
    pub fn curious(&mut self) -> (changed: bool)
        requires
            old(self).mood == Mood::Curious,
        ensures
            ({
                let o = *old(self);
                let timer = if o.timer == 0 {
                    0
                } else {
                    (o.timer - 1) as u32
                };
                &&& *final(self) == if timer == 0 {
                    Round { timer: PAUSE_STEPS, mood: Mood::Pause, ..o }
                } else {
                    Round { timer, ..o }
                }
                &&& changed == (timer == 0)
            }),
    {
        self.timer = self.timer.saturating_sub(1);
        if self.timer == 0 {
            self.timer = PAUSE_STEPS;
            self.mood = Mood::Pause;
            true
        } else {
            false
        }
    }
}

/// What a step does about the mood a round is in: a patrol walks its leg (`arrived` says
/// whether this step reached the leg's waypoint, on a route of `route_len`) and takes the next
/// one after a pause, or gives up on a leg it is stuck on; a pause counts down and walks on;
/// curiosity counts its interest down and ends in a pause.
pub open spec fn round_after(o: Round, arrived: bool, route_len: usize) -> Round {
    let timer = if o.timer == 0 {
        0
    } else {
        (o.timer - 1) as u32
    };
    match o.mood {
        Mood::Patrol => if arrived || o.stuck > STUCK_SLOTS {
            Round {
                leg: ((o.leg as int + 1) % (route_len as int)) as usize,
                stuck: 0,
                timer: PAUSE_STEPS,
                mood: Mood::Pause,
                ..o
            }
        } else {
            o
        },
        Mood::Pause => Round {
            timer,
            mood: if timer == 0 {
                Mood::Patrol
            } else {
                Mood::Pause
            },
            ..o
        },
        Mood::Curious => if timer == 0 {
            Round { timer: PAUSE_STEPS, mood: Mood::Pause, ..o }
        } else {
            Round { timer, ..o }
        },
    }
}

/// `o` after `n` steps with nothing seen and no waypoint reached.
pub open spec fn rounds_after(o: Round, n: nat, route_len: usize) -> Round
    decreases n,
{
    if n == 0 {
        o
    } else {
        round_after(rounds_after(o, (n - 1) as nat, route_len), false, route_len)
    }
}

/// Interest runs out: a sleepwalker that noticed something stays curious for as many steps as
/// its interest lasts and not one more, then stands in a full pause.
pub proof fn lemma_interest_runs_out(o: Round, route_len: usize)
    requires
        o.mood == Mood::Curious,
        o.timer >= 1,
    ensures
        forall|n: nat|
            n < o.timer ==> #[trigger] rounds_after(o, n, route_len).mood == Mood::Curious
                && rounds_after(o, n, route_len).timer == o.timer - n,
        rounds_after(o, o.timer as nat, route_len).mood == Mood::Pause,
        rounds_after(o, o.timer as nat, route_len).timer == PAUSE_STEPS,
{
    assert forall|n: nat| n < o.timer implies #[trigger] rounds_after(o, n, route_len).mood
        == Mood::Curious && rounds_after(o, n, route_len).timer == o.timer - n by {
        lemma_curious_counts_down(o, n, route_len);
    }
    lemma_curious_counts_down(o, (o.timer - 1) as nat, route_len);
}

proof fn lemma_curious_counts_down(o: Round, n: nat, route_len: usize)
    requires
        o.mood == Mood::Curious,
        n < o.timer,
    ensures
        rounds_after(o, n, route_len).mood == Mood::Curious,
        rounds_after(o, n, route_len).timer == o.timer - n,
    decreases n,
{
    if n > 0 {
        lemma_curious_counts_down(o, (n - 1) as nat, route_len);
    }
}

/// A pause always ends: a sleepwalker standing at a waypoint walks on after as many steps as
/// its pause has left, and not before.
pub proof fn lemma_a_pause_ends(o: Round, route_len: usize)
    requires
        o.mood == Mood::Pause,
        o.timer >= 1,
    ensures
        forall|n: nat|
            n < o.timer ==> #[trigger] rounds_after(o, n, route_len).mood == Mood::Pause
                && rounds_after(o, n, route_len).timer == o.timer - n,
        rounds_after(o, o.timer as nat, route_len).mood == Mood::Patrol,
{
    assert forall|n: nat| n < o.timer implies #[trigger] rounds_after(o, n, route_len).mood
        == Mood::Pause && rounds_after(o, n, route_len).timer == o.timer - n by {
        lemma_pause_counts_down(o, n, route_len);
    }
    lemma_pause_counts_down(o, (o.timer - 1) as nat, route_len);
}

proof fn lemma_pause_counts_down(o: Round, n: nat, route_len: usize)
    requires
        o.mood == Mood::Pause,
        n < o.timer,
    ensures
        rounds_after(o, n, route_len).mood == Mood::Pause,
        rounds_after(o, n, route_len).timer == o.timer - n,
    decreases n,
{
    if n > 0 {
        lemma_pause_counts_down(o, (n - 1) as nat, route_len);
    }
}

} // verus!
