//! The key that comes out of a painting and opens the window: its life as a prop, and the
//! channel through which it claims the frame's E press.
//!
//! While held, the key looks down the crosshair for a lock; with one there it offers to use
//! the frame's press, and the engine, which reads the offer once per rendered frame, hands
//! the press over. The key takes the press on its next step, and a press with a lock in
//! reach uses it -- once, for good.

use vstd::prelude::*;
use crate::audio::Sfx;

verus! {

/// The prompt while the held key is on a lock.
pub const USE_HINT: &'static str = "E  USE THE KEY";
/// The prompt while the crosshair is on the key itself.
pub const TAKE_HINT: &'static str = "E  TAKE THE KEY";

/// The two one-frame latches between the key and the engine.
pub struct KeyChannel {
    /// Set by the held key's step while a lock is in reach; taken by the engine once per
    /// rendered frame, before it decides whose the frame's E press is.
    pub wants_use: bool,
    /// The frame's E, handed to the key by the engine; taken by the key's next step.
    pub pressed: bool,
}

impl KeyChannel {
    /// Nothing offered, nothing pressed.
    pub fn new() -> (c: KeyChannel)
        ensures
            !c.wants_use && !c.pressed,
    {
        KeyChannel { wants_use: false, pressed: false }
    }
}

/// Whether the held key wants the frame's E press. Consumed: the key's steps set it afresh
/// every frame it holds, so the engine never sees a stale offer.
pub fn take_wants_use(c: &mut KeyChannel) -> (r: bool)
    ensures
        r == old(c).wants_use,
        *final(c) == (KeyChannel { wants_use: false, ..*old(c) }),
{
    let r = c.wants_use;
    c.wants_use = false;
    r
}

/// Hand the frame's E press to the key.
pub fn press(c: &mut KeyChannel)
    ensures
        *final(c) == (KeyChannel { pressed: true, ..*old(c) }),
{
    c.pressed = true;
}

/// The key's side: say the press is wanted.
pub fn offer_use(c: &mut KeyChannel)
    ensures
        *final(c) == (KeyChannel { wants_use: true, ..*old(c) }),
{
    c.wants_use = true;
}

/// The key's side: take a press the engine has handed over.
pub fn take_press(c: &mut KeyChannel) -> (r: bool)
    ensures
        r == old(c).pressed,
        *final(c) == (KeyChannel { pressed: false, ..*old(c) }),
{
    let r = c.pressed;
    c.pressed = false;
    r
}

/// What the key's step asks of the scene.
#[derive(Clone, Copy, PartialEq, Eq, Debug, Structural)]
pub enum KeyStep {
    /// Nothing: floating, loose, spent, or no lock in reach.
    Idle,
    /// A lock is in reach: the offer is made and the hint line says [`USE_HINT`].
    Offer,
    /// The press was taken on a lock: the hint, the lock's sound, the window's unlock and
    /// the key's own removal.
    Use,
}

impl KeyStep {
    /// The sound a step makes: the lock turning over, on the press that uses the key.
    pub fn sound(self) -> (r: Option<Sfx>)
        ensures
            r == if self == KeyStep::Use {
                Some(Sfx::KeyUse)
            } else {
                None
            },
    {
        match self {
            KeyStep::Use => Some(Sfx::KeyUse),
            KeyStep::Idle | KeyStep::Offer => None,
        }
    }
}

/// Where the key is in its life.
pub struct KeyLife {
    /// Still the painting's, animated out of its canvas: no physics, no collision.
    pub floating: bool,
    pub held: bool,
    pub used: bool,
}

impl KeyLife {
    /// A key just painted: floating, not held, not used.
    pub fn new() -> (k: KeyLife)
        ensures
            k.floating && !k.held && !k.used,
    {
        KeyLife { floating: true, held: false, used: false }
    }

    /// The grab took it: the floating life is over for good, it is in hand, and a fresh hold
    /// starts with no press pending.
    pub fn on_grab(&mut self, c: &mut KeyChannel)
        ensures
            *final(self) == (KeyLife { floating: false, held: true, ..*old(self) }),
            *final(c) == (KeyChannel { pressed: false, ..*old(c) }),
    {
        self.held = true;
        self.floating = false;
        take_press(c);
    }

    /// Let go of.
    pub fn on_release(&mut self)
        ensures
            *final(self) == (KeyLife { held: false, ..*old(self) }),
    {
        self.held = false;
    }

    /// Whether the engine's collision pass should push it: not while it is the painting's.
    pub fn engine_collision(&self) -> (r: bool)
        ensures
            r == !self.floating,
    {
        !self.floating
    }

    /// One step, given whether a lock is under the crosshair within reach. A held, unused
    /// key takes the frame's press whether or not a lock is in reach, so a press cannot wait
    /// for a later aim; with a lock in reach it offers, and a press it took uses it.
    pub fn step(&mut self, c: &mut KeyChannel, lock_near: bool) -> (r: KeyStep)
        ensures
            ({
                let o = *old(self);
                let active = !o.floating && o.held && !o.used;
                &&& (*final(self), r) == step_of(o, old(c).pressed, lock_near)
                &&& final(c).pressed == (old(c).pressed && !active)
                &&& final(c).wants_use == (old(c).wants_use || (active && lock_near))
            }),
    {
        if self.floating || !self.held || self.used {
            return KeyStep::Idle;
        }
        let pressed = take_press(c);
        if !lock_near {
            return KeyStep::Idle;
        }
        offer_use(c);
        if pressed {
            self.used = true;
            KeyStep::Use
        } else {
            KeyStep::Offer
        }
    }
}

/// What one step answers, given the key's life, whether a press was waiting and whether a
/// lock is in reach; and the life after it.
pub open spec fn step_of(k: KeyLife, pressed: bool, lock_near: bool) -> (KeyLife, KeyStep) {
    let active = !k.floating && k.held && !k.used;
    let r = if !active || !lock_near {
        KeyStep::Idle
    } else if pressed {
        KeyStep::Use
    } else {
        KeyStep::Offer
    };
    (KeyLife { used: k.used || r == KeyStep::Use, ..k }, r)
}

/// The life after a run of steps, each with its waiting press and its lock answer; grabs
/// and releases may come between them.
pub open spec fn life_after(k: KeyLife, steps: Seq<(bool, bool, Option<bool>)>) -> KeyLife
    decreases steps.len(),
{
    if steps.len() == 0 {
        k
    } else {
        let prev = life_after(k, steps.drop_last());
        let (pressed, lock_near, hand) = steps.last();
        let k2 = match hand {
            Some(true) => KeyLife { floating: false, held: true, ..prev },
            Some(false) => KeyLife { held: false, ..prev },
            None => prev,
        };
        step_of(k2, pressed, lock_near).0
    }
}

/// A key opens one lock, once: after a use, however the key is grabbed, dropped, pressed and
/// aimed, it stays used and no step of it is another use.
pub proof fn lemma_a_key_is_used_once(k: KeyLife, steps: Seq<(bool, bool, Option<bool>)>)
    requires
        k.used,
    ensures
        life_after(k, steps).used,
        forall|k2: KeyLife, p: bool, l: bool| k2.used ==> step_of(k2, p, l).1 != KeyStep::Use,
    decreases steps.len(),
{
    if steps.len() > 0 {
        lemma_a_key_is_used_once(k, steps.drop_last());
    }
}

/// Once grabbed, the key is the painting's no more: no run of steps, grabs and releases
/// brings its floating life back.
pub proof fn lemma_taking_the_key_is_final(k: KeyLife, steps: Seq<(bool, bool, Option<bool>)>)
    requires
        !k.floating,
    ensures
        !life_after(k, steps).floating,
    decreases steps.len(),
{
    if steps.len() > 0 {
        lemma_taking_the_key_is_final(k, steps.drop_last());
    }
}

} // verus!
