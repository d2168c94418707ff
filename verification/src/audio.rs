//! The one-shot sounds the game logic asks for; the mixer that plays them lives with the
//! platform layer.

use vstd::prelude::*;

verus! {

/// A one-shot sound effect.
#[derive(Clone, Copy, PartialEq, Eq, Debug, Structural)]
pub enum Sfx {
    Footstep,
    Grab,
    Release,
    KeyUse,
    KeyTake,
    CameraSnap,
    ToolClick,
    Stow,
    Retrieve,
    Drop,
    Refuse,
    UiMove,
    UiBack,
    UiConfirm,
    LandSoft,
    LandHard,
}

/// The footstep counter as of the last footstep sound, so each footfall sounds once. It is
/// never reset: the player's counter only grows, and equality is the test, so a scene load
/// cannot fire a stale step.
pub struct Footsteps {
    pub heard: u32,
}

impl Footsteps {
    pub fn new() -> (f: Footsteps)
        ensures
            f.heard == 0,
    {
        Footsteps { heard: 0 }
    }

    /// One footstep sound per footfall the player has taken since the last call, given the
    /// player's step counter: at most one per rendered frame.
    pub fn fire(&mut self, steps: u32) -> (r: Option<Sfx>)
        ensures
            final(self).heard == steps,
            r == if steps != old(self).heard {
                Some(Sfx::Footstep)
            } else {
                None
            },
    {
        if steps != self.heard {
            self.heard = steps;
            Some(Sfx::Footstep)
        } else {
            None
        }
    }
}

/// The sounds a frame's grab edges make: the grab first, then the release.
pub fn grab_sfx(just_grabbed: bool, just_released: bool) -> (r: Vec<Sfx>)
    ensures
        r@ == (if just_grabbed {
            seq![Sfx::Grab]
        } else {
            Seq::<Sfx>::empty()
        }) + (if just_released {
            seq![Sfx::Release]
        } else {
            Seq::<Sfx>::empty()
        }),
{
    let mut r: Vec<Sfx> = Vec::new();
    if just_grabbed {
        r.push(Sfx::Grab);
    }
    if just_released {
        r.push(Sfx::Release);
    }
    assert(r@ =~= (if just_grabbed {
        seq![Sfx::Grab]
    } else {
        Seq::<Sfx>::empty()
    }) + (if just_released {
        seq![Sfx::Release]
    } else {
        Seq::<Sfx>::empty()
    }));
    r
}

} // verus!
