//! Whether the render camera hangs on the third-person boom or sits in the eye. The eye
//! itself never moves: every gameplay question keeps asking it, and only the renderer reads
//! this.

use vstd::prelude::*;

verus! {

/// The boom switch. It outlives scene loads, so a round that reloads keeps its camera.
pub struct Boom {
    pub enabled: bool,
}

impl Boom {
    /// In the eye: first person.
    pub fn new() -> (b: Boom)
        ensures
            !b.enabled,
    {
        Boom { enabled: false }
    }
}

/// Is the render camera currently on the boom?
pub fn enabled(b: &Boom) -> (r: bool)
    ensures
        r == b.enabled,
{
    b.enabled
}

/// Put the render camera on the boom, or back in the eye.
pub fn set_enabled(b: &mut Boom, on: bool)
    ensures
        final(b).enabled == on,
{
    b.enabled = on;
}

/// The switch the other way round.
pub open spec fn toggled(b: Boom) -> Boom {
    Boom { enabled: !b.enabled }
}

/// Swap first and third person; returns the new state.
pub fn toggle(b: &mut Boom) -> (r: bool)
    ensures
        *final(b) == toggled(*old(b)),
        r == final(b).enabled,
{
    let next = !b.enabled;
    b.enabled = next;
    next
}

/// Toggling twice puts the camera back where it was.
pub proof fn lemma_toggle_round_trips(b: Boom)
    ensures
        toggled(toggled(b)) == b,
{
}

/// The boom, in camera space at `p_scale == 1`, in millimetres: right of the head, above it,
/// and behind it (the camera looks down its own -Z, so +Z is backwards). Over the right
/// shoulder rather than dead centre, so the body does not sit on the crosshair.
pub const BOOM_X_MM: i32 = 420;
pub const BOOM_Y_MM: i32 = 300;
pub const BOOM_Z_MM: i32 = 2750;

/// How far off an obstruction the pulled-in camera stops, in millimetres at `p_scale == 1`:
/// less than the player's own radius, so the camera can tuck into a corner the body cannot.
pub const CLEARANCE_MM: i32 = 180;

/// The shortest the boom may get before it may as well be first person, in thousandths of
/// its full length.
pub const MIN_FRACTION_PER_MILLE: i32 = 220;

/// The boom sits behind the eye and above it, off-centre, and the shortest pull-in is a
/// proper fraction of it -- or the avatar is drawn in front of the camera.
pub proof fn lemma_the_boom_is_behind_and_above()
    ensures
        BOOM_Z_MM > 0,
        BOOM_Y_MM > 0,
        BOOM_X_MM != 0,
        0 < MIN_FRACTION_PER_MILLE < 1000,
{
}

} // verus!
