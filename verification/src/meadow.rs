//! The meadow the game opens on, as far as anything but the renderer needs to know it: the
//! lens the title screen is shot through.

use vstd::prelude::*;
use crate::game_header::GH_FOV;

verus! {

/// The vertical field of view the title screen is shot at, in degrees. A menu backdrop is a
/// photograph: pulled in from the playing lens, the door reads twice as large without the
/// camera walking into it, and the hills behind it flatten into bands.
pub const TITLE_FOV: u32 = 36;

/// The title is shot on a longer lens than the game is played on, and a plausible one: wide
/// enough to keep the meadow, narrow enough to make the door the subject.
pub proof fn lemma_the_title_lens_is_longer_than_the_playing_one()
    ensures
        TITLE_FOV < GH_FOV,
        TITLE_FOV > 25,
{
}

} // verus!
