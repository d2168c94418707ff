//! Engine-wide limits the extensions size themselves by.

use vstd::prelude::*;

verus! {

/// How many portals a scene may hold.
pub const GH_MAX_PORTALS: usize = 16;

/// How deep portal passes nest, the main view included.
pub const GH_MAX_RECURSION: usize = 4;

/// The vertical field of view the game is played at, in degrees.
pub const GH_FOV: u32 = 60;

} // verus!
