//! The arena's geometry: a square screen with a score banner across the
//! top and padding on every side. The playable rectangle — the inner
//! bounds — is the screen inset by the banner and padding; each mover is
//! additionally inset by its own half-extent.
use vstd::prelude::*;

use crate::host::SCREEN_SIZE;

verus! {

/// Height of the score banner along the top edge, in pixels.
pub const BANNER_HEIGHT: i32 = 20;
/// Thickness of the border padding on every side, in pixels.
pub const PADDING_SIZE: i32 = 10;

/// The avatar's allowed positions, inset by its half-extents.
pub const AVATAR_MIN_X: i32 = PADDING_SIZE + 5;
pub const AVATAR_MAX_X: i32 = SCREEN_SIZE - PADDING_SIZE - 5;
pub const AVATAR_MIN_Y: i32 = BANNER_HEIGHT + PADDING_SIZE + 3;
pub const AVATAR_MAX_Y: i32 = SCREEN_SIZE - PADDING_SIZE - 3;

/// The range a projectile's cross coordinate is drawn from at spawn.
pub const SPAWN_MIN_X: i32 = PADDING_SIZE + 5;
pub const SPAWN_MAX_X: i32 = SCREEN_SIZE - PADDING_SIZE - 5;
pub const SPAWN_MIN_Y: i32 = BANNER_HEIGHT + PADDING_SIZE + 5;
pub const SPAWN_MAX_Y: i32 = SCREEN_SIZE - PADDING_SIZE - 5;

/// How far outside its spawn range's near edge a projectile starts.
pub const SPAWN_OFFSET: i32 = 5 + 2;

/// A projectile is gone once it crosses these outer bounds in its
/// direction of travel.
pub const GONE_MIN_X: i32 = PADDING_SIZE;
pub const GONE_MAX_X: i32 = SCREEN_SIZE - PADDING_SIZE;
pub const GONE_MIN_Y: i32 = BANNER_HEIGHT + PADDING_SIZE;
pub const GONE_MAX_Y: i32 = SCREEN_SIZE - PADDING_SIZE;

} // verus!
