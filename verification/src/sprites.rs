//! Sprite-level drawing: the avatar's animation state machine and the
//! glyph emitters for projectiles and their warning telegraphs.

pub mod ball;
pub mod little_guy;
pub mod warning_horizontal;
pub mod warning_vertical;
