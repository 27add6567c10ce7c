//! The host console's interface, as plain values: the button bits of the
//! gamepad mask, the screen size, the waveform selectors of the tone
//! generator, and the commands the game hands back for the host to render.
use vstd::prelude::*;

verus! {

/// Action button: starts the game from the menu and restarts after a loss.
pub const BUTTON_1: u8 = 1;
/// Secondary action button: held, it disables the arena boundary check.
pub const BUTTON_2: u8 = 2;
pub const BUTTON_LEFT: u8 = 16;
pub const BUTTON_RIGHT: u8 = 32;
pub const BUTTON_UP: u8 = 64;
pub const BUTTON_DOWN: u8 = 128;

/// The screen is square, `SCREEN_SIZE` pixels on a side.
pub const SCREEN_SIZE: i32 = 160;

pub const TONE_PULSE1: u32 = 0;
pub const TONE_PULSE2: u32 = 1;
pub const TONE_TRIANGLE: u32 = 2;
pub const TONE_NOISE: u32 = 3;

/// Whether button `button` is held in the sampled gamepad mask.
pub open spec fn held(gamepad: u8, button: u8) -> bool {
    gamepad & button != 0
}

/// One call to the host's tone generator: frequency in hertz, a packed
/// attack/sustain/release duration descriptor, a volume, and a waveform
/// selector.
#[derive(Clone, Copy, PartialEq, Eq, Structural, Debug)]
pub struct Tone {
    pub frequency: u32,
    pub duration: u32,
    pub volume: u32,
    pub flags: u32,
}

/// One drawing step. Commands carry game meaning (which glyph, where) and
/// leave pixel formats, fonts and sprite bitmaps to the host shell.
#[derive(Clone, Copy, PartialEq, Eq, Structural, Debug)]
pub enum DrawCommand {
    /// Load the game's four-color palette.
    SetPalette,
    /// Select foreground/background palette indices for subsequent calls.
    SetDrawColors(u16),
    /// The menu's title line, at a pixel position.
    MenuTitle { x: i32, y: i32 },
    /// The menu's "press start" prompt.
    StartPrompt { x: i32, y: i32 },
    /// The post-game "press restart" prompt.
    RestartPrompt { x: i32, y: i32 },
    /// The elapsed-time readout: whole seconds and a tenths digit.
    HudTime { seconds: i32, tenths: i32, x: i32, y: i32 },
    /// The score readout.
    HudScore { score: i32, x: i32, y: i32 },
    /// The arena border rectangle (outline), by top-left corner and size.
    ArenaBorder { x: i32, y: i32, width: i32, height: i32 },
    /// The projectile glyph, centered on a position.
    BallSprite { x: i32, y: i32 },
    /// The horizontal warning glyph, by top-left corner of its bitmap.
    WarningHorizontalSprite { x: i32, y: i32 },
    /// The vertical warning glyph, by top-left corner of its bitmap.
    WarningVerticalSprite { x: i32, y: i32 },
    /// The avatar, in a given animation pose and phase, centered on a position.
    AvatarSprite { pose: crate::sprites::little_guy::Pose, phase: u8, x: i32, y: i32 },
}

} // verus!
