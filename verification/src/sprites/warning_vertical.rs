//! The warning glyph for projectiles that will cross the arena vertically:
//! a 16x16 one-bit bitmap, blitted centered on a position.
use vstd::prelude::*;

use crate::host::DrawCommand;

verus! {

pub const WARNING_VERTICAL_WIDTH: i32 = 16;
pub const WARNING_VERTICAL_HEIGHT: i32 = 16;

/// The glyph's bitmap, one bit per pixel, row by row.
pub const WARNING_VERTICAL: [u8; 32] = [
    0x00, 0x00, 0x00, 0x00, 0x00, 0x00, 0x00, 0x00, 0x01, 0x80, 0x01, 0x80,
    0x01, 0x80, 0x01, 0x80, 0x01, 0x80, 0x01, 0x80, 0x01, 0x80, 0x01, 0x80,
    0x00, 0x00, 0x00, 0x00, 0x00, 0x00, 0x00, 0x00,
];

/// The commands that render the glyph centered on `(x, y)`.
pub open spec fn cmds(x: i32, y: i32) -> Seq<DrawCommand> {
    seq![
        DrawCommand::SetDrawColors(0x40),
        DrawCommand::WarningVerticalSprite { x: (x - 8) as i32, y: (y - 8) as i32 },
    ]
}

pub fn draw(x: i32, y: i32) -> (c: Vec<DrawCommand>)
    requires
        i32::MIN + 8 <= x,
        i32::MIN + 8 <= y,
    ensures
        c@ == cmds(x, y),
{
    let mut v: Vec<DrawCommand> = Vec::new();
    v.push(DrawCommand::SetDrawColors(0x40));
    v.push(DrawCommand::WarningVerticalSprite {
        x: x - WARNING_VERTICAL_WIDTH / 2,
        y: y - WARNING_VERTICAL_HEIGHT / 2,
    });
    assert(v@ =~= cmds(x, y));
    v
}

} // verus!
