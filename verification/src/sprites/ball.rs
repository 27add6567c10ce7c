//! The projectile glyph.
use vstd::prelude::*;

use crate::host::DrawCommand;

verus! {

/// The commands that render a projectile centered on `(x, y)`.
pub open spec fn cmds(x: i32, y: i32) -> Seq<DrawCommand> {
    seq![DrawCommand::BallSprite { x, y }]
}

pub fn draw(x: i32, y: i32) -> (c: Vec<DrawCommand>)
    ensures
        c@ == cmds(x, y),
{
    let mut v: Vec<DrawCommand> = Vec::new();
    v.push(DrawCommand::BallSprite { x, y });
    assert(v@ =~= cmds(x, y));
    v
}

} // verus!
