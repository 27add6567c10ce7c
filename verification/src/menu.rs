//! The title menu. It counts the frames it has been on screen — that
//! counter becomes the level's random seed, the game's poor-man's
//! entropy — and starts the game when the action button is pressed.
use vstd::prelude::*;

use crate::host::held;
use crate::host::DrawCommand;
use crate::host::BUTTON_1;

verus! {

pub struct Menu {
    /// Frames spent on the menu so far; handed to the level as its seed.
    pub frames: u64,
}

/// What a menu frame decides.
pub enum Outcome {
    Start,
}

impl Menu {
    pub fn new() -> (m: Menu)
        ensures
            m.frames == 0,
    {
        Menu { frames: 0 }
    }

    /// One menu frame: advance the seed counter, and start the game when
    /// the action button is held.
    pub fn update(&mut self, gamepad: u8) -> (outcome: Option<Outcome>)
        requires
            old(self).frames < u64::MAX,
        ensures
            final(self).frames == old(self).frames + 1,
            outcome matches Some(Outcome::Start) <==> held(gamepad, BUTTON_1),
    {
        self.frames = self.frames + 1;

        if gamepad & BUTTON_1 != 0 {
            Some(Outcome::Start)
        } else {
            None
        }
    }

    /// The commands that draw the title screen.
    pub open spec fn frame_cmds(self) -> Seq<DrawCommand> {
        seq![
            DrawCommand::SetPalette,
            DrawCommand::SetDrawColors(4),
            DrawCommand::MenuTitle { x: 10, y: 10 },
            DrawCommand::StartPrompt { x: 10, y: 140 },
        ]
    }

    pub fn draw(&mut self) -> (cmds: Vec<DrawCommand>)
        ensures
            *final(self) == *old(self),
            cmds@ == old(self).frame_cmds(),
    {
        let mut cmds: Vec<DrawCommand> = Vec::new();
        cmds.push(DrawCommand::SetPalette);
        cmds.push(DrawCommand::SetDrawColors(4));
        cmds.push(DrawCommand::MenuTitle { x: 10, y: 10 });
        cmds.push(DrawCommand::StartPrompt { x: 10, y: 140 });
        assert(cmds@ =~= self.frame_cmds());
        cmds
    }
}

} // verus!
