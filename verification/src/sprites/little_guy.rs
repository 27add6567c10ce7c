//! The avatar's animation: a pose (idle, one of four run directions, or
//! dead) with a phase counter that advances every tick and restarts
//! whenever the pose changes.
use vstd::prelude::*;

use crate::host::DrawCommand;

verus! {

/// How many ticks one animation cycle lasts; the phase counts `0..PERIOD`.
pub const ANIMATION_PERIOD: u8 = 8;

#[derive(Clone, Copy, PartialEq, Eq, Structural, Debug)]
pub enum Pose {
    Idle,
    RunLeft,
    RunRight,
    RunUp,
    RunDown,
    Dead,
}

#[derive(Clone, Copy, PartialEq, Eq, Structural, Debug)]
pub struct Animation {
    pub pose: Pose,
    pub phase: u8,
}

impl Animation {
    /// The freshly created animation: idle, at the start of its cycle.
    pub open spec fn initial() -> Animation {
        Animation { pose: Pose::Idle, phase: 0 }
    }

    /// One tick of the phase counter, wrapping at the cycle period.
    pub open spec fn ticked(self) -> Animation {
        Animation {
            pose: self.pose,
            phase: if self.phase + 1 < ANIMATION_PERIOD { (self.phase + 1) as u8 } else { 0 },
        }
    }

    /// Switching to a pose: a genuine change restarts the cycle, while
    /// re-selecting the current pose leaves the animation untouched.
    pub open spec fn posed(self, pose: Pose) -> Animation {
        if self.pose == pose {
            self
        } else {
            Animation { pose, phase: 0 }
        }
    }

    pub fn new() -> (a: Animation)
        ensures
            a == Animation::initial(),
    {
        Animation { pose: Pose::Idle, phase: 0 }
    }

    /// Advance the phase counter by one tick.
    pub fn tick(&mut self)
        ensures
            *final(self) == old(self).ticked(),
    {
        if self.phase < ANIMATION_PERIOD - 1 {
            self.phase = self.phase + 1;
        } else {
            self.phase = 0;
        }
    }

    pub fn idle(&mut self)
        ensures
            *final(self) == old(self).posed(Pose::Idle),
    {
        self.set_pose(Pose::Idle);
    }

    pub fn run_left(&mut self)
        ensures
            *final(self) == old(self).posed(Pose::RunLeft),
    {
        self.set_pose(Pose::RunLeft);
    }

    pub fn run_right(&mut self)
        ensures
            *final(self) == old(self).posed(Pose::RunRight),
    {
        self.set_pose(Pose::RunRight);
    }

    pub fn run_up(&mut self)
        ensures
            *final(self) == old(self).posed(Pose::RunUp),
    {
        self.set_pose(Pose::RunUp);
    }

    pub fn run_down(&mut self)
        ensures
            *final(self) == old(self).posed(Pose::RunDown),
    {
        self.set_pose(Pose::RunDown);
    }

    /// Switch to the death pose; the cycle restarts only on the first call.
    pub fn die(&mut self)
        ensures
            *final(self) == old(self).posed(Pose::Dead),
    {
        self.set_pose(Pose::Dead);
    }

    fn set_pose(&mut self, pose: Pose)
        ensures
            *final(self) == old(self).posed(pose),
    {
        if self.pose != pose {
            self.pose = pose;
            self.phase = 0;
        }
    }

    /// The draw call for the current frame at a position.
    pub fn draw(&self, x: i32, y: i32) -> (c: DrawCommand)
        ensures
            c == (DrawCommand::AvatarSprite { pose: self.pose, phase: self.phase, x, y }),
    {
        DrawCommand::AvatarSprite { pose: self.pose, phase: self.phase, x, y }
    }
}

} // verus!
