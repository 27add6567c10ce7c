//! The player's avatar: a position, an alive/dead flag and an animation.
//! Each tick it reads the four direction bits, moves one pixel along at
//! most one axis, and dies on leaving the inner bounds unless the cheat
//! button is held. Once dead it is frozen in place; only the animation
//! still ticks.
use vstd::prelude::*;

use crate::arena::AVATAR_MAX_X;
use crate::arena::AVATAR_MAX_Y;
use crate::arena::AVATAR_MIN_X;
use crate::arena::AVATAR_MIN_Y;
use crate::host::held;
use crate::host::BUTTON_2;
use crate::host::BUTTON_DOWN;
use crate::host::BUTTON_LEFT;
use crate::host::BUTTON_RIGHT;
use crate::host::BUTTON_UP;
use crate::host::DrawCommand;
use crate::sprites::little_guy::Animation;
use crate::sprites::little_guy::Pose;

verus! {

#[derive(Clone, Copy, PartialEq, Eq, Structural, Debug)]
pub struct LittleGuy {
    pub x: i32,
    pub y: i32,
    pub sprite: Animation,
    pub is_dead: bool,
}

impl LittleGuy {
    /// The avatar as it stands at level start: alive at the spawn point.
    pub open spec fn initial() -> LittleGuy {
        LittleGuy { x: 80, y: 120, sprite: Animation::initial(), is_dead: false }
    }

    /// Whether a position lies outside the avatar's inner bounds.
    pub open spec fn out_of_bounds(x: int, y: int) -> bool {
        x < AVATAR_MIN_X || x > AVATAR_MAX_X || y < AVATAR_MIN_Y || y > AVATAR_MAX_Y
    }

    /// The avatar after a kill: dead, in the death pose, position kept.
    pub open spec fn killed(self) -> LittleGuy {
        LittleGuy { is_dead: true, sprite: self.sprite.posed(Pose::Dead), ..self }
    }

    /// The avatar after one tick under a gamepad mask. The animation
    /// phase always advances. If alive, the directions are honored in the
    /// priority left, right, up, down, a direction only counting when its
    /// opposite is not also held; the winner moves the avatar one pixel,
    /// and no winner means idling. A move that ends outside the inner
    /// bounds kills the avatar, unless the cheat button is held.
    pub open spec fn stepped(self, gamepad: u8) -> LittleGuy {
        let t = LittleGuy { sprite: self.sprite.ticked(), ..self };
        let left = held(gamepad, BUTTON_LEFT);
        let right = held(gamepad, BUTTON_RIGHT);
        let up = held(gamepad, BUTTON_UP);
        let down = held(gamepad, BUTTON_DOWN);
        let m = if t.is_dead {
            t
        } else if left && !right {
            LittleGuy { x: (t.x - 1) as i32, sprite: t.sprite.posed(Pose::RunLeft), ..t }
        } else if right && !left {
            LittleGuy { x: (t.x + 1) as i32, sprite: t.sprite.posed(Pose::RunRight), ..t }
        } else if up && !down {
            LittleGuy { y: (t.y - 1) as i32, sprite: t.sprite.posed(Pose::RunUp), ..t }
        } else if down && !up {
            LittleGuy { y: (t.y + 1) as i32, sprite: t.sprite.posed(Pose::RunDown), ..t }
        } else {
            LittleGuy { sprite: t.sprite.posed(Pose::Idle), ..t }
        };
        if !m.is_dead && !held(gamepad, BUTTON_2) && Self::out_of_bounds(m.x as int, m.y as int) {
            m.killed()
        } else {
            m
        }
    }

    pub fn new() -> (g: LittleGuy)
        ensures
            g == LittleGuy::initial(),
    {
        LittleGuy { x: 80, y: 120, sprite: Animation::new(), is_dead: false }
    }

    /// One tick of movement and the boundary check. The position bounds
    /// only keep the one-pixel move inside machine integers.
    pub fn update(&mut self, gamepad: u8)
        requires
            i32::MIN < old(self).x < i32::MAX,
            i32::MIN < old(self).y < i32::MAX,
        ensures
            *final(self) == old(self).stepped(gamepad),
    {
        self.sprite.tick();

        let left = gamepad & BUTTON_LEFT != 0;
        let right = gamepad & BUTTON_RIGHT != 0;
        let up = gamepad & BUTTON_UP != 0;
        let down = gamepad & BUTTON_DOWN != 0;
        let speed: i32 = 1;

        if self.is_dead {
            // Nothing: the dead avatar keeps its place while the
            // animation ticks on.
        } else if left && !right {
            self.sprite.run_left();
            self.x = self.x - speed;
        } else if right && !left {
            self.sprite.run_right();
            self.x = self.x + speed;
        } else if up && !down {
            self.sprite.run_up();
            self.y = self.y - speed;
        } else if down && !up {
            self.sprite.run_down();
            self.y = self.y + speed;
        } else {
            self.sprite.idle();
        }

        let is_cheating = (gamepad & BUTTON_2) != 0;
        if !self.is_dead && !is_cheating {
            if self.x < AVATAR_MIN_X || self.x > AVATAR_MAX_X || self.y < AVATAR_MIN_Y
                || self.y > AVATAR_MAX_Y {
                self.is_dead = true;
                self.sprite.die();
            }
        }
    }

    /// Kill the avatar, as collision handling does. Idempotent: a second
    /// call in the same tick changes nothing.
    pub fn kill(&mut self)
        ensures
            *final(self) == old(self).killed(),
    {
        self.is_dead = true;
        self.sprite.die();
    }

    pub fn is_alive(&self) -> (r: bool)
        ensures
            r == !self.is_dead,
    {
        !self.is_dead
    }

    /// The draw call for the avatar's current animation frame.
    pub fn draw(&self) -> (c: DrawCommand)
        ensures
            c == (DrawCommand::AvatarSprite {
                pose: self.sprite.pose,
                phase: self.sprite.phase,
                x: self.x,
                y: self.y,
            }),
    {
        self.sprite.draw(self.x, self.y)
    }
}

/// Killing is idempotent: killing an already killed avatar leaves the
/// state exactly as one kill does.
pub proof fn lemma_kill_idempotent(g: LittleGuy)
    ensures
        g.killed().killed() == g.killed(),
{
}

} // verus!
