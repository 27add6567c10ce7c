//! A projectile: spawned just outside one of the four arena edges, it
//! first telegraphs itself for `warning_time` ticks — frozen in place,
//! pulsing a tone on a cadence — and then travels across the arena along
//! exactly one axis at a fixed speed until it crosses the outer bound in
//! its direction of travel, which makes it gone for good.
use vstd::prelude::*;

use crate::arena::GONE_MAX_X;
use crate::arena::GONE_MAX_Y;
use crate::arena::GONE_MIN_X;
use crate::arena::GONE_MIN_Y;
use crate::arena::SPAWN_MAX_X;
use crate::arena::SPAWN_MAX_Y;
use crate::arena::SPAWN_MIN_X;
use crate::arena::SPAWN_MIN_Y;
use crate::arena::SPAWN_OFFSET;
use crate::host::DrawCommand;
use crate::host::Tone;
use crate::host::TONE_TRIANGLE;
use crate::rng::rng_i32_between;
use crate::rng::rng_u8_below;
use crate::sprites;

verus! {

/// The largest speed a projectile is ever given. The difficulty table
/// tops out well below this; the bound keeps all position and frequency
/// arithmetic inside machine integers.
pub const MAX_SPEED: i32 = 8;

/// The largest warning countdown a projectile is ever given.
pub const MAX_WARNING: i32 = 1000000;

#[derive(Clone, Copy, PartialEq, Eq, Structural, Debug)]
pub struct Ball {
    pub x: i32,
    pub y: i32,
    pub hspd: i32,
    pub vspd: i32,
    pub warning_time: i32,
    pub time_between_warning_shots: i32,
    pub is_gone: bool,
}

impl Ball {
    /// Well-formedness: strictly axial motion with a bounded speed, a
    /// positive pulse cadence, a nonnegative warning countdown, and —
    /// until the projectile is gone — a position inside the band the
    /// spawner and the gone checks allow.
    pub open spec fn wf(self) -> bool {
        &&& (self.hspd == 0) != (self.vspd == 0)
        &&& -MAX_SPEED <= self.hspd <= MAX_SPEED
        &&& -MAX_SPEED <= self.vspd <= MAX_SPEED
        &&& 1 <= self.time_between_warning_shots <= MAX_WARNING
        &&& 0 <= self.warning_time <= MAX_WARNING
        &&& !self.is_gone ==> {
            &&& -200 <= self.x <= 200
            &&& -200 <= self.y <= 200
            &&& self.hspd > 0 ==> self.x <= GONE_MAX_X
            &&& self.hspd < 0 ==> self.x >= GONE_MIN_X
            &&& self.vspd > 0 ==> self.y <= GONE_MAX_Y
            &&& self.vspd < 0 ==> self.y >= GONE_MIN_Y
        }
    }

    /// The projectile a spawn draw produces: `edge` picks one of the four
    /// sides (top, right, bottom, left in that order), `cross` is the
    /// drawn coordinate along that side, and the velocity points inward
    /// with magnitude `base_speed + bonus_speed`. The warning pulses
    /// every `max(1, warning_time / (2 + 2 * bonus_speed))` ticks, so
    /// higher-bonus projectiles pulse more often.
    pub open spec fn spawn_state(
        edge: int,
        cross: int,
        base_speed: int,
        bonus_speed: int,
        warning_time: int,
    ) -> Ball {
        let speed = base_speed + bonus_speed;
        let shots = 2 + 2 * bonus_speed;
        let tbws = if warning_time / shots >= 1 { warning_time / shots } else { 1 };
        if edge == 0 {
            Ball {
                x: cross as i32,
                y: (SPAWN_MIN_Y - SPAWN_OFFSET) as i32,
                hspd: 0,
                vspd: speed as i32,
                warning_time: warning_time as i32,
                time_between_warning_shots: tbws as i32,
                is_gone: false,
            }
        } else if edge == 1 {
            Ball {
                x: (SPAWN_MAX_X + SPAWN_OFFSET) as i32,
                y: cross as i32,
                hspd: (-speed) as i32,
                vspd: 0,
                warning_time: warning_time as i32,
                time_between_warning_shots: tbws as i32,
                is_gone: false,
            }
        } else if edge == 2 {
            Ball {
                x: cross as i32,
                y: (SPAWN_MAX_Y + SPAWN_OFFSET) as i32,
                hspd: 0,
                vspd: (-speed) as i32,
                warning_time: warning_time as i32,
                time_between_warning_shots: tbws as i32,
                is_gone: false,
            }
        } else {
            Ball {
                x: (SPAWN_MIN_X - SPAWN_OFFSET) as i32,
                y: cross as i32,
                hspd: speed as i32,
                vspd: 0,
                warning_time: warning_time as i32,
                time_between_warning_shots: tbws as i32,
                is_gone: false,
            }
        }
    }

    /// The spawn draws an edge below 4 and a cross coordinate uniform in
    /// the side's inner range.
    pub open spec fn valid_spawn(edge: int, cross: int) -> bool {
        &&& 0 <= edge < 4
        &&& if edge == 0 || edge == 2 {
            SPAWN_MIN_X <= cross <= SPAWN_MAX_X
        } else {
            SPAWN_MIN_Y <= cross <= SPAWN_MAX_Y
        }
    }

    /// The projectile after one tick: a positive warning countdown only
    /// decrements, with the position frozen; once the countdown is spent
    /// the position advances by the velocity, and crossing the outer
    /// bound in the direction of travel makes the projectile gone.
    pub open spec fn stepped(self) -> Ball {
        if self.warning_time > 0 {
            Ball { warning_time: (self.warning_time - 1) as i32, ..self }
        } else {
            let nx = (self.x + self.hspd) as i32;
            let ny = (self.y + self.vspd) as i32;
            let gone = (self.hspd < 0 && nx < GONE_MIN_X) || (self.hspd > 0 && nx > GONE_MAX_X)
                || (self.vspd < 0 && ny < GONE_MIN_Y) || (self.vspd > 0 && ny > GONE_MAX_Y);
            Ball { x: nx, y: ny, is_gone: self.is_gone || gone, ..self }
        }
    }

    /// The projectile after `n` ticks.
    pub open spec fn stepped_n(self, n: nat) -> Ball
        decreases n,
    {
        if n == 0 {
            self
        } else {
            self.stepped_n((n - 1) as nat).stepped()
        }
    }

    /// The pitch of this projectile's warning pulses, derived from its
    /// direction and speed.
    pub open spec fn freq(self) -> u32 {
        (700 + self.hspd * 25 + self.vspd * 75) as u32
    }

    /// The short pulse heard on the warning cadence.
    pub open spec fn short_pulse(self) -> Tone {
        Tone { frequency: self.freq(), duration: 4u32 | (4u32 << 8u32), volume: 30, flags: TONE_TRIANGLE }
    }

    /// The longer, louder pulse heard as the warning expires.
    pub open spec fn long_pulse(self) -> Tone {
        Tone { frequency: self.freq(), duration: 12u32 | (4u32 << 8u32), volume: 60, flags: TONE_TRIANGLE }
    }

    /// The tones one tick emits: in the warning state, the short pulse
    /// whenever the countdown sits on its cadence, then the long pulse as
    /// the countdown reaches zero; nothing once active.
    pub open spec fn step_tones(self) -> Seq<Tone> {
        if self.warning_time > 0 {
            let base = if self.warning_time % self.time_between_warning_shots == 0 {
                seq![self.short_pulse()]
            } else {
                Seq::<Tone>::empty()
            };
            if self.warning_time == 1 {
                base + seq![self.long_pulse()]
            } else {
                base
            }
        } else {
            Seq::<Tone>::empty()
        }
    }

    /// Whether a position lies inside this projectile's collision box: a
    /// rectangle around its position, wider (within 8) than tall (within
    /// 3) to match the sprite silhouettes.
    pub open spec fn collides(self, x: int, y: int) -> bool {
        -7 <= self.x - x <= 7 && -2 <= self.y - y <= 2
    }

    /// What drawing this projectile issues: nothing while gone; the
    /// projectile glyph once active; in the warning state, the warning
    /// glyph for its travel axis, and only during the tail of each pulse
    /// period, which makes the telegraph blink.
    pub open spec fn draw_cmds(self) -> Seq<DrawCommand> {
        if self.is_gone {
            Seq::<DrawCommand>::empty()
        } else if self.warning_time == 0 {
            sprites::ball::cmds(self.x, self.y)
        } else if (self.warning_time % self.time_between_warning_shots) * 2
            >= self.time_between_warning_shots - 2 {
            if self.hspd == 0 {
                sprites::warning_horizontal::cmds(self.x, self.y)
            } else {
                sprites::warning_vertical::cmds(self.x, self.y)
            }
        } else {
            Seq::<DrawCommand>::empty()
        }
    }

    /// Build the projectile a spawn draw describes. This is the whole
    /// spawn except the draws themselves, so every field is pinned.
    pub fn at_edge(
        edge: u8,
        cross: i32,
        base_speed: i32,
        bonus_speed: i32,
        warning_time: i32,
    ) -> (b: Ball)
        requires
            Ball::valid_spawn(edge as int, cross as int),
            1 <= base_speed,
            0 <= bonus_speed,
            base_speed + bonus_speed <= MAX_SPEED,
            0 <= warning_time <= MAX_WARNING,
        ensures
            b == Ball::spawn_state(
                edge as int,
                cross as int,
                base_speed as int,
                bonus_speed as int,
                warning_time as int,
            ),
            b.wf(),
            !b.is_gone,
            b.warning_time == warning_time,
    {
        let speed = base_speed + bonus_speed;
        let num_warning_shots = 2 + 2 * bonus_speed;
        let quotient = warning_time / num_warning_shots;
        let time_between_warning_shots = if quotient >= 1 { quotient } else { 1 };

        if edge == 0 {
            Ball {
                x: cross,
                y: SPAWN_MIN_Y - SPAWN_OFFSET,
                hspd: 0,
                vspd: speed,
                warning_time,
                time_between_warning_shots,
                is_gone: false,
            }
        } else if edge == 1 {
            Ball {
                x: SPAWN_MAX_X + SPAWN_OFFSET,
                y: cross,
                hspd: -speed,
                vspd: 0,
                warning_time,
                time_between_warning_shots,
                is_gone: false,
            }
        } else if edge == 2 {
            Ball {
                x: cross,
                y: SPAWN_MAX_Y + SPAWN_OFFSET,
                hspd: 0,
                vspd: -speed,
                warning_time,
                time_between_warning_shots,
                is_gone: false,
            }
        } else {
            Ball {
                x: SPAWN_MIN_X - SPAWN_OFFSET,
                y: cross,
                hspd: speed,
                vspd: 0,
                warning_time,
                time_between_warning_shots,
                is_gone: false,
            }
        }
    }

    /// Spawn a projectile: draw one of the four edges uniformly, then the
    /// cross coordinate uniform within the side's inner range, and place
    /// the projectile just outside that edge heading inward.
    pub fn new(
        base_speed: i32,
        bonus_speed: i32,
        warning_time: i32,
        rng: &mut fastrand::Rng,
    ) -> (b: Ball)
        requires
            1 <= base_speed,
            0 <= bonus_speed,
            base_speed + bonus_speed <= MAX_SPEED,
            0 <= warning_time <= MAX_WARNING,
        ensures
            b.wf(),
            !b.is_gone,
            b.warning_time == warning_time,
            exists|edge: int, cross: int|
                Ball::valid_spawn(edge, cross) && b == #[trigger] Ball::spawn_state(
                    edge,
                    cross,
                    base_speed as int,
                    bonus_speed as int,
                    warning_time as int,
                ),
    {
        let edge = rng_u8_below(rng, 4);
        let cross = if edge == 0 || edge == 2 {
            rng_i32_between(rng, SPAWN_MIN_X, SPAWN_MAX_X)
        } else {
            rng_i32_between(rng, SPAWN_MIN_Y, SPAWN_MAX_Y)
        };
        let b = Self::at_edge(edge, cross, base_speed, bonus_speed, warning_time);
        proof {
            assert(Ball::valid_spawn(edge as int, cross as int) && b == Ball::spawn_state(
                edge as int,
                cross as int,
                base_speed as int,
                bonus_speed as int,
                warning_time as int,
            ));
        }
        b
    }

    /// One tick of the projectile's state machine, returning the tones
    /// it emits. Gone projectiles are removed before the next tick, so
    /// one is never updated.
    pub fn update(&mut self) -> (tones: Vec<Tone>)
        requires
            old(self).wf(),
            !old(self).is_gone,
        ensures
            *final(self) == old(self).stepped(),
            tones@ == old(self).step_tones(),
            !final(self).is_gone ==> final(self).wf(),
    {
        let mut tones: Vec<Tone> = Vec::new();
        if self.warning_time > 0 {
            let freq = (700 + self.hspd * 25 + self.vspd * 75) as u32;
            if self.warning_time % self.time_between_warning_shots == 0 {
                tones.push(Tone {
                    frequency: freq,
                    duration: 4 | (4 << 8),
                    volume: 30,
                    flags: TONE_TRIANGLE,
                });
            }
            self.warning_time = self.warning_time - 1;
            if self.warning_time == 0 {
                tones.push(Tone {
                    frequency: freq,
                    duration: 12 | (4 << 8),
                    volume: 60,
                    flags: TONE_TRIANGLE,
                });
            }
            assert(tones@ =~= old(self).step_tones());
            return tones;
        }

        self.x = self.x + self.hspd;
        self.y = self.y + self.vspd;

        if (self.hspd < 0 && self.x < GONE_MIN_X) || (self.hspd > 0 && self.x > GONE_MAX_X)
            || (self.vspd < 0 && self.y < GONE_MIN_Y) || (self.vspd > 0 && self.y > GONE_MAX_Y) {
            self.is_gone = true;
        }
        assert(tones@ =~= old(self).step_tones());
        tones
    }

    /// The draw calls this projectile issues this frame.
    pub fn draw(&self) -> (cmds: Vec<DrawCommand>)
        requires
            self.wf(),
        ensures
            cmds@ == self.draw_cmds(),
    {
        if self.is_gone {
            let empty: Vec<DrawCommand> = Vec::new();
            assert(empty@ =~= self.draw_cmds());
            empty
        } else if self.warning_time == 0 {
            sprites::ball::draw(self.x, self.y)
        } else if (self.warning_time % self.time_between_warning_shots) * 2
            >= self.time_between_warning_shots - 2 {
            if self.hspd == 0 {
                sprites::warning_horizontal::draw(self.x, self.y)
            } else {
                sprites::warning_vertical::draw(self.x, self.y)
            }
        } else {
            let empty: Vec<DrawCommand> = Vec::new();
            assert(empty@ =~= self.draw_cmds());
            empty
        }
    }

    /// Whether the avatar position `(x, y)` lies inside the collision
    /// box. The bounds only keep the differences representable.
    pub fn detect_collision(&self, x: i32, y: i32) -> (r: bool)
        requires
            i32::MIN < self.x - x <= i32::MAX,
            i32::MIN < self.y - y <= i32::MAX,
        ensures
            r == self.collides(x as int, y as int),
    {
        let dx = self.x - x;
        let dy = self.y - y;
        (if dx < 0 { -dx } else { dx }) < 8 && (if dy < 0 { -dy } else { dy }) < 3
    }
}

/// A projectile in the warning state never changes position: for the
/// first `warning_time` ticks after creation only the countdown moves,
/// and the countdown reaches exactly zero — the projectile first becomes
/// active — `warning_time` ticks in.
pub proof fn lemma_warning_freezes(b: Ball, n: nat)
    requires
        n <= b.warning_time,
    ensures
        b.stepped_n(n).x == b.x,
        b.stepped_n(n).y == b.y,
        b.stepped_n(n).warning_time == b.warning_time - n,
        b.stepped_n(n).is_gone == b.is_gone,
    decreases n,
{
    if n > 0 {
        lemma_warning_freezes(b, (n - 1) as nat);
    }
}

/// Strict axiality is invariant: a projectile's velocity never changes
/// at all, so exactly one axis component is nonzero at every tick if it
/// is at creation.
pub proof fn lemma_axial_invariant(b: Ball, n: nat)
    ensures
        b.stepped_n(n).hspd == b.hspd,
        b.stepped_n(n).vspd == b.vspd,
        ((b.hspd == 0) != (b.vspd == 0)) ==> ((b.stepped_n(n).hspd == 0) != (b.stepped_n(n).vspd
            == 0)),
    decreases n,
{
    if n > 0 {
        lemma_axial_invariant(b, (n - 1) as nat);
    }
}

} // verus!
