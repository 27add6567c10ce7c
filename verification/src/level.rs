//! The level: the avatar, the projectile collection in spawn order, the
//! score and tick counters, and the spawner's difficulty state. Each tick
//! the avatar moves, every projectile advances, gone projectiles are
//! counted into the score and removed, collisions kill the avatar, and
//! the spawner decides — partly at random — when and how hard the next
//! projectile comes. After a death the arena drains; once it is empty the
//! restart button starts a fresh run on the same generator.
use vstd::prelude::*;

use crate::arena::BANNER_HEIGHT;
use crate::arena::PADDING_SIZE;
use crate::avatar::LittleGuy;
use crate::ball::Ball;
use crate::host::held;
use crate::host::DrawCommand;
use crate::host::Tone;
use crate::host::BUTTON_1;
use crate::host::SCREEN_SIZE;
use crate::host::TONE_NOISE;
use crate::host::TONE_PULSE1;
use crate::rng::rng_bool;
use crate::rng::rng_i32_between;
use crate::rng::rng_with_seed;

verus! {

/// The spawn interval a fresh level starts with, in ticks.
pub const INITIAL_TIME_BETWEEN_BALLS: i32 = 90;

pub struct Level {
    pub rng: fastrand::Rng,
    pub little_guy: LittleGuy,
    pub balls: Vec<Ball>,
    pub score: i32,
    pub ticks: i32,
    pub time_until_next_ball: i32,
    pub time_between_balls: i32,
}

impl Level {
    /// Well-formedness, preserved by every tick: the projectiles are all
    /// well-formed and not yet gone; the counters are nonnegative; the
    /// score plus the live projectile count never exceeds the tick count
    /// (each tick scores at most the one projectile it spawned); the
    /// spawn interval only tightens from its initial value, by at most
    /// two per tick; and the avatar has moved at most one pixel per tick
    /// from its spawn point.
    pub open spec fn wf(self) -> bool {
        &&& forall|i: int|
            0 <= i < self.balls@.len() ==> (#[trigger] self.balls@[i]).wf()
                && !self.balls@[i].is_gone
        &&& 0 <= self.ticks
        &&& 0 <= self.score
        &&& self.score + self.balls@.len() <= self.ticks
        &&& 0 <= self.time_until_next_ball <= INITIAL_TIME_BETWEEN_BALLS
        &&& self.time_between_balls <= INITIAL_TIME_BETWEEN_BALLS
        &&& INITIAL_TIME_BETWEEN_BALLS - 2 - 2 * self.ticks <= self.time_between_balls
        &&& if !self.little_guy.is_dead {
            &&& 80 - self.ticks <= self.little_guy.x <= 80 + self.ticks
            &&& 120 - self.ticks <= self.little_guy.y <= 120 + self.ticks
        } else {
            // The move that carried the avatar out of bounds is not
            // followed by a tick, so a dead avatar may sit one further
            // pixel out.
            &&& 80 - self.ticks - 1 <= self.little_guy.x <= 80 + self.ticks + 1
            &&& 120 - self.ticks - 1 <= self.little_guy.y <= 120 + self.ticks + 1
        }
    }

    /// The speed bracket the difficulty table gives after `ticks` ticks:
    /// the base speed, and the range the optional bonus is drawn from.
    /// The thresholds are seconds of survival at sixty ticks a second.
    pub open spec fn difficulty(ticks: int) -> (int, int, int) {
        if ticks > 150 * 60 {
            (5, 0, 0)
        } else if ticks > 120 * 60 {
            (3, 0, 0)
        } else if ticks > 90 * 60 {
            (2, 1, 1)
        } else if ticks > 75 * 60 {
            (2, 0, 1)
        } else if ticks > 60 * 60 {
            (2, 0, 0)
        } else if ticks > 30 * 60 {
            (1, 1, 1)
        } else if ticks > 10 * 60 {
            (1, 0, 1)
        } else {
            (1, 0, 0)
        }
    }

    /// The warning a new projectile gets: three quarters of the current
    /// spawn interval, floored at five ticks.
    pub open spec fn spawn_warning(tbb: int) -> int {
        if tbb >= 8 {
            tbb * 3 / 4
        } else {
            5
        }
    }

    /// What the spawner may produce: some edge and cross draw, with the
    /// bracket's base speed, a bonus that is either zero or within the
    /// bracket's bonus range, and the interval-derived warning.
    pub open spec fn spawn_ok(b: Ball, ticks: int, tbb: int) -> bool {
        exists|edge: int, cross: int, bonus: int|
            {
                &&& Ball::valid_spawn(edge, cross)
                &&& bonus == 0 || Self::difficulty(ticks).1 <= bonus <= Self::difficulty(ticks).2
                &&& b == #[trigger] Ball::spawn_state(
                    edge,
                    cross,
                    Self::difficulty(ticks).0,
                    bonus,
                    Self::spawn_warning(tbb),
                )
            }
    }

    /// How the spawn interval may tighten after a spawn: by two while it
    /// is high, by one in a middle band, and below that by at most one,
    /// with a probability that shrinks as the interval approaches its
    /// floor.
    pub open spec fn tbb_next_ok(tbb: int, next: int) -> bool {
        if tbb > 70 {
            next == tbb - 2
        } else if tbb > 45 {
            next == tbb - 1
        } else {
            next == tbb - 1 || next == tbb
        }
    }

    /// The projectiles that remain after every projectile advances one
    /// tick: the stepped projectiles that are not gone, in order.
    pub open spec fn survivors(bs: Seq<Ball>) -> Seq<Ball>
        decreases bs.len(),
    {
        if bs.len() == 0 {
            Seq::<Ball>::empty()
        } else {
            let rest = Self::survivors(bs.drop_last());
            let nb = bs.last().stepped();
            if nb.is_gone {
                rest
            } else {
                rest.push(nb)
            }
        }
    }

    /// How many projectiles go gone when every projectile advances one
    /// tick.
    pub open spec fn gone_count(bs: Seq<Ball>) -> int
        decreases bs.len(),
    {
        if bs.len() == 0 {
            0int
        } else {
            Self::gone_count(bs.drop_last()) + if bs.last().stepped().is_gone {
                1int
            } else {
                0int
            }
        }
    }

    /// The warning tones the projectiles emit this tick, in spawn order.
    pub open spec fn update_tones(bs: Seq<Ball>) -> Seq<Tone>
        decreases bs.len(),
    {
        if bs.len() == 0 {
            Seq::<Tone>::empty()
        } else {
            Self::update_tones(bs.drop_last()) + bs.last().step_tones()
        }
    }

    /// Whether any projectile's collision box holds the position.
    pub open spec fn hit_any(bs: Seq<Ball>, x: int, y: int) -> bool
        decreases bs.len(),
    {
        if bs.len() == 0 {
            false
        } else {
            Self::hit_any(bs.drop_last(), x, y) || bs.last().collides(x, y)
        }
    }

    /// The first of the two tones a collision sounds.
    pub open spec fn hit_tone_a() -> Tone {
        Tone { frequency: 250, duration: 5u32 | (10u32 << 8u32), volume: 100, flags: TONE_NOISE }
    }

    /// The second of the two tones a collision sounds.
    pub open spec fn hit_tone_b() -> Tone {
        Tone { frequency: 10, duration: 20u32 | (80u32 << 8u32), volume: 100, flags: TONE_PULSE1 }
    }

    /// The collision tones: two for every projectile whose box holds the
    /// avatar, in spawn order.
    pub open spec fn collision_tones(bs: Seq<Ball>, x: int, y: int) -> Seq<Tone>
        decreases bs.len(),
    {
        if bs.len() == 0 {
            Seq::<Tone>::empty()
        } else {
            Self::collision_tones(bs.drop_last(), x, y) + if bs.last().collides(x, y) {
                seq![Self::hit_tone_a(), Self::hit_tone_b()]
            } else {
                Seq::<Tone>::empty()
            }
        }
    }

    /// Every tone one tick emits: each projectile's warning pulses in
    /// order, then — if the avatar survived its own move — two tones per
    /// projectile that hit it.
    pub open spec fn level_tones(pre: Level, gamepad: u8) -> Seq<Tone> {
        let a1 = pre.little_guy.stepped(gamepad);
        if !a1.is_dead {
            Self::update_tones(pre.balls@) + Self::collision_tones(
                Self::survivors(pre.balls@),
                a1.x as int,
                a1.y as int,
            )
        } else {
            Self::update_tones(pre.balls@)
        }
    }

    /// How one tick relates the level before to the level after. The
    /// avatar's move and every projectile's advance are deterministic;
    /// the spawner's draws are not, so a spawned projectile and the
    /// interval tightening are constrained, not pinned.
    ///
    /// While the avatar survives its own move: gone projectiles are
    /// scored and removed, any collision kills the avatar (the tick still
    /// counts), and the spawner runs. Once dead, nothing changes except
    /// the projectiles draining away — until the arena is empty, when the
    /// restart button resets everything but the generator.
    pub open spec fn step_rel(pre: Level, post: Level, gamepad: u8) -> bool {
        let a1 = pre.little_guy.stepped(gamepad);
        let surv = Self::survivors(pre.balls@);
        let was_hit = Self::hit_any(surv, a1.x as int, a1.y as int);
        if !a1.is_dead {
            &&& post.little_guy == if was_hit {
                a1.killed()
            } else {
                a1
            }
            &&& post.ticks == pre.ticks + 1
            &&& post.score == pre.score + Self::gone_count(pre.balls@)
            &&& if pre.time_until_next_ball <= 0 {
                &&& post.balls@.len() == surv.len() + 1
                &&& post.balls@.subrange(0, surv.len() as int) == surv
                &&& Self::spawn_ok(post.balls@.last(), pre.ticks + 1, pre.time_between_balls as int)
                &&& post.time_until_next_ball == if pre.time_between_balls > 1 {
                    pre.time_between_balls
                } else {
                    1
                }
                &&& Self::tbb_next_ok(pre.time_between_balls as int, post.time_between_balls as int)
            } else {
                &&& post.balls@ == surv
                &&& post.time_until_next_ball == pre.time_until_next_ball - 1
                &&& post.time_between_balls == pre.time_between_balls
            }
        } else if surv.len() == 0 {
            &&& post.balls@ == surv
            &&& if held(gamepad, BUTTON_1) {
                &&& post.little_guy == LittleGuy::initial()
                &&& post.score == 0
                &&& post.ticks == 0
                &&& post.time_until_next_ball == 0
                &&& post.time_between_balls == INITIAL_TIME_BETWEEN_BALLS
            } else {
                &&& post.little_guy == a1
                &&& post.score == pre.score
                &&& post.ticks == pre.ticks
                &&& post.time_until_next_ball == pre.time_until_next_ball
                &&& post.time_between_balls == pre.time_between_balls
            }
        } else {
            &&& post.little_guy == a1
            &&& post.balls@ == surv
            &&& post.score == pre.score
            &&& post.ticks == pre.ticks
            &&& post.time_until_next_ball == pre.time_until_next_ball
            &&& post.time_between_balls == pre.time_between_balls
        }
    }

    /// A fresh level on a seeded generator.
    pub fn new(rng_seed: u64) -> (l: Level)
        ensures
            l.little_guy == LittleGuy::initial(),
            l.balls@ == Seq::<Ball>::empty(),
            l.score == 0,
            l.ticks == 0,
            l.time_until_next_ball == 0,
            l.time_between_balls == INITIAL_TIME_BETWEEN_BALLS,
            l.wf(),
    {
        let l = Level {
            rng: rng_with_seed(rng_seed),
            little_guy: LittleGuy::new(),
            balls: Vec::new(),
            score: 0,
            ticks: 0,
            time_until_next_ball: 0,
            time_between_balls: INITIAL_TIME_BETWEEN_BALLS,
        };
        assert(l.balls@ =~= Seq::<Ball>::empty());
        l
    }

    /// The difficulty table as executable code.
    pub fn difficulty_for(ticks: i32) -> (r: (i32, i32, i32))
        ensures
            r.0 as int == Self::difficulty(ticks as int).0,
            r.1 as int == Self::difficulty(ticks as int).1,
            r.2 as int == Self::difficulty(ticks as int).2,
    {
        if ticks > 150 * 60 {
            (5, 0, 0)
        } else if ticks > 120 * 60 {
            (3, 0, 0)
        } else if ticks > 90 * 60 {
            (2, 1, 1)
        } else if ticks > 75 * 60 {
            (2, 0, 1)
        } else if ticks > 60 * 60 {
            (2, 0, 0)
        } else if ticks > 30 * 60 {
            (1, 1, 1)
        } else if ticks > 10 * 60 {
            (1, 0, 1)
        } else {
            (1, 0, 0)
        }
    }

    /// One tick of the whole level, returning the tones to play. The
    /// tick bound only keeps a year-scale run's arithmetic inside machine
    /// integers.
    #[verifier::rlimit(60)]
    pub fn update(&mut self, gamepad: u8) -> (tones: Vec<Tone>)
        requires
            old(self).wf(),
            old(self).ticks < 1000000000,
        ensures
            final(self).wf(),
            Level::step_rel(*old(self), *final(self), gamepad),
            tones@ == Level::level_tones(*old(self), gamepad),
    {
        let ghost pre: Level = *self;

        self.little_guy.update(gamepad);
        let ghost a1 = pre.little_guy.stepped(gamepad);
        proof {
            assert(pre.little_guy.x - 1 <= a1.x <= pre.little_guy.x + 1);
            assert(pre.little_guy.y - 1 <= a1.y <= pre.little_guy.y + 1);
        }

        let mut new_balls: Vec<Ball> = Vec::new();
        let mut num_gone: usize = 0;
        let mut tones: Vec<Tone> = Vec::new();
        let n = self.balls.len();
        let mut i: usize = 0;
        while i < n
            invariant
                i <= n,
                n == pre.balls@.len(),
                self.balls@ == pre.balls@,
                pre.wf(),
                new_balls@ == Level::survivors(pre.balls@.take(i as int)),
                num_gone == Level::gone_count(pre.balls@.take(i as int)),
                num_gone + new_balls@.len() == i,
                tones@ == Level::update_tones(pre.balls@.take(i as int)),
                forall|j: int|
                    0 <= j < new_balls@.len() ==> (#[trigger] new_balls@[j]).wf()
                        && !new_balls@[j].is_gone,
            decreases n - i,
        {
            proof {
                assert(pre.balls@.take(i + 1).drop_last() =~= pre.balls@.take(i as int));
                assert(pre.balls@.take(i + 1).last() == pre.balls@[i as int]);
            }
            let mut b = self.balls[i];
            let mut t = b.update();
            tones.append(&mut t);
            if b.is_gone {
                num_gone = num_gone + 1;
            } else {
                new_balls.push(b);
            }
            i = i + 1;
        }
        proof {
            assert(pre.balls@.take(n as int) =~= pre.balls@);
        }
        self.balls = new_balls;

        if self.little_guy.is_alive() {
            let px = self.little_guy.x;
            let py = self.little_guy.y;
            let m = self.balls.len();
            let mut j: usize = 0;
            while j < m
                invariant
                    j <= m,
                    m == self.balls@.len(),
                    self.balls@ == Level::survivors(pre.balls@),
                    pre.wf(),
                    pre.ticks < 1000000000,
                    !a1.is_dead,
                    a1 == pre.little_guy.stepped(gamepad),
                    px == a1.x,
                    py == a1.y,
                    -1100000000 <= px <= 1100000000,
                    -1100000000 <= py <= 1100000000,
                    forall|k: int|
                        0 <= k < self.balls@.len() ==> (#[trigger] self.balls@[k]).wf()
                            && !self.balls@[k].is_gone,
                    self.little_guy == if Level::hit_any(
                        self.balls@.take(j as int),
                        a1.x as int,
                        a1.y as int,
                    ) {
                        a1.killed()
                    } else {
                        a1
                    },
                    tones@ == Level::update_tones(pre.balls@) + Level::collision_tones(
                        self.balls@.take(j as int),
                        a1.x as int,
                        a1.y as int,
                    ),
                    self.score == pre.score,
                    self.ticks == pre.ticks,
                    self.time_until_next_ball == pre.time_until_next_ball,
                    self.time_between_balls == pre.time_between_balls,
                decreases m - j,
            {
                proof {
                    assert(self.balls@.take(j + 1).drop_last() =~= self.balls@.take(j as int));
                    assert(self.balls@.take(j + 1).last() == self.balls@[j as int]);
                }
                let b = self.balls[j];
                if b.detect_collision(px, py) {
                    self.little_guy.kill();
                    tones.push(Tone {
                        frequency: 250,
                        duration: 5 | (10 << 8),
                        volume: 100,
                        flags: TONE_NOISE,
                    });
                    tones.push(Tone {
                        frequency: 10,
                        duration: 20 | (80 << 8),
                        volume: 100,
                        flags: TONE_PULSE1,
                    });
                }
                j = j + 1;
            }
            proof {
                assert(self.balls@.take(m as int) =~= self.balls@);
            }

            self.ticks = self.ticks + 1;
            self.score = self.score + num_gone as i32;

            if self.time_until_next_ball <= 0 {
                let bracket = Self::difficulty_for(self.ticks);
                let bonus_speed = if rng_bool(&mut self.rng) {
                    rng_i32_between(&mut self.rng, bracket.1, bracket.2)
                } else {
                    0
                };
                let three_quarters = if self.time_between_balls >= 8 {
                    self.time_between_balls * 3 / 4
                } else {
                    0
                };
                let warning_time = if three_quarters > 5 {
                    three_quarters
                } else {
                    5
                };
                let ball = Ball::new(bracket.0, bonus_speed, warning_time, &mut self.rng);
                proof {
                    let (edge, cross) = choose|edge: int, cross: int|
                        Ball::valid_spawn(edge, cross) && ball == #[trigger] Ball::spawn_state(
                            edge,
                            cross,
                            bracket.0 as int,
                            bonus_speed as int,
                            warning_time as int,
                        );
                    assert(Ball::valid_spawn(edge, cross) && ball == Ball::spawn_state(
                        edge,
                        cross,
                        Level::difficulty(pre.ticks + 1).0,
                        bonus_speed as int,
                        Level::spawn_warning(pre.time_between_balls as int),
                    ));
                }
                self.balls.push(ball);
                assert(Level::spawn_ok(
                    self.balls@.last(),
                    pre.ticks + 1,
                    pre.time_between_balls as int,
                ));
                self.time_until_next_ball = if self.time_between_balls > 1 {
                    self.time_between_balls
                } else {
                    1
                };
                if self.time_between_balls > 70 {
                    self.time_between_balls = self.time_between_balls - 2;
                } else if self.time_between_balls > 45 {
                    self.time_between_balls = self.time_between_balls - 1;
                } else if self.time_between_balls > 30 && rng_bool(&mut self.rng) {
                    self.time_between_balls = self.time_between_balls - 1;
                } else if self.time_between_balls > 20 && rng_i32_between(&mut self.rng, 0, 3)
                    == 0 {
                    self.time_between_balls = self.time_between_balls - 1;
                } else if self.time_between_balls > 10 && rng_i32_between(&mut self.rng, 0, 9)
                    == 0 {
                    self.time_between_balls = self.time_between_balls - 1;
                } else if rng_i32_between(&mut self.rng, 0, 99) == 0 {
                    self.time_between_balls = self.time_between_balls - 1;
                }
                proof {
                    assert(self.balls@.subrange(0, Level::survivors(pre.balls@).len() as int)
                        =~= Level::survivors(pre.balls@));
                }
            } else {
                self.time_until_next_ball = self.time_until_next_ball - 1;
            }
        } else if self.balls.len() == 0 {
            if gamepad & BUTTON_1 != 0 {
                self.restart();
            }
        }
        proof {
            assert(tones@ =~= Level::level_tones(pre, gamepad));
        }
        tones
    }

    /// Reset everything but the generator for a fresh run.
    fn restart(&mut self)
        ensures
            final(self).little_guy == LittleGuy::initial(),
            final(self).balls == old(self).balls,
            final(self).score == 0,
            final(self).ticks == 0,
            final(self).time_until_next_ball == 0,
            final(self).time_between_balls == INITIAL_TIME_BETWEEN_BALLS,
    {
        self.little_guy = LittleGuy::new();
        self.score = 0;
        self.ticks = 0;
        self.time_until_next_ball = 0;
        self.time_between_balls = INITIAL_TIME_BETWEEN_BALLS;
    }

    /// The commands that draw the banner readouts.
    pub open spec fn hud_cmds(self) -> Seq<DrawCommand> {
        seq![
            DrawCommand::SetPalette,
            DrawCommand::SetDrawColors(4),
            DrawCommand::HudTime {
                seconds: (self.ticks / 60) as i32,
                tenths: ((self.ticks / 6) % 10) as i32,
                x: 5,
                y: 5,
            },
            DrawCommand::HudScore { score: self.score, x: 90, y: 5 },
        ]
    }

    /// The commands of the projectiles drawn behind the avatar: those
    /// strictly above it on the depth axis, in spawn order.
    pub open spec fn draw_behind(bs: Seq<Ball>, gy: int) -> Seq<DrawCommand>
        decreases bs.len(),
    {
        if bs.len() == 0 {
            Seq::<DrawCommand>::empty()
        } else {
            Self::draw_behind(bs.drop_last(), gy) + if bs.last().y < gy {
                bs.last().draw_cmds()
            } else {
                Seq::<DrawCommand>::empty()
            }
        }
    }

    /// The commands of the projectiles drawn in front of the avatar: the
    /// rest, the avatar winning ties at equal depth.
    pub open spec fn draw_in_front(bs: Seq<Ball>, gy: int) -> Seq<DrawCommand>
        decreases bs.len(),
    {
        if bs.len() == 0 {
            Seq::<DrawCommand>::empty()
        } else {
            Self::draw_in_front(bs.drop_last(), gy) + if bs.last().y >= gy {
                bs.last().draw_cmds()
            } else {
                Seq::<DrawCommand>::empty()
            }
        }
    }

    /// Everything one frame draws: the banner readouts; then, once the
    /// run has fully ended, the restart prompt alone, and otherwise the
    /// arena border and the projectiles and avatar layered by depth.
    pub open spec fn frame_cmds(self) -> Seq<DrawCommand> {
        if self.little_guy.is_dead && self.balls@.len() == 0 {
            self.hud_cmds() + seq![DrawCommand::RestartPrompt { x: 10, y: 140 }]
        } else {
            self.hud_cmds() + seq![
                DrawCommand::SetDrawColors(0x40),
                DrawCommand::ArenaBorder {
                    x: PADDING_SIZE,
                    y: (BANNER_HEIGHT + PADDING_SIZE) as i32,
                    width: (SCREEN_SIZE - 2 * PADDING_SIZE) as i32,
                    height: (SCREEN_SIZE - BANNER_HEIGHT - 2 * PADDING_SIZE) as i32,
                },
            ] + Self::draw_behind(self.balls@, self.little_guy.y as int) + seq![
                DrawCommand::AvatarSprite {
                    pose: self.little_guy.sprite.pose,
                    phase: self.little_guy.sprite.phase,
                    x: self.little_guy.x,
                    y: self.little_guy.y,
                },
            ] + Self::draw_in_front(self.balls@, self.little_guy.y as int)
        }
    }

    /// Issue one frame's draw commands, in order.
    pub fn draw(&mut self) -> (cmds: Vec<DrawCommand>)
        requires
            old(self).wf(),
        ensures
            *final(self) == *old(self),
            cmds@ == old(self).frame_cmds(),
    {
        let mut cmds: Vec<DrawCommand> = Vec::new();
        cmds.push(DrawCommand::SetPalette);
        cmds.push(DrawCommand::SetDrawColors(4));
        let seconds = self.ticks / 60;
        let frac = (self.ticks / 6) % 10;
        cmds.push(DrawCommand::HudTime { seconds, tenths: frac, x: 5, y: 5 });
        cmds.push(DrawCommand::HudScore { score: self.score, x: 90, y: 5 });

        if !self.little_guy.is_alive() && self.balls.len() == 0 {
            cmds.push(DrawCommand::RestartPrompt { x: 10, y: 140 });
            assert(cmds@ =~= self.frame_cmds());
            return cmds;
        }

        cmds.push(DrawCommand::SetDrawColors(0x40));
        cmds.push(DrawCommand::ArenaBorder {
            x: PADDING_SIZE,
            y: BANNER_HEIGHT + PADDING_SIZE,
            width: SCREEN_SIZE - 2 * PADDING_SIZE,
            height: SCREEN_SIZE - BANNER_HEIGHT - 2 * PADDING_SIZE,
        });

        let ghost head = cmds@;
        let gy = self.little_guy.y;
        let n = self.balls.len();
        let mut i: usize = 0;
        while i < n
            invariant
                i <= n,
                n == self.balls@.len(),
                gy == self.little_guy.y,
                forall|k: int| 0 <= k < self.balls@.len() ==> (#[trigger] self.balls@[k]).wf(),
                cmds@ == head + Level::draw_behind(self.balls@.take(i as int), gy as int),
            decreases n - i,
        {
            proof {
                assert(self.balls@.take(i + 1).drop_last() =~= self.balls@.take(i as int));
                assert(self.balls@.take(i + 1).last() == self.balls@[i as int]);
            }
            let b = self.balls[i];
            if b.y < gy {
                let mut c = b.draw();
                cmds.append(&mut c);
            }
            i = i + 1;
        }
        proof {
            assert(self.balls@.take(n as int) =~= self.balls@);
        }

        let avatar_cmd = self.little_guy.draw();
        cmds.push(avatar_cmd);

        let ghost mid = cmds@;
        let mut i: usize = 0;
        while i < n
            invariant
                i <= n,
                n == self.balls@.len(),
                gy == self.little_guy.y,
                forall|k: int| 0 <= k < self.balls@.len() ==> (#[trigger] self.balls@[k]).wf(),
                cmds@ == mid + Level::draw_in_front(self.balls@.take(i as int), gy as int),
            decreases n - i,
        {
            proof {
                assert(self.balls@.take(i + 1).drop_last() =~= self.balls@.take(i as int));
                assert(self.balls@.take(i + 1).last() == self.balls@[i as int]);
            }
            let b = self.balls[i];
            if b.y >= gy {
                let mut c = b.draw();
                cmds.append(&mut c);
            }
            i = i + 1;
        }
        proof {
            assert(self.balls@.take(n as int) =~= self.balls@);
            assert(cmds@ =~= self.frame_cmds());
        }
        cmds
    }
}

} // verus!
