//! A small arcade dodging game: a player avatar moves inside a bordered
//! arena while projectiles fly across it along one axis each. The library
//! holds the whole simulation — avatar movement and death, projectile
//! warning phases and motion, the spawner's difficulty ramp, scoring and
//! restart — as verified code. Input arrives as a button bitmask and all
//! output (tones to play, shapes to draw) is returned as plain command
//! values, so a thin host shell can run the game on any backend.
use vstd::prelude::*;

pub mod arena;
pub mod avatar;
pub mod ball;
pub mod host;
pub mod laws;
pub mod level;
pub mod menu;
pub mod palette;
pub mod rng;
pub mod sprites;

verus! {

/// The scene on screen: the title menu, or a running level.
pub enum Game {
    Menu(menu::Menu),
    Level(level::Level),
}

/// One frame's worth of output: the tones to start and the draw calls to
/// issue, in order.
pub struct FrameOutput {
    pub tones: Vec<host::Tone>,
    pub draws: Vec<host::DrawCommand>,
}

/// What a frame needs of the scene it is handed: a menu whose seed
/// counter can still advance, or a level in its operating range.
pub open spec fn game_wf(g: Game) -> bool {
    match g {
        Game::Menu(m) => m.frames < u64::MAX,
        Game::Level(l) => l.wf() && l.ticks < 1000000000,
    }
}

/// How one frame relates the scene before to the scene after, with the
/// frame's output. A menu frame advances the seed counter and, on the
/// action button, replaces the scene with a fresh level seeded from that
/// counter; a level frame is one tick of the simulation. Either way the
/// frame draws the scene as it stands afterwards.
pub open spec fn frame_rel(pre: Game, post: Game, gamepad: u8, out: FrameOutput) -> bool {
    match pre {
        Game::Menu(m) => {
            if host::held(gamepad, host::BUTTON_1) {
                match post {
                    Game::Level(l) => {
                        &&& l.wf()
                        &&& l.little_guy == avatar::LittleGuy::initial()
                        &&& l.balls@ == Seq::<ball::Ball>::empty()
                        &&& l.score == 0
                        &&& l.ticks == 0
                        &&& l.time_until_next_ball == 0
                        &&& l.time_between_balls == level::INITIAL_TIME_BETWEEN_BALLS
                        &&& out.tones@ == Seq::<host::Tone>::empty()
                        &&& out.draws@ == l.frame_cmds()
                    },
                    Game::Menu(_) => false,
                }
            } else {
                match post {
                    Game::Menu(m2) => {
                        &&& m2.frames == m.frames + 1
                        &&& out.tones@ == Seq::<host::Tone>::empty()
                        &&& out.draws@ == m2.frame_cmds()
                    },
                    Game::Level(_) => false,
                }
            }
        },
        Game::Level(l) => match post {
            Game::Level(l2) => {
                &&& level::Level::step_rel(l, l2, gamepad)
                &&& l2.wf()
                &&& out.tones@ == level::Level::level_tones(l, gamepad)
                &&& out.draws@ == l2.frame_cmds()
            },
            Game::Menu(_) => false,
        },
    }
}

/// One frame: dispatch the update to the scene on hand, replace the
/// scene on a menu-to-level transition, and draw whichever scene now
/// stands. The caller owns the scene cell and writes the returned scene
/// back; nothing here touches the host.
pub fn update(game: Game, gamepad: u8) -> (r: (Game, FrameOutput))
    requires
        game_wf(game),
    ensures
        frame_rel(game, r.0, gamepad, r.1),
{
    let (mid, tones): (Game, Vec<host::Tone>) = match game {
        Game::Menu(mut m) => {
            let outcome = m.update(gamepad);
            let empty: Vec<host::Tone> = Vec::new();
            proof {
                assert(empty@ =~= Seq::<host::Tone>::empty());
            }
            match outcome {
                Some(menu::Outcome::Start) => (Game::Level(level::Level::new(m.frames)), empty),
                None => (Game::Menu(m), empty),
            }
        },
        Game::Level(mut l) => {
            let t = l.update(gamepad);
            (Game::Level(l), t)
        },
    };
    match mid {
        Game::Menu(mut m) => {
            let draws = m.draw();
            (Game::Menu(m), FrameOutput { tones, draws })
        },
        Game::Level(mut l) => {
            let draws = l.draw();
            (Game::Level(l), FrameOutput { tones, draws })
        },
    }
}

} // verus!
