use dodgeball::ball::Ball;
use dodgeball::host::BUTTON_1;
use dodgeball::host::BUTTON_2;
use dodgeball::host::BUTTON_LEFT;
use dodgeball::host::DrawCommand;
use dodgeball::host::TONE_NOISE;
use dodgeball::host::TONE_PULSE1;
use dodgeball::level::Level;

fn active_ball_at(x: i32, y: i32, hspd: i32, vspd: i32) -> Ball {
    Ball { x, y, hspd, vspd, warning_time: 0, time_between_warning_shots: 1, is_gone: false }
}

#[test]
fn fresh_level_state() {
    let l = Level::new(1);
    assert_eq!(l.score, 0);
    assert_eq!(l.ticks, 0);
    assert_eq!(l.balls.len(), 0);
    assert_eq!(l.time_until_next_ball, 0);
    assert_eq!(l.time_between_balls, 90);
    assert!(l.little_guy.is_alive());
}

#[test]
fn one_spawn_within_the_initial_interval() {
    // Running for exactly the initial interval with no input spawns
    // exactly one projectile and resets the countdown positively.
    let mut l = Level::new(42);
    for _ in 0..90 {
        let _ = l.update(0);
    }
    assert_eq!(l.ticks, 90);
    assert_eq!(l.balls.len(), 1);
    assert!(l.time_until_next_ball > 0);
    assert!(l.little_guy.is_alive());
}

#[test]
fn first_tick_spawns_with_interval_derived_warning() {
    let mut l = Level::new(42);
    let _ = l.update(0);
    assert_eq!(l.ticks, 1);
    assert_eq!(l.balls.len(), 1);
    // The countdown resets to the full interval, which then tightens.
    assert_eq!(l.time_until_next_ball, 90);
    assert_eq!(l.time_between_balls, 88);
    // warning = max(5, 90 * 3 / 4)
    assert_eq!(l.balls[0].warning_time, 67);
    assert_eq!(l.balls[0].time_between_warning_shots, 67 / 2);
}

#[test]
fn spawn_interval_tightens_deterministically_while_high() {
    let mut l = Level::new(11);
    let mut seen_intervals = vec![l.time_between_balls];
    for _ in 0..20 * 90 {
        let _ = l.update(BUTTON_2);
        let last = *seen_intervals.last().unwrap();
        let now = l.time_between_balls;
        assert!(now == last || now == last - 1 || now == last - 2);
        if now > 70 {
            assert!(now == last || now == last - 2);
        }
        if now != last {
            seen_intervals.push(now);
        }
    }
    assert!(*seen_intervals.last().unwrap() < 90);
}

#[test]
fn gone_projectiles_are_scored_and_removed() {
    let mut l = Level::new(1);
    l.time_until_next_ball = 50;
    l.ticks = 50;
    l.balls.push(active_ball_at(150, 90, 1, 0));
    let _ = l.update(0);
    assert_eq!(l.balls.len(), 0);
    assert_eq!(l.score, 1);
    assert_eq!(l.ticks, 51);
}

#[test]
fn gone_projectiles_are_not_scored_once_dead() {
    let mut l = Level::new(1);
    l.time_until_next_ball = 50;
    l.ticks = 50;
    l.little_guy.kill();
    l.balls.push(active_ball_at(150, 90, 1, 0));
    let _ = l.update(0);
    assert_eq!(l.balls.len(), 0);
    assert_eq!(l.score, 0);
    assert_eq!(l.ticks, 50);
}

#[test]
fn projectile_on_avatar_kills_it_that_tick() {
    // Avatar and projectile at identical coordinates in the same tick.
    let mut l = Level::new(1);
    l.time_until_next_ball = 50;
    l.ticks = 50;
    l.balls.push(active_ball_at(l.little_guy.x - 1, l.little_guy.y, 1, 0));
    let tones = l.update(0);
    assert_eq!(l.balls[0].x, l.little_guy.x);
    assert_eq!(l.balls[0].y, l.little_guy.y);
    assert!(!l.little_guy.is_alive());
    // The collision sounds both of its tones.
    assert_eq!(tones.len(), 2);
    assert_eq!(tones[0].frequency, 250);
    assert_eq!(tones[0].duration, 5 | (10 << 8));
    assert_eq!(tones[0].volume, 100);
    assert_eq!(tones[0].flags, TONE_NOISE);
    assert_eq!(tones[1].frequency, 10);
    assert_eq!(tones[1].duration, 20 | (80 << 8));
    assert_eq!(tones[1].flags, TONE_PULSE1);
    // The killing tick still counts and scores.
    assert_eq!(l.ticks, 51);
    // And the avatar stays dead afterwards, frozen in place.
    let (x, y) = (l.little_guy.x, l.little_guy.y);
    for _ in 0..200 {
        let _ = l.update(BUTTON_LEFT);
        assert!(!l.little_guy.is_alive());
        assert_eq!((l.little_guy.x, l.little_guy.y), (x, y));
    }
}

#[test]
fn restart_needs_death_and_empty_arena() {
    let mut l = Level::new(9);
    l.ticks = 70;
    l.score = 5;
    l.time_until_next_ball = 30;

    // Pressing restart while alive is a no-op: the tick runs normally.
    let _ = l.update(BUTTON_1);
    assert!(l.little_guy.is_alive());
    assert_eq!(l.ticks, 71);
    assert_eq!(l.score, 5);

    // Pressing restart while dead with projectiles still in the arena
    // is a no-op too.
    l.little_guy.kill();
    l.balls.push(active_ball_at(80, 90, 1, 0));
    let _ = l.update(BUTTON_1);
    assert_eq!(l.ticks, 71);
    assert_eq!(l.score, 5);
    assert!(!l.little_guy.is_alive());

    // Once the arena drains, restart resets everything.
    while !l.balls.is_empty() {
        let _ = l.update(0);
    }
    assert_eq!(l.ticks, 71);
    let _ = l.update(BUTTON_1);
    assert!(l.little_guy.is_alive());
    assert_eq!(l.ticks, 0);
    assert_eq!(l.score, 0);
    assert_eq!(l.time_until_next_ball, 0);
    assert_eq!(l.time_between_balls, 90);
    assert_eq!((l.little_guy.x, l.little_guy.y), (80, 120));
}

#[test]
fn score_tallies_gone_transitions_while_alive() {
    let mut l = Level::new(3);
    l.ticks = 50;
    l.time_until_next_ball = 40;
    l.balls.push(active_ball_at(150, 50, 1, 0));
    l.balls.push(active_ball_at(148, 60, 1, 0));
    l.balls.push(active_ball_at(10, 70, -1, 0));
    let _ = l.update(0);
    // Two of the three crossed their bound this tick.
    assert_eq!(l.score, 2);
    assert_eq!(l.balls.len(), 1);
    let _ = l.update(0);
    assert_eq!(l.score, 2);
    let _ = l.update(0);
    assert_eq!(l.score, 3);
    assert_eq!(l.balls.len(), 0);
}

#[test]
fn difficulty_table_brackets() {
    assert_eq!(Level::difficulty_for(0), (1, 0, 0));
    assert_eq!(Level::difficulty_for(10 * 60), (1, 0, 0));
    assert_eq!(Level::difficulty_for(10 * 60 + 1), (1, 0, 1));
    assert_eq!(Level::difficulty_for(30 * 60 + 1), (1, 1, 1));
    assert_eq!(Level::difficulty_for(60 * 60 + 1), (2, 0, 0));
    assert_eq!(Level::difficulty_for(75 * 60 + 1), (2, 0, 1));
    assert_eq!(Level::difficulty_for(90 * 60 + 1), (2, 1, 1));
    assert_eq!(Level::difficulty_for(120 * 60 + 1), (3, 0, 0));
    assert_eq!(Level::difficulty_for(150 * 60 + 1), (5, 0, 0));
}

#[test]
fn draw_layers_projectiles_around_avatar_by_depth() {
    let mut l = Level::new(1);
    l.ticks = 130;
    l.time_until_next_ball = 40;
    l.balls.push(active_ball_at(40, 140, 1, 0));
    l.balls.push(active_ball_at(40, 50, 1, 0));
    let cmds = l.draw();
    assert_eq!(cmds[0], DrawCommand::SetPalette);
    assert_eq!(cmds[1], DrawCommand::SetDrawColors(4));
    assert_eq!(cmds[2], DrawCommand::HudTime { seconds: 2, tenths: 1, x: 5, y: 5 });
    assert_eq!(cmds[3], DrawCommand::HudScore { score: 0, x: 90, y: 5 });
    assert_eq!(cmds[4], DrawCommand::SetDrawColors(0x40));
    assert_eq!(cmds[5], DrawCommand::ArenaBorder { x: 10, y: 30, width: 140, height: 120 });
    // The ball above the avatar draws first, then the avatar, then the
    // ball below it.
    assert_eq!(cmds[6], DrawCommand::BallSprite { x: 40, y: 50 });
    assert!(matches!(cmds[7], DrawCommand::AvatarSprite { x: 80, y: 120, .. }));
    assert_eq!(cmds[8], DrawCommand::BallSprite { x: 40, y: 140 });
    assert_eq!(cmds.len(), 9);
}

#[test]
fn avatar_wins_depth_ties() {
    let mut l = Level::new(1);
    l.time_until_next_ball = 40;
    l.balls.push(active_ball_at(40, 120, 1, 0));
    let cmds = l.draw();
    assert!(matches!(cmds[6], DrawCommand::AvatarSprite { .. }));
    assert_eq!(cmds[7], DrawCommand::BallSprite { x: 40, y: 120 });
}

#[test]
fn cleared_level_draws_the_restart_prompt() {
    let mut l = Level::new(1);
    l.little_guy.kill();
    l.ticks = 66;
    l.score = 4;
    let cmds = l.draw();
    assert_eq!(cmds.len(), 5);
    assert_eq!(cmds[2], DrawCommand::HudTime { seconds: 1, tenths: 1, x: 5, y: 5 });
    assert_eq!(cmds[3], DrawCommand::HudScore { score: 4, x: 90, y: 5 });
    assert_eq!(cmds[4], DrawCommand::RestartPrompt { x: 10, y: 140 });
}

#[test]
fn warning_pulses_reach_the_level_output() {
    let mut l = Level::new(5);
    l.ticks = 50;
    l.time_until_next_ball = 40;
    l.balls.push(Ball::at_edge(0, 80, 1, 0, 4));
    let tones = l.update(0);
    assert_eq!(tones.len(), 1);
    assert_eq!(tones[0].frequency, 775);
}
