use dodgeball::ball::Ball;
use dodgeball::host::DrawCommand;
use dodgeball::host::TONE_TRIANGLE;

fn active_ball_at(x: i32, y: i32, hspd: i32, vspd: i32) -> Ball {
    Ball { x, y, hspd, vspd, warning_time: 0, time_between_warning_shots: 1, is_gone: false }
}

#[test]
fn spawn_from_top_edge_has_exact_shape() {
    let b = Ball::at_edge(0, 80, 1, 0, 5);
    assert_eq!(b.x, 80);
    assert_eq!(b.y, 28);
    assert_eq!(b.hspd, 0);
    assert_eq!(b.vspd, 1);
    assert_eq!(b.warning_time, 5);
    assert_eq!(b.time_between_warning_shots, 2);
    assert!(!b.is_gone);
}

#[test]
fn spawn_edges_point_inward() {
    let top = Ball::at_edge(0, 80, 2, 1, 10);
    assert_eq!((top.hspd, top.vspd), (0, 3));
    assert_eq!(top.y, 28);
    let right = Ball::at_edge(1, 90, 2, 1, 10);
    assert_eq!((right.hspd, right.vspd), (-3, 0));
    assert_eq!(right.x, 152);
    assert_eq!(right.y, 90);
    let bottom = Ball::at_edge(2, 80, 2, 1, 10);
    assert_eq!((bottom.hspd, bottom.vspd), (0, -3));
    assert_eq!(bottom.y, 152);
    let left = Ball::at_edge(3, 90, 2, 1, 10);
    assert_eq!((left.hspd, left.vspd), (3, 0));
    assert_eq!(left.x, 8);
    assert_eq!(left.y, 90);
}

#[test]
fn warning_cadence_divides_by_bonus() {
    // max(1, warning / (2 + 2 * bonus)): a higher bonus pulses more often.
    assert_eq!(Ball::at_edge(0, 80, 1, 0, 40).time_between_warning_shots, 20);
    assert_eq!(Ball::at_edge(0, 80, 1, 1, 40).time_between_warning_shots, 10);
    assert_eq!(Ball::at_edge(0, 80, 1, 0, 1).time_between_warning_shots, 1);
    assert_eq!(Ball::at_edge(0, 80, 1, 0, 0).time_between_warning_shots, 1);
}

#[test]
fn warning_state_freezes_position_for_exactly_warning_time_ticks() {
    let mut b = Ball::at_edge(0, 80, 1, 0, 5);
    for expected_left in (0..5).rev() {
        let _ = b.update();
        assert_eq!((b.x, b.y), (80, 28));
        assert_eq!(b.warning_time, expected_left);
    }
    // The first active tick moves it.
    let _ = b.update();
    assert_eq!((b.x, b.y), (80, 29));
}

#[test]
fn warning_pulses_on_cadence_with_direction_derived_pitch() {
    let mut b = Ball::at_edge(0, 80, 1, 0, 4);
    // warning 4, cadence 2: pulse, silence, pulse, expiry pulse.
    let t = b.update();
    assert_eq!(t.len(), 1);
    assert_eq!(t[0].frequency, 775);
    assert_eq!(t[0].duration, 4 | (4 << 8));
    assert_eq!(t[0].volume, 30);
    assert_eq!(t[0].flags, TONE_TRIANGLE);
    let t = b.update();
    assert_eq!(t.len(), 0);
    let t = b.update();
    assert_eq!(t.len(), 1);
    let t = b.update();
    assert_eq!(t.len(), 1);
    assert_eq!(t[0].duration, 12 | (4 << 8));
    assert_eq!(t[0].volume, 60);
    assert_eq!(b.warning_time, 0);
}

#[test]
fn horizontal_ball_pitch_uses_smaller_step() {
    let mut b = Ball::at_edge(3, 90, 1, 0, 2);
    let t = b.update();
    assert_eq!(t.len(), 1);
    assert_eq!(t[0].frequency, 725);
}

#[test]
fn ball_goes_gone_past_its_travel_bound() {
    let mut b = active_ball_at(150, 90, 1, 0);
    let _ = b.update();
    assert_eq!(b.x, 151);
    assert!(b.is_gone);

    let mut b = active_ball_at(10, 90, -1, 0);
    let _ = b.update();
    assert_eq!(b.x, 9);
    assert!(b.is_gone);

    let mut b = active_ball_at(80, 150, 0, 1);
    let _ = b.update();
    assert!(b.is_gone);

    let mut b = active_ball_at(80, 30, 0, -1);
    let _ = b.update();
    assert!(b.is_gone);
}

#[test]
fn ball_is_not_gone_inside_its_travel_bound() {
    let mut b = active_ball_at(149, 90, 1, 0);
    let _ = b.update();
    assert_eq!(b.x, 150);
    assert!(!b.is_gone);
}

#[test]
fn perpendicular_axis_is_never_checked() {
    // A ball sweeping down is only checked against the bottom bound,
    // whatever its horizontal coordinate.
    let mut b = active_ball_at(15, 90, 0, 1);
    let _ = b.update();
    assert!(!b.is_gone);
}

#[test]
fn collision_box_is_wider_than_tall() {
    let b = active_ball_at(80, 90, 1, 0);
    assert!(b.detect_collision(80, 90));
    assert!(b.detect_collision(87, 90));
    assert!(b.detect_collision(73, 90));
    assert!(!b.detect_collision(88, 90));
    assert!(!b.detect_collision(72, 90));
    assert!(b.detect_collision(80, 92));
    assert!(b.detect_collision(80, 88));
    assert!(!b.detect_collision(80, 93));
    assert!(!b.detect_collision(80, 87));
}

#[test]
fn active_ball_draws_its_glyph() {
    let b = active_ball_at(80, 90, 1, 0);
    let cmds = b.draw();
    assert_eq!(cmds.len(), 1);
    assert_eq!(cmds[0], DrawCommand::BallSprite { x: 80, y: 90 });
}

#[test]
fn warning_glyph_blinks_in_the_tail_of_each_period() {
    // warning 8, cadence 4: visible when (warning % 4) * 2 >= 2.
    let b = Ball::at_edge(0, 80, 1, 0, 8);
    assert_eq!(b.draw().len(), 0);
    let mut b = b;
    let _ = b.update();
    // warning 7: (7 % 4) * 2 = 6 >= 2: visible, vertical travel warns
    // with the horizontal glyph.
    let cmds = b.draw();
    assert_eq!(cmds.len(), 2);
    assert_eq!(cmds[0], DrawCommand::SetDrawColors(0x40));
    assert_eq!(cmds[1], DrawCommand::WarningHorizontalSprite { x: 72, y: 20 });
}

#[test]
fn horizontal_traveller_warns_with_vertical_glyph() {
    let mut b = Ball::at_edge(3, 90, 1, 0, 8);
    let _ = b.update();
    let cmds = b.draw();
    assert_eq!(cmds.len(), 2);
    assert_eq!(cmds[1], DrawCommand::WarningVerticalSprite { x: 0, y: 82 });
}

#[test]
fn gone_ball_draws_nothing() {
    let mut b = active_ball_at(150, 90, 1, 0);
    let _ = b.update();
    assert!(b.is_gone);
    assert_eq!(b.draw().len(), 0);
}

#[test]
fn seeded_spawn_from_top_edge() {
    // This seed's first edge draw picks the top edge.
    let mut rng = fastrand::Rng::with_seed(8);
    let b = Ball::new(1, 0, 5, &mut rng);
    assert_eq!(b.hspd, 0);
    assert_eq!(b.vspd, 1);
    assert_eq!(b.y, 28);
    assert!(15 <= b.x && b.x <= 145);
    assert_eq!(b.x, 17);
    assert_eq!(b.warning_time, 5);
}

#[test]
fn random_spawn_is_always_on_an_edge_within_bounds() {
    let mut rng = fastrand::Rng::with_seed(12345);
    let mut edges_seen = [false; 4];
    let mut coords = std::collections::HashSet::new();
    for _ in 0..200 {
        let b = Ball::new(1, 0, 5, &mut rng);
        assert!(!b.is_gone);
        assert_eq!(b.warning_time, 5);
        // Strictly axial, speed 1 inward.
        assert!((b.hspd == 0) != (b.vspd == 0));
        if b.vspd == 1 {
            edges_seen[0] = true;
            assert_eq!(b.y, 28);
            assert!(15 <= b.x && b.x <= 145);
            coords.insert(b.x);
        } else if b.hspd == -1 {
            edges_seen[1] = true;
            assert_eq!(b.x, 152);
            assert!(35 <= b.y && b.y <= 145);
            coords.insert(b.y);
        } else if b.vspd == -1 {
            edges_seen[2] = true;
            assert_eq!(b.y, 152);
            assert!(15 <= b.x && b.x <= 145);
            coords.insert(b.x);
        } else {
            assert_eq!(b.hspd, 1);
            edges_seen[3] = true;
            assert_eq!(b.x, 8);
            assert!(35 <= b.y && b.y <= 145);
            coords.insert(b.y);
        }
    }
    // The draws vary: every edge shows up and many cross coordinates.
    assert!(edges_seen.iter().all(|&e| e));
    assert!(coords.len() > 10);
}
