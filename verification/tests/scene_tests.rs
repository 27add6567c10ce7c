use dodgeball::host::DrawCommand;
use dodgeball::host::BUTTON_1;
use dodgeball::host::BUTTON_LEFT;
use dodgeball::menu::Menu;
use dodgeball::menu::Outcome;
use dodgeball::palette::SODACAP_PALETTE;
use dodgeball::sprites;
use dodgeball::update;
use dodgeball::Game;

#[test]
fn menu_counts_frames_and_waits_for_the_button() {
    let mut m = Menu::new();
    assert_eq!(m.frames, 0);
    assert!(m.update(0).is_none());
    assert!(m.update(BUTTON_LEFT).is_none());
    assert_eq!(m.frames, 2);
    let outcome = m.update(BUTTON_1);
    assert!(matches!(outcome, Some(Outcome::Start)));
    assert_eq!(m.frames, 3);
}

#[test]
fn menu_draws_title_and_prompt() {
    let mut m = Menu::new();
    let cmds = m.draw();
    assert_eq!(cmds.len(), 4);
    assert_eq!(cmds[0], DrawCommand::SetPalette);
    assert_eq!(cmds[1], DrawCommand::SetDrawColors(4));
    assert_eq!(cmds[2], DrawCommand::MenuTitle { x: 10, y: 10 });
    assert_eq!(cmds[3], DrawCommand::StartPrompt { x: 10, y: 140 });
}

#[test]
fn frame_stays_on_menu_without_the_button() {
    let game = Game::Menu(Menu::new());
    let (game, out) = update(game, 0);
    match game {
        Game::Menu(m) => assert_eq!(m.frames, 1),
        Game::Level(_) => panic!("the scene left the menu without the button"),
    }
    assert_eq!(out.tones.len(), 0);
    assert_eq!(out.draws.len(), 4);
}

#[test]
fn frame_starts_a_level_on_the_button() {
    let mut game = Game::Menu(Menu::new());
    for _ in 0..7 {
        let (g, _) = update(game, 0);
        game = g;
    }
    let (game, out) = update(game, BUTTON_1);
    match game {
        Game::Level(l) => {
            assert_eq!(l.ticks, 0);
            assert_eq!(l.score, 0);
            assert_eq!(l.balls.len(), 0);
            assert!(l.little_guy.is_alive());
        },
        Game::Menu(_) => panic!("the button did not start the level"),
    }
    // The transition frame draws the fresh level, not the menu.
    assert!(out.draws.contains(&DrawCommand::ArenaBorder { x: 10, y: 30, width: 140, height: 120 }));
    assert_eq!(out.tones.len(), 0);
}

#[test]
fn frame_ticks_a_running_level() {
    let (game, _) = update(Game::Menu(Menu::new()), BUTTON_1);
    let (game, out) = update(game, BUTTON_LEFT);
    match game {
        Game::Level(l) => {
            assert_eq!(l.ticks, 1);
            assert_eq!(l.little_guy.x, 79);
            assert_eq!(l.balls.len(), 1);
        },
        Game::Menu(_) => panic!("the level fell back to the menu"),
    }
    assert!(out.draws.len() >= 6);
}

#[test]
fn palette_has_the_four_sodacap_colors() {
    assert_eq!(SODACAP_PALETTE, [0xfca6ac, 0xff7d6e, 0xe8e7cb, 0x2176cc]);
}

#[test]
fn warning_sprites_blit_centered() {
    let cmds = sprites::warning_horizontal::draw(80, 90);
    assert_eq!(cmds[0], DrawCommand::SetDrawColors(0x40));
    assert_eq!(cmds[1], DrawCommand::WarningHorizontalSprite { x: 72, y: 82 });
    let cmds = sprites::warning_vertical::draw(80, 90);
    assert_eq!(cmds[1], DrawCommand::WarningVerticalSprite { x: 72, y: 82 });
    assert_eq!(sprites::warning_horizontal::WARNING_HORIZONTAL.len(), 32);
    assert_eq!(sprites::warning_vertical::WARNING_VERTICAL.len(), 32);
}

#[test]
fn animation_restarts_only_on_pose_change() {
    let mut a = sprites::little_guy::Animation::new();
    a.tick();
    a.tick();
    assert_eq!(a.phase, 2);
    a.idle();
    assert_eq!(a.phase, 2);
    a.run_left();
    assert_eq!(a.phase, 0);
    assert_eq!(a.pose, sprites::little_guy::Pose::RunLeft);
    for _ in 0..8 {
        a.tick();
    }
    assert_eq!(a.phase, 0);
}
