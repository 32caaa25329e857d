use phi::data::{Rectangle, SdlRect};
use phi::events::{Event, Events, Key};
use phi::gfx::Sprite;
use phi::render::{Color, DrawCommand, Renderer, Texture};
use phi::spawn::{run_frame, Next};
use phi::views::game::{Asteroid, ASTEROIDS_SIDE, ASTEROIDS_TOTAL};
use phi::views::shared::Background;
use phi::views::{cut_sheet, on_screen, quit_asked, Ship, ShipFrame, ShipView, PLAYER_SPEED, SHIP_H, SHIP_W, SUBPIXELS};
use phi::{Phi, View, ViewAction};

fn rect(x: i64, y: i64, w: i64, h: i64) -> Rectangle {
    Rectangle { x, y, w, h }
}

fn image(id: usize, width: u32, height: u32) -> Sprite {
    Sprite::new(Texture { id, width, height })
}

fn context(width: u32, height: u32) -> Phi {
    Phi::new(Events::new(), Renderer::new(width, height))
}

fn holding(keys: &[Key]) -> Events {
    let mut events = Events::new();
    events.pump(&keys.iter().map(|key| Event::KeyDown(*key)).collect());
    events
}

const BLACK: DrawCommand = DrawCommand::SetDrawColor(Color { r: 0, g: 0, b: 0, a: 255 });

#[test]
fn game_constants() {
    assert_eq!((PLAYER_SPEED, SHIP_W, SHIP_H, SUBPIXELS), (180, 43, 39, 1_000));
    assert_eq!((ASTEROIDS_TOTAL, ASTEROIDS_SIDE), (143, 96));
}

#[test]
fn on_screen_rounds_toward_zero() {
    assert_eq!(on_screen(rect(64_000, 65_999, 43_000, 39_000)), rect(64, 65, 43, 39));
    assert_eq!(on_screen(rect(-1_500, -999, 999, 1_000)), rect(-1, 0, 0, 1));
    assert_eq!(on_screen(rect(i64::MIN, i64::MAX, 0, -1_001)), rect(i64::MIN / 1_000, i64::MAX / 1_000, 0, -1));
}

#[test]
fn cut_sheet_goes_row_by_row() {
    let cells = cut_sheet(&image(1, 100, 60), 30, 20, 3, 8);
    assert_eq!(cells.len(), 8);
    for (k, cell) in cells.iter().enumerate() {
        assert_eq!(cell.source(), rect(30 * (k as i64 % 3), 20 * (k as i64 / 3), 30, 20));
        assert_eq!(cell.texture(), Texture { id: 1, width: 100, height: 60 });
    }
    assert_eq!(cut_sheet(&image(1, 100, 60), 30, 20, 3, 0), vec![]);
}

#[test]
fn cut_sheet_is_relative_to_the_sheet() {
    let part = image(1, 100, 60).region(rect(10, 20, 60, 40)).unwrap();
    let cells = cut_sheet(&part, 30, 20, 2, 4);
    assert_eq!(cells[0].source(), rect(10, 20, 30, 20));
    assert_eq!(cells[3].source(), rect(40, 40, 30, 20));
}

#[test]
fn ship_frames_are_in_sheet_order() {
    let frames = [
        ShipFrame::UpNorm,
        ShipFrame::UpFast,
        ShipFrame::UpSlow,
        ShipFrame::MidNorm,
        ShipFrame::MidFast,
        ShipFrame::MidSlow,
        ShipFrame::DownNorm,
        ShipFrame::DownFast,
        ShipFrame::DownSlow,
    ];
    for (i, frame) in frames.iter().enumerate() {
        assert_eq!(frame.index(), i);
    }
}

#[test]
fn ship_frame_follows_the_movement() {
    assert_eq!(ShipFrame::for_motion(-1, -1), ShipFrame::UpSlow);
    assert_eq!(ShipFrame::for_motion(0, -1), ShipFrame::UpNorm);
    assert_eq!(ShipFrame::for_motion(1, -1), ShipFrame::UpFast);
    assert_eq!(ShipFrame::for_motion(-1, 0), ShipFrame::MidSlow);
    assert_eq!(ShipFrame::for_motion(0, 0), ShipFrame::MidNorm);
    assert_eq!(ShipFrame::for_motion(1, 0), ShipFrame::MidFast);
    assert_eq!(ShipFrame::for_motion(-1, 1), ShipFrame::DownSlow);
    assert_eq!(ShipFrame::for_motion(0, 1), ShipFrame::DownNorm);
    assert_eq!(ShipFrame::for_motion(i64::MAX, i64::MAX), ShipFrame::DownFast);
}

#[test]
fn new_ship_is_at_rest() {
    let ship = Ship::new(&image(2, 129, 117));
    assert_eq!(ship.rect(), rect(64_000, 64_000, 43_000, 39_000));
    assert_eq!(ship.current(), ShipFrame::MidNorm);
}

#[test]
fn ship_moves_along_one_axis() {
    let mut ship = Ship::new(&image(2, 129, 117));
    ship.steer(&holding(&[Key::Right]), 10_000, (800, 600));
    assert_eq!(ship.rect(), rect(65_800, 64_000, 43_000, 39_000));
    assert_eq!(ship.current(), ShipFrame::MidFast);
    ship.steer(&holding(&[Key::Up]), 10_000, (800, 600));
    assert_eq!(ship.rect(), rect(65_800, 62_200, 43_000, 39_000));
    assert_eq!(ship.current(), ShipFrame::UpNorm);
    ship.steer(&holding(&[]), 10_000, (800, 600));
    assert_eq!(ship.rect(), rect(65_800, 62_200, 43_000, 39_000));
    assert_eq!(ship.current(), ShipFrame::MidNorm);
}

#[test]
fn ship_moves_slower_along_each_axis_on_a_diagonal() {
    let mut ship = Ship::new(&image(2, 129, 117));
    ship.steer(&holding(&[Key::Up, Key::Left]), 10_000, (800, 600));
    assert_eq!(ship.rect(), rect(62_728, 62_728, 43_000, 39_000));
    assert_eq!(ship.current(), ShipFrame::UpSlow);
    ship.steer(&holding(&[Key::Down, Key::Right]), 1_000_000, (800, 600));
    assert_eq!(ship.rect(), rect(62_728 + 127_279, 62_728 + 127_279, 43_000, 39_000));
    assert_eq!(ship.current(), ShipFrame::DownFast);
}

#[test]
fn opposite_keys_cancel() {
    let mut ship = Ship::new(&image(2, 129, 117));
    ship.steer(&holding(&[Key::Up, Key::Down, Key::Left]), 10_000, (800, 600));
    assert_eq!(ship.rect(), rect(62_200, 64_000, 43_000, 39_000));
    assert_eq!(ship.current(), ShipFrame::MidSlow);
    ship.steer(&holding(&[Key::Up, Key::Down, Key::Left, Key::Right]), 10_000, (800, 600));
    assert_eq!(ship.rect(), rect(62_200, 64_000, 43_000, 39_000));
    assert_eq!(ship.current(), ShipFrame::MidNorm);
}

#[test]
fn ship_stays_in_the_movable_region() {
    let mut ship = Ship::new(&image(2, 129, 117));
    ship.steer(&holding(&[Key::Right, Key::Down]), i64::MAX, (800, 600));
    assert_eq!(ship.rect(), rect(560_000 - 43_000, 600_000 - 39_000, 43_000, 39_000));
    assert_eq!(ship.current(), ShipFrame::DownFast);
    ship.steer(&holding(&[Key::Left, Key::Up]), i64::MAX, (800, 600));
    assert_eq!(ship.rect(), rect(0, 0, 43_000, 39_000));
    ship.steer(&holding(&[Key::Right]), i64::MIN, (800, 600));
    assert_eq!(ship.rect(), rect(0, 0, 43_000, 39_000));
    assert_eq!(ship.current(), ShipFrame::MidSlow);
    ship.steer(&holding(&[]), 0, (62, 39));
    assert_eq!(ship.rect(), rect(0, 0, 43_000, 39_000));
}

#[test]
fn ship_draws_the_picture_on_show() {
    let mut ship = Ship::new(&image(2, 200, 200));
    ship.steer(&holding(&[Key::Right]), 10_000, (800, 600));
    let mut renderer = Renderer::new(800, 600);
    ship.render(&mut renderer);
    assert_eq!(
        renderer.take_commands(),
        vec![DrawCommand::Copy {
            texture: Texture { id: 2, width: 200, height: 200 },
            src: Some(SdlRect { x: 43, y: 39, w: 43, h: 39 }),
            dst: Some(SdlRect { x: 65, y: 64, w: 43, h: 39 }),
        }]
    );
}

#[test]
fn quit_is_asked_by_the_window_or_the_escape_key() {
    let mut events = Events::new();
    assert!(!quit_asked(&events));
    events.pump(&vec![Event::KeyDown(Key::Escape)]);
    assert!(quit_asked(&events));
    events.pump(&vec![Event::KeyUp(Key::Escape)]);
    assert!(!quit_asked(&events));
    events.pump(&vec![Event::Quit]);
    assert!(quit_asked(&events));
    events.pump(&vec![]);
    assert!(!quit_asked(&events));
}

#[test]
fn ship_view_steers_clears_and_draws() {
    let mut phi = context(800, 600);
    let view = ShipView::new(&image(2, 129, 117));
    assert!(view.ready(&phi));
    let view = match run_frame(&mut phi, view, &vec![Event::KeyDown(Key::Down)]) {
        Next::Present(view) => view,
        _ => panic!("the frame is shown"),
    };
    assert_eq!(view.player().rect(), rect(64_000, 65_800, 43_000, 39_000));
    assert_eq!(view.player().current(), ShipFrame::DownNorm);
    assert_eq!(
        phi.renderer.take_commands(),
        vec![
            BLACK,
            DrawCommand::Clear,
            DrawCommand::Copy {
                texture: Texture { id: 2, width: 129, height: 117 },
                src: Some(SdlRect { x: 0, y: 78, w: 43, h: 39 }),
                dst: Some(SdlRect { x: 64, y: 65, w: 43, h: 39 }),
            },
        ]
    );
}

#[test]
fn ship_view_quits_without_drawing() {
    let mut phi = context(800, 600);
    let view = ShipView::new(&image(2, 129, 117));
    assert!(matches!(run_frame(&mut phi, view, &vec![Event::KeyDown(Key::Escape)]), Next::Stop));
    assert_eq!(phi.renderer.take_commands(), vec![]);
    let mut view = ShipView::new(&image(2, 129, 117));
    phi.events.pump(&vec![Event::Quit, Event::KeyDown(Key::Right)]);
    assert!(matches!(view.render(&mut phi, 10_000), ViewAction::Quit));
    assert_eq!(view.player().rect(), rect(64_000, 64_000, 43_000, 39_000));
}

#[test]
fn ship_view_needs_room_for_the_ship() {
    let view = ShipView::new(&image(2, 129, 117));
    assert!(view.ready(&context(62, 39)));
    assert!(!view.ready(&context(61, 39)));
    assert!(!view.ready(&context(62, 38)));
    assert!(!view.ready(&context(0, 0)));
    assert!(view.ready(&context(u32::MAX, u32::MAX)));
    let mut phi = context(61, 39);
    assert!(matches!(run_frame(&mut phi, view, &vec![]), Next::Refused(_)));
}

#[test]
fn ship_view_quits_on_a_screen_without_room() {
    let mut phi = context(10, 10);
    let view = ShipView::new(&image(2, 129, 117));
    assert!(!view.ready(&phi));
    phi.events.pump(&vec![Event::Quit]);
    assert!(view.ready(&phi));
    let mut phi = context(10, 10);
    assert!(matches!(run_frame(&mut phi, view, &vec![Event::Quit]), Next::Stop));
    assert_eq!(phi.renderer.take_commands(), vec![]);
    let view = ShipView::new(&image(2, 129, 117));
    assert!(matches!(run_frame(&mut phi, view, &vec![Event::KeyDown(Key::Escape)]), Next::Stop));
    let view = ShipView::new(&image(2, 129, 117));
    assert!(matches!(run_frame(&mut phi, view, &vec![Event::KeyUp(Key::Escape)]), Next::Refused(_)));
}

#[test]
fn asteroid_frames_come_from_the_sheet() {
    let sprite = Asteroid::get_sprite(&image(5, 2016, 672), 15);
    assert_eq!(sprite.frames(), 143);
    assert_eq!(sprite.frame_delay(), 66_666);
    assert_eq!(sprite.current_time(), 0);
}

#[test]
fn asteroid_reset_follows_the_numbers_drawn() {
    let phi = context(800, 600);
    let mut asteroid = Asteroid::new(&phi, &image(5, 2016, 672));
    asteroid.reset_with((800, 600), 0, 0, 0);
    assert_eq!(asteroid.rect(), rect(800_000, 0, 96_000, 96_000));
    assert_eq!(asteroid.vel(), 50);
    assert_eq!(asteroid.sprite().frame_delay(), 100_000);

    asteroid.reset_with((800, 600), 1 << 31, 1 << 31, 1 << 31);
    assert_eq!(asteroid.rect(), rect(800_000, 252_000, 96_000, 96_000));
    assert_eq!(asteroid.vel(), 100);
    assert_eq!(asteroid.sprite().frame_delay(), 50_000);

    asteroid.reset_with((1024, 96), u32::MAX, u32::MAX, u32::MAX);
    assert_eq!(asteroid.rect(), rect(1_024_000, 0, 96_000, 96_000));
    assert_eq!(asteroid.vel(), 149);
    assert_eq!(asteroid.sprite().frame_delay(), 1_000_000 / 29);

    asteroid.reset_with((0, 0), 0, 1 << 31, 0);
    assert_eq!(asteroid.rect(), rect(0, -48_000, 96_000, 96_000));
    assert_eq!(asteroid.sprite().frames(), 143);
}

#[test]
fn asteroid_reset_draws_within_the_ranges() {
    let phi = context(800, 600);
    let mut asteroid = Asteroid::new(&phi, &image(5, 2016, 672));
    for _ in 0..200 {
        asteroid.reset(&phi);
        let rect = asteroid.rect();
        assert_eq!((rect.x, rect.w, rect.h), (800_000, 96_000, 96_000));
        assert!(0 <= rect.y && rect.y < 504_000);
        assert!(50 <= asteroid.vel() && asteroid.vel() < 150);
        let delay = asteroid.sprite().frame_delay();
        assert!((10..30).any(|fps| delay == 1_000_000 / fps));
        assert_eq!(asteroid.sprite().current_time(), 0);
    }
}

#[test]
fn asteroid_drifts_left_and_animates() {
    let phi = context(800, 600);
    let mut asteroid = Asteroid::new(&phi, &image(5, 2016, 672));
    asteroid.reset_with((800, 600), 1 << 31, 1 << 31, 1 << 31);
    asteroid.update(&phi, 10_000);
    assert_eq!(asteroid.rect(), rect(799_000, 252_000, 96_000, 96_000));
    assert_eq!(asteroid.sprite().current_time(), 10_000);
    assert_eq!(asteroid.vel(), 100);
    asteroid.update(&phi, 8_949_999);
    assert_eq!(asteroid.rect(), rect(799_000 - 894_999, 252_000, 96_000, 96_000));
    assert_eq!(asteroid.rect().x, -95_999);
    assert_eq!(asteroid.sprite().current_time(), 8_959_999);
}

#[test]
fn asteroid_is_reset_once_it_has_left_the_screen() {
    let phi = context(800, 600);
    let mut asteroid = Asteroid::new(&phi, &image(5, 2016, 672));
    asteroid.reset_with((800, 600), 1 << 31, 1 << 31, 1 << 31);
    asteroid.update(&phi, 8_960_000);
    assert_eq!(asteroid.rect().x, 800_000);
    assert!(0 <= asteroid.rect().y && asteroid.rect().y < 504_000);
    assert!(50 <= asteroid.vel() && asteroid.vel() < 150);
    assert_eq!(asteroid.sprite().current_time(), 8_960_000);
}

#[test]
fn asteroid_draws_the_frame_on_show() {
    let mut phi = context(800, 600);
    let mut asteroid = Asteroid::new(&phi, &image(5, 2016, 672));
    asteroid.reset_with((800, 600), 0, 1 << 31, 0);
    asteroid.update(&phi, 2_250_000);
    assert_eq!(asteroid.sprite().current_frame(), 22);
    asteroid.render(&mut phi);
    assert_eq!(
        phi.renderer.take_commands(),
        vec![DrawCommand::Copy {
            texture: Texture { id: 5, width: 2016, height: 672 },
            src: Some(SdlRect { x: 96, y: 96, w: 96, h: 96 }),
            dst: Some(SdlRect { x: 687, y: 252, w: 96, h: 96 }),
        }]
    );
}

#[test]
fn background_scrolls_and_wraps() {
    let mut background = Background { pos: 0, vel: 20, sprite: image(6, 100, 50) };
    let mut renderer = Renderer::new(800, 600);
    background.render(&mut renderer, 10_000);
    assert_eq!(background.pos, 200);
    background.pos = 99_900;
    background.render(&mut renderer, 10_000);
    assert_eq!(background.pos, 100);
    background.pos = 99_800;
    background.render(&mut renderer, 10_000);
    assert_eq!(background.pos, 100_000);
    assert_eq!((background.vel, background.sprite), (20, image(6, 100, 50)));
}

#[test]
fn background_fills_the_screen_with_copies() {
    let mut background = Background { pos: 49_000, vel: 20, sprite: image(6, 100, 300) };
    let mut renderer = Renderer::new(450, 600);
    assert!(background.fills((450, 600)));
    background.render(&mut renderer, 50_000);
    assert_eq!(background.pos, 50_000);
    let copy = |x: i32| DrawCommand::Copy {
        texture: Texture { id: 6, width: 100, height: 300 },
        src: Some(SdlRect { x: 0, y: 0, w: 100, h: 300 }),
        dst: Some(SdlRect { x, y: 0, w: 200, h: 600 }),
    };
    assert_eq!(renderer.take_commands(), vec![copy(-100), copy(100), copy(300)]);
}

#[test]
fn background_must_be_able_to_fill_the_screen() {
    let background = Background { pos: 0, vel: 20, sprite: image(6, 100, 50) };
    assert!(background.fills((800, 600)));
    assert!(background.fills((0, 1)));
    assert!(!background.fills((800, 0)));
    let thin = Background { pos: 0, vel: 20, sprite: image(6, 1, 50) };
    assert!(!thin.fills((800, 49)));
    assert!(thin.fills((800, 50)));
    let empty = Background { pos: 0, vel: 20, sprite: image(6, 0, 50) };
    assert!(!empty.fills((800, 600)));
}

fn game(phi: &Phi) -> phi::views::game::ShipView {
    phi::views::game::ShipView::new(
        phi,
        &image(2, 129, 117),
        &image(5, 2016, 672),
        image(6, 100, 300),
        image(7, 100, 600),
        image(8, 100, 600),
    )
}

#[test]
fn game_starts_with_everything_in_place() {
    let phi = context(800, 600);
    let view = game(&phi);
    assert_eq!(view.player().rect(), rect(64_000, 64_000, 43_000, 39_000));
    assert_eq!(view.asteroid().rect().x, 800_000);
    assert_eq!(view.asteroid().sprite().frames(), 143);
    assert_eq!(*view.bg_back(), Background { pos: 0, vel: 20, sprite: image(6, 100, 300) });
    assert_eq!(*view.bg_middle(), Background { pos: 0, vel: 40, sprite: image(7, 100, 600) });
    assert_eq!(*view.bg_front(), Background { pos: 0, vel: 80, sprite: image(8, 100, 600) });
    assert!(view.ready(&phi));
    assert!(!view.ready(&context(800, 0)));
    assert!(!view.ready(&context(61, 600)));
}

#[test]
fn game_draws_from_back_to_front() {
    let mut phi = context(150, 600);
    let view = game(&phi);
    let asteroid_y = view.asteroid().rect().y;
    let asteroid_vel = view.asteroid().vel();
    let view = match run_frame(&mut phi, view, &vec![Event::KeyDown(Key::Left)]) {
        Next::Present(view) => view,
        _ => panic!("the frame is shown"),
    };
    assert_eq!(view.player().rect(), rect(62_000, 64_000, 43_000, 39_000));
    assert_eq!(view.player().current(), ShipFrame::MidSlow);
    assert_eq!(view.asteroid().rect(), rect(150_000 - asteroid_vel * 10, asteroid_y, 96_000, 96_000));
    assert_eq!(view.asteroid().sprite().current_time(), 10_000);
    assert_eq!(view.bg_back().pos, 200);
    assert_eq!(view.bg_middle().pos, 800);
    assert_eq!(view.bg_front().pos, 0);

    let tile = |id: usize, height: u32, x: i32, w: u32| DrawCommand::Copy {
        texture: Texture { id, width: 100, height },
        src: Some(SdlRect { x: 0, y: 0, w: 100, h: height }),
        dst: Some(SdlRect { x, y: 0, w, h: 600 }),
    };
    let commands = phi.renderer.take_commands();
    assert_eq!(commands.len(), 9);
    assert_eq!(commands[0], BLACK);
    assert_eq!(commands[1], DrawCommand::Clear);
    assert_eq!(commands[2], tile(6, 300, 0, 200));
    assert_eq!(commands[3], tile(7, 600, 0, 100));
    assert_eq!(commands[4], tile(7, 600, 100, 100));
    assert_eq!(
        commands[5],
        DrawCommand::Copy {
            texture: Texture { id: 2, width: 129, height: 117 },
            src: Some(SdlRect { x: 86, y: 39, w: 43, h: 39 }),
            dst: Some(SdlRect { x: 62, y: 64, w: 43, h: 39 }),
        }
    );
    assert_eq!(
        commands[6],
        DrawCommand::Copy {
            texture: Texture { id: 5, width: 2016, height: 672 },
            src: Some(SdlRect { x: 0, y: 0, w: 96, h: 96 }),
            dst: Some(SdlRect {
                x: ((150_000 - asteroid_vel * 10) / 1_000) as i32,
                y: (asteroid_y / 1_000) as i32,
                w: 96,
                h: 96,
            }),
        }
    );
    assert_eq!(commands[7], tile(7, 600, 0, 100));
    assert_eq!(commands[8], tile(7, 600, 100, 100));
}

#[test]
fn game_quits_without_drawing() {
    let mut phi = context(800, 600);
    let view = game(&phi);
    assert!(matches!(run_frame(&mut phi, view, &vec![Event::Quit]), Next::Stop));
    assert_eq!(phi.renderer.take_commands(), vec![]);
}

#[test]
fn game_quits_on_a_screen_without_room() {
    let mut phi = context(10, 0);
    let view = game(&phi);
    assert!(!view.ready(&phi));
    let before = (view.player().rect(), view.asteroid().rect(), view.bg_back().pos, view.bg_middle().pos);
    let mut view = view;
    phi.events.pump(&vec![Event::Quit]);
    assert!(view.ready(&phi));
    assert!(matches!(view.render(&mut phi, 10_000), ViewAction::Quit));
    let after = (view.player().rect(), view.asteroid().rect(), view.bg_back().pos, view.bg_middle().pos);
    assert_eq!(before, after);
    assert_eq!(phi.renderer.take_commands(), vec![]);
    assert!(matches!(run_frame(&mut phi, view, &vec![]), Next::Refused(_)));
}
