use phi::data::{Rectangle, SdlRect};
use phi::gfx::{AnimatedSprite, CopySprite, Renderable, Sprite, TICKS_PER_SECOND};
use phi::render::{DrawCommand, Renderer, Texture};

fn rect(x: i64, y: i64, w: i64, h: i64) -> Rectangle {
    Rectangle { x, y, w, h }
}

fn sheet(width: u32, height: u32) -> Sprite {
    Sprite::new(Texture { id: 3, width, height })
}

fn frames(count: usize) -> Vec<Sprite> {
    let whole = sheet(96 * count as u32, 96);
    (0..count).map(|i| whole.region(rect(96 * i as i64, 0, 96, 96)).unwrap()).collect()
}

#[test]
fn new_sprite_shows_the_whole_texture() {
    let texture = Texture { id: 9, width: 640, height: 480 };
    let sprite = Sprite::new(texture);
    assert_eq!(sprite.texture(), texture);
    assert_eq!(sprite.source(), rect(0, 0, 640, 480));
    assert_eq!(sprite.size(), (640, 480));
}

#[test]
fn load_follows_the_decoder() {
    assert_eq!(Sprite::load(None), None);
    let texture = Texture { id: 1, width: 8, height: 4 };
    assert_eq!(Sprite::load(Some(texture)), Some(Sprite::new(texture)));
}

#[test]
fn region_exceeding_bounds_fails() {
    let sprite = sheet(96, 96);
    assert_eq!(sprite.region(rect(0, 0, 97, 96)), None);
    assert_eq!(sprite.region(rect(0, 0, 96, 97)), None);
    assert_eq!(sprite.region(rect(-1, 0, 10, 10)), None);
    assert_eq!(sprite.region(rect(90, 90, 7, 6)), None);
}

#[test]
fn region_of_full_region_is_the_same_sprite() {
    let sprite = sheet(96, 96);
    assert_eq!(sprite.region(rect(0, 0, 96, 96)), Some(sprite));
    let part = sprite.region(rect(10, 20, 30, 40)).unwrap();
    assert_eq!(part.region(rect(0, 0, 30, 40)), Some(part));
    assert_eq!(part.texture(), sprite.texture());
}

#[test]
fn region_is_relative_to_the_current_region() {
    let part = sheet(200, 100).region(rect(50, 10, 100, 80)).unwrap();
    assert_eq!(part.source(), rect(50, 10, 100, 80));
    let inner = part.region(rect(20, 30, 80, 50)).unwrap();
    assert_eq!(inner.source(), rect(70, 40, 80, 50));
    assert_eq!(inner.size(), (80, 50));
    assert_eq!(part.region(rect(20, 30, 81, 50)), None);
    assert_eq!(part.source(), rect(50, 10, 100, 80));
}

#[test]
fn region_with_huge_offsets_fails() {
    let sprite = sheet(96, 96);
    assert_eq!(sprite.region(rect(i64::MAX, 0, 1, 1)), None);
    assert_eq!(sprite.region(rect(0, i64::MIN, 1, 1)), None);
    assert_eq!(sprite.region(rect(0, 0, i64::MAX, 1)), None);
}

#[test]
fn size_is_stable() {
    let sprite = sheet(96, 96).region(rect(1, 2, 3, 4)).unwrap();
    let first = sprite.size();
    let second = sprite.size();
    assert_eq!(first, second);
    assert_eq!(first, (3, 4));
}

#[test]
fn sprite_render_requests_one_copy() {
    let sprite = sheet(200, 100).region(rect(50, 10, 100, 80)).unwrap();
    let mut renderer = Renderer::new(800, 600);
    sprite.render(&mut renderer, rect(5, 6, 7, 8));
    assert_eq!(
        renderer.take_commands(),
        vec![DrawCommand::Copy {
            texture: Texture { id: 3, width: 200, height: 100 },
            src: Some(SdlRect { x: 50, y: 10, w: 100, h: 80 }),
            dst: Some(SdlRect { x: 5, y: 6, w: 7, h: 8 }),
        }]
    );
    assert_eq!(sprite.source(), rect(50, 10, 100, 80));
}

#[test]
fn frame_selection_is_periodic() {
    let mut animation = AnimatedSprite::new(frames(4), 100_000);
    assert_eq!(animation.frames(), 4);
    assert_eq!(animation.current_frame(), 0);
    animation.add_time(50_000);
    assert_eq!(animation.current_frame(), 0);
    animation.add_time(100_000);
    assert_eq!(animation.current_time(), 150_000);
    assert_eq!(animation.current_frame(), 1);
    animation.add_time(300_000);
    assert_eq!(animation.current_time(), 450_000);
    assert_eq!(animation.current_frame(), 0);
}

#[test]
fn frame_selection_repeats_after_every_round() {
    for start in [0i64, 1, 99_999, 100_000, 250_000, 399_999] {
        let mut animation = AnimatedSprite::new(frames(4), 100_000);
        animation.add_time(start);
        let frame = animation.current_frame();
        for _ in 0..5 {
            animation.add_time(400_000);
            assert_eq!(animation.current_frame(), frame);
        }
    }
}

#[test]
fn add_time_rewinds_to_the_last_frame() {
    let mut animation = AnimatedSprite::new(frames(4), 100_000);
    animation.add_time(-1_000_000_000);
    assert_eq!(animation.current_time(), 300_000);
    assert_eq!(animation.current_frame(), 3);
    animation.add_time(-300_000);
    assert_eq!(animation.current_time(), 0);
    animation.add_time(-1);
    assert_eq!(animation.current_time(), 300_000);
}

#[test]
fn add_time_saturates() {
    let mut animation = AnimatedSprite::new(frames(2), 1);
    animation.add_time(i64::MAX);
    animation.add_time(i64::MAX);
    assert_eq!(animation.current_time(), i64::MAX);
    animation.add_time(i64::MIN);
    assert_eq!(animation.current_time(), 1);
    let mut slow = AnimatedSprite::new(frames(3), i64::MAX);
    slow.add_time(-1);
    assert_eq!(slow.current_time(), i64::MAX);
}

#[test]
fn with_fps_sets_the_delay() {
    assert_eq!(TICKS_PER_SECOND, 1_000_000);
    assert_eq!(AnimatedSprite::with_fps(frames(1), 10).frame_delay(), 100_000);
    assert_eq!(AnimatedSprite::with_fps(frames(1), 15).frame_delay(), 66_666);
    assert_eq!(AnimatedSprite::with_fps(frames(1), 1_000_000).frame_delay(), 1);
    assert_eq!(AnimatedSprite::with_fps(frames(1), -4).frame_delay(), -250_000);
    assert_eq!(AnimatedSprite::with_fps(frames(1), -3).frame_delay(), -333_333);
    assert_eq!(AnimatedSprite::with_fps(frames(1), 10).current_time(), 0);
}

#[test]
fn set_fps_and_set_frame_delay_keep_the_time() {
    let mut animation = AnimatedSprite::new(frames(4), 100_000);
    animation.add_time(250_000);
    animation.set_fps(20);
    assert_eq!(animation.frame_delay(), 50_000);
    assert_eq!(animation.current_time(), 250_000);
    assert_eq!(animation.current_frame(), 1);
    animation.set_frame_delay(-50_000);
    assert_eq!(animation.frame_delay(), -50_000);
    assert_eq!(animation.current_time(), 250_000);
    assert_eq!(animation.frames(), 4);
}

#[test]
fn negative_delay_plays_backwards() {
    let mut animation = AnimatedSprite::new(frames(4), -100_000);
    assert_eq!(animation.current_frame(), 0);
    let mut shown = Vec::new();
    for _ in 0..9 {
        animation.add_time(50_000);
        shown.push(animation.current_frame());
    }
    assert_eq!(animation.current_time(), 450_000);
    assert_eq!(shown, vec![3, 3, 2, 2, 1, 1, 0, 0, 3]);
}

#[test]
fn frame_is_the_floored_quotient_counted_round() {
    let mut animation = AnimatedSprite::new(frames(4), -100_000);
    animation.add_time(250_000);
    assert_eq!(animation.current_frame(), 1);
    animation.add_time(50_000);
    assert_eq!(animation.current_time(), 300_000);
    assert_eq!(animation.current_frame(), 1);
    animation.add_time(1);
    assert_eq!(animation.current_frame(), 0);

    let mut other = AnimatedSprite::new(frames(4), 100_000);
    other.add_time(250_000);
    assert_eq!(other.current_frame(), 2);
    other.set_frame_delay(-100_000);
    assert_eq!(other.current_frame(), 1);
    other.set_fps(-10);
    assert_eq!(other.current_frame(), 1);
    other.set_fps(10);
    assert_eq!(other.current_frame(), 2);
}

#[test]
fn rewinding_with_a_negative_delay_shows_the_last_frame() {
    let mut animation = AnimatedSprite::new(frames(4), -100_000);
    animation.add_time(50_000);
    animation.add_time(-60_000);
    assert_eq!(animation.current_time(), -300_000);
    assert_eq!(animation.current_frame(), 3);
    animation.add_time(100_000);
    assert_eq!(animation.current_time(), -300_000);
    animation.add_time(300_001);
    assert_eq!(animation.current_time(), 1);
    assert_eq!(animation.current_frame(), 3);
}

#[test]
fn negative_periods_repeat_too() {
    for start in [0i64, 1, 99_999, 100_000, 250_000, 399_999] {
        let mut animation = AnimatedSprite::new(frames(4), -100_000);
        animation.add_time(start);
        let frame = animation.current_frame();
        for _ in 0..5 {
            animation.add_time(400_000);
            assert_eq!(animation.current_frame(), frame);
        }
    }
}

#[test]
fn frame_index_handles_the_ends_of_the_range() {
    let mut animation = AnimatedSprite::new(frames(3), -1);
    animation.add_time(-5);
    assert_eq!(animation.current_time(), -2);
    assert_eq!(animation.current_frame(), 2);
    let mut far = AnimatedSprite::new(frames(3), 1);
    far.add_time(i64::MAX);
    assert_eq!(far.current_frame(), (i64::MAX % 3) as usize);
    far.set_frame_delay(-1);
    assert_eq!(far.current_frame(), 2);
    far.set_frame_delay(i64::MIN);
    assert_eq!(far.current_frame(), 2);
    far.set_frame_delay(i64::MAX);
    assert_eq!(far.current_frame(), 1);
    let mut low = AnimatedSprite::new(frames(3), i64::MIN);
    low.add_time(-1);
    assert_eq!(low.current_time(), i64::MIN);
    assert_eq!(low.current_frame(), 1);
    low.set_frame_delay(1);
    assert_eq!(low.current_frame(), 1);
    low.set_frame_delay(i64::MAX);
    assert_eq!(low.current_frame(), 1);
}

#[test]
fn animated_sprite_renders_the_current_frame() {
    let mut animation = AnimatedSprite::new(frames(4), 100_000);
    animation.add_time(250_000);
    let mut renderer = Renderer::new(800, 600);
    renderer.copy_sprite(&animation, rect(1, 2, 96, 96));
    assert_eq!(
        renderer.take_commands(),
        vec![DrawCommand::Copy {
            texture: Texture { id: 3, width: 384, height: 96 },
            src: Some(SdlRect { x: 192, y: 0, w: 96, h: 96 }),
            dst: Some(SdlRect { x: 1, y: 2, w: 96, h: 96 }),
        }]
    );
}

#[test]
fn copy_sprite_appends_to_the_draw_list() {
    let sprite = sheet(10, 10);
    let mut renderer = Renderer::new(800, 600);
    renderer.clear();
    renderer.copy_sprite(&sprite, rect(0, 0, 0, 10));
    let commands = renderer.take_commands();
    assert_eq!(commands.len(), 2);
    assert_eq!(commands[0], DrawCommand::Clear);
    assert_eq!(
        commands[1],
        DrawCommand::Copy {
            texture: sprite.texture(),
            src: Some(SdlRect { x: 0, y: 0, w: 10, h: 10 }),
            dst: None,
        }
    );
}
