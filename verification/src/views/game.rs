//! The game screen: the player's ship, an asteroid that drifts across, and
//! the starry backgrounds.

use crate::context::Phi;
use crate::data::Rectangle;
use crate::gfx::{
    delay_for_fps, fps_in_range, time_after, AnimatedSprite, CopySprite, Renderable, Sprite,
    TICKS_PER_SECOND,
};
use crate::num::{clamp_i64, div_toward_zero, saturate_i64, trunc_div};
use crate::render::{Color, DrawCommand};
use crate::view::ViewAction;
use crate::views::shared::Background;
use crate::views::{
    cut_sheet, lemma_sheet_holds, on_screen, quit_asked, screen_fits_ship, screen_of, sheet_cell,
    Ship, SHIP_H, SHIP_W, SUBPIXELS,
};
use vstd::prelude::*;

verus! {

/// Whether the box of the player's ship is drawn under it.
pub const DEBUG: bool = false;

/// The cells in a row of the sheet of asteroid pictures.
pub const ASTEROIDS_WIDE: usize = 21;

/// The rows of the sheet of asteroid pictures.
pub const ASTEROIDS_HIGH: usize = 7;

/// The pictures in the sheet: the last four cells of the last row are
/// empty.
pub const ASTEROIDS_TOTAL: usize = ASTEROIDS_WIDE * ASTEROIDS_HIGH - 4;

/// The width and height of an asteroid, in screen units.
pub const ASTEROIDS_SIDE: i64 = 96;

/// The share `r` of `range`, where `r` counts parts of two to the power of
/// thirty-two, rounded toward zero: a point of `range` picked by a random
/// number.
pub open spec fn share(r: u32, range: int) -> int {
    trunc_div(r * range, 0x1_0000_0000)
}

/// The rate of an asteroid's animation that the random number `r` picks:
/// from ten frames a second up to, but not reaching, thirty.
pub open spec fn fps_for(r: u32) -> int {
    10 + share(r, 20)
}

/// The speed of an asteroid that the random number `r` picks, in screen
/// units a second: from fifty up to, but not reaching, a hundred and fifty.
pub open spec fn vel_for(r: u32) -> int {
    50 + share(r, 100)
}

/// Where an asteroid starts on a screen of the given size, in position
/// units: just past the right edge, at a height that the random number `r`
/// picks so that the asteroid is in full view wherever the screen is high
/// enough.
pub open spec fn start_rect(screen: (i64, i64), r: u32) -> Rectangle {
    Rectangle {
        x: (screen.0 * SUBPIXELS) as i64,
        y: share(r, (screen.1 - ASTEROIDS_SIDE) * SUBPIXELS) as i64,
        w: (ASTEROIDS_SIDE * SUBPIXELS) as i64,
        h: (ASTEROIDS_SIDE * SUBPIXELS) as i64,
    }
}

/// How far to the left of `x` an asteroid of speed `vel` is after `dt`
/// microseconds, in position units.
pub open spec fn drifted(x: int, vel: int, dt: int) -> int {
    clamp_i64(x - trunc_div(dt * vel, TICKS_PER_SECOND / SUBPIXELS)) as int
}

/// The share of a random number in a range.
pub proof fn lemma_share_bounds(r: u32, range: int)
    ensures
        range >= 0 ==> 0 <= share(r, range) <= range && (range > 0 ==> share(r, range) < range),
        range <= 0 ==> range <= share(r, range) <= 0,
{
    let whole = 0x1_0000_0000int;
    if range >= 0 {
        assert(0 <= r * range <= (whole - 1) * range) by (nonlinear_arith)
            requires
                0 <= r < whole,
                range >= 0,
        ;
        assert(0 <= (r * range) / whole <= range && (range > 0 ==> (r * range) / whole < range))
            by (nonlinear_arith)
            requires
                0 <= r * range <= (whole - 1) * range,
                range >= 0,
                whole == 0x1_0000_0000int,
        ;
    } else {
        let n = -(r * range);
        assert(0 <= n <= (whole - 1) * (-range)) by (nonlinear_arith)
            requires
                0 <= r < whole,
                range < 0,
                n == -(r * range),
        ;
        assert(0 <= n / whole <= -range) by (nonlinear_arith)
            requires
                0 <= n <= (whole - 1) * (-range),
                range < 0,
                whole == 0x1_0000_0000int,
        ;
    }
}

fn share_of(r: u32, range: i64) -> (s: i64)
    ensures
        s == share(r, range as int),
{
    proof {
        lemma_share_bounds(r, range as int);
    }
    assert(-0x1_0000_0000 * 0x8000_0000_0000_0000 <= r * range <= 0x1_0000_0000
        * 0x8000_0000_0000_0000) by (nonlinear_arith)
        requires
            0 <= r <= 0x1_0000_0000,
            -0x8000_0000_0000_0000 <= range <= 0x8000_0000_0000_0000,
    ;
    let s = div_toward_zero(r as i128 * range as i128, 0x1_0000_0000);
    s as i64
}

/// A number drawn by the thread's random number generator, through
/// `rand::random`. Every value of the type may come out, and nothing is
/// claimed of which does.
#[verifier::external_body]
fn random_u32() -> (r: u32) {
    rand::random::<u32>()
}

/// An asteroid: its animation, where it is, in position units, and the
/// screen units it drifts to the left in a second.
pub struct Asteroid {
    sprite: AnimatedSprite,
    rect: Rectangle,
    vel: i64,
}

impl Asteroid {
    /// Every picture has a native form, the asteroid keeps its size, and its
    /// speed is one that a reset picks, or none.
    #[verifier::type_invariant]
    pub closed spec fn wf(self) -> bool {
        &&& self.sprite.wf()
        &&& forall|i: int|
            0 <= i < self.sprite.sprites().len() ==> (#[trigger] self.sprite.sprites()[i]).drawable()
        &&& self.rect.w == ASTEROIDS_SIDE * SUBPIXELS
        &&& self.rect.h == ASTEROIDS_SIDE * SUBPIXELS
        &&& 0 <= self.vel < 150
    }

    /// The animation.
    pub closed spec fn spec_sprite(&self) -> &AnimatedSprite {
        &self.sprite
    }

    /// Where the asteroid is, in position units.
    pub closed spec fn spec_rect(&self) -> Rectangle {
        self.rect
    }

    /// The screen units that the asteroid drifts to the left in a second.
    pub closed spec fn spec_vel(&self) -> i64 {
        self.vel
    }

    /// Whether a reset on a screen of the given size, with the three random
    /// numbers drawn, takes the asteroid from `self` to `after`: it starts
    /// anew at the right edge with a new speed and a new rate of animation;
    /// its pictures and the time of its animation stay.
    pub open spec fn reset_to(
        &self,
        screen: (i64, i64),
        r_fps: u32,
        r_y: u32,
        r_vel: u32,
        after: &Asteroid,
    ) -> bool {
        &&& after.rect() == start_rect(screen, r_y)
        &&& after.vel() == vel_for(r_vel)
        &&& after.sprite().frame_delay() == delay_for_fps(fps_for(r_fps))
        &&& after.sprite().sprites() == self.sprite().sprites()
        &&& after.sprite().current_time() == self.sprite().current_time()
    }

    /// Whether `dt` microseconds on a screen of the given size take the
    /// asteroid from `self` to `after`: it drifts to the left and its
    /// animation goes on; once it has left the screen by its whole width, it
    /// is reset.
    pub open spec fn updated_to(&self, screen: (i64, i64), dt: int, after: &Asteroid) -> bool {
        let x = drifted(self.rect().x as int, self.vel() as int, dt);
        let time = time_after(
            self.sprite().current_time() as int,
            dt,
            self.sprite().frame_delay() as int,
            self.sprite().sprites().len() as int,
        );
        &&& after.sprite().sprites() == self.sprite().sprites()
        &&& after.sprite().current_time() == time
        &&& if x <= -ASTEROIDS_SIDE * SUBPIXELS {
            exists|r_fps: u32, r_y: u32, r_vel: u32|
                {
                    &&& #[trigger] after.rect() == start_rect(screen, r_y)
                    &&& #[trigger] after.vel() == vel_for(r_vel)
                    &&& #[trigger] after.sprite().frame_delay() == delay_for_fps(fps_for(r_fps))
                }
        } else {
            &&& after.rect() == (Rectangle { x: x as i64, ..self.rect() })
            &&& after.vel() == self.vel()
            &&& after.sprite().frame_delay() == self.sprite().frame_delay()
        }
    }

    /// What an asteroid is like: it has the size of an asteroid, a speed
    /// below a hundred and fifty, and an animation of which every frame has a
    /// native form.
    pub proof fn lemma_shape(&self)
        requires
            self.wf(),
        ensures
            self.rect().w == ASTEROIDS_SIDE * SUBPIXELS,
            self.rect().h == ASTEROIDS_SIDE * SUBPIXELS,
            0 <= self.vel() < 150,
            self.sprite().wf(),
            self.sprite().current_frame() < self.sprite().sprites().len(),
            forall|i: int|
                0 <= i < self.sprite().sprites().len() ==> (#[trigger] self.sprite().sprites()[i]).drawable(),
    {
        self.sprite.lemma_current_frame_in_range();
    }

    /// What drawing the asteroid asks of the renderer: a copy of the frame
    /// on show onto the place of the asteroid on the screen.
    pub open spec fn drawing(&self) -> Seq<DrawCommand> {
        self.sprite().drawing(on_screen(self.rect()))
    }

    /// The animation of an asteroid at `fps` frames a second, its frames cut
    /// from `sheet` row by row. The sheet must hold all the rows of cells,
    /// and the rate must have a delay.
    pub fn get_sprite(sheet: &Sprite, fps: i64) -> (sprite: AnimatedSprite)
        requires
            sheet.source().w >= ASTEROIDS_WIDE * ASTEROIDS_SIDE,
            sheet.source().h >= ASTEROIDS_HIGH * ASTEROIDS_SIDE,
            fps_in_range(fps as int),
        ensures
            sprite.wf(),
            sprite.frame_delay() == delay_for_fps(fps as int),
            sprite.current_time() == 0,
            sprite.sprites().len() == ASTEROIDS_TOTAL,
            forall|k: int|
                0 <= k < ASTEROIDS_TOTAL ==> {
                    &&& (#[trigger] sprite.sprites()[k]).texture() == sheet.texture()
                    &&& Some(sprite.sprites()[k].source()) == Sprite::region_of(
                        sheet.source(),
                        sheet_cell(k, ASTEROIDS_WIDE as int, ASTEROIDS_SIDE as int, ASTEROIDS_SIDE as int),
                    )
                    &&& sprite.sprites()[k].drawable()
                },
    {
        proof {
            use_type_invariant(sheet);
            lemma_sheet_holds(
                *sheet,
                ASTEROIDS_HIGH as int,
                ASTEROIDS_WIDE as int,
                ASTEROIDS_SIDE as int,
                ASTEROIDS_SIDE as int,
            );
        }
        let asteroid_sprites = cut_sheet(
            sheet,
            ASTEROIDS_SIDE,
            ASTEROIDS_SIDE,
            ASTEROIDS_WIDE,
            ASTEROIDS_TOTAL,
        );
        AnimatedSprite::with_fps(asteroid_sprites, fps)
    }

    /// An asteroid with its pictures cut from `sheet`, reset for the screen
    /// of `phi`. The sheet must hold all the rows of cells.
    pub fn new(phi: &Phi, sheet: &Sprite) -> (asteroid: Asteroid)
        requires
            sheet.source().w >= ASTEROIDS_WIDE * ASTEROIDS_SIDE,
            sheet.source().h >= ASTEROIDS_HIGH * ASTEROIDS_SIDE,
        ensures
            asteroid.wf(),
            asteroid.sprite().current_time() == 0,
            asteroid.sprite().sprites().len() == ASTEROIDS_TOTAL,
            forall|k: int|
                0 <= k < ASTEROIDS_TOTAL ==> {
                    &&& (#[trigger] asteroid.sprite().sprites()[k]).texture() == sheet.texture()
                    &&& Some(asteroid.sprite().sprites()[k].source()) == Sprite::region_of(
                        sheet.source(),
                        sheet_cell(k, ASTEROIDS_WIDE as int, ASTEROIDS_SIDE as int, ASTEROIDS_SIDE as int),
                    )
                },
            exists|r_fps: u32, r_y: u32, r_vel: u32|
                {
                    &&& #[trigger] asteroid.rect() == start_rect(screen_of(*phi), r_y)
                    &&& #[trigger] asteroid.vel() == vel_for(r_vel)
                    &&& #[trigger] asteroid.sprite().frame_delay() == delay_for_fps(fps_for(r_fps))
                },
    {
        let mut asteroid = Asteroid {
            sprite: Asteroid::get_sprite(sheet, 15),
            rect: Rectangle {
                x: 128 * SUBPIXELS,
                y: 128 * SUBPIXELS,
                w: ASTEROIDS_SIDE * SUBPIXELS,
                h: ASTEROIDS_SIDE * SUBPIXELS,
            },
            vel: 0,
        };
        asteroid.reset(phi);
        asteroid
    }

    /// The animation.
    #[verifier::when_used_as_spec(spec_sprite)]
    pub fn sprite(&self) -> (sprite: &AnimatedSprite)
        ensures
            sprite == self.spec_sprite(),
    {
        &self.sprite
    }

    /// Where the asteroid is, in position units.
    #[verifier::when_used_as_spec(spec_rect)]
    pub fn rect(&self) -> (rect: Rectangle)
        ensures
            rect == self.spec_rect(),
    {
        self.rect
    }

    /// The screen units that the asteroid drifts to the left in a second.
    #[verifier::when_used_as_spec(spec_vel)]
    pub fn vel(&self) -> (vel: i64)
        ensures
            vel == self.spec_vel(),
            0 <= vel < 150,
    {
        proof {
            use_type_invariant(self);
        }
        self.vel
    }

    /// Lets `dt` microseconds pass: the asteroid drifts to the left and its
    /// animation goes on. Once it has left the screen by its whole width, it
    /// is reset.
    pub fn update(&mut self, phi: &Phi, dt: i64)
        ensures
            final(self).wf(),
            old(self).updated_to(screen_of(*phi), dt as int, final(self)),
    {
        proof {
            use_type_invariant(&*self);
        }
        assert(-0x8000_0000_0000_0000 * 150 <= dt * self.vel <= 0x8000_0000_0000_0000 * 150)
            by (nonlinear_arith)
            requires
                -0x8000_0000_0000_0000 <= dt <= 0x8000_0000_0000_0000,
                0 <= self.vel <= 150,
        ;
        let step = div_toward_zero(
            dt as i128 * self.vel as i128,
            (TICKS_PER_SECOND / SUBPIXELS) as i128,
        );
        proof {
            crate::num::lemma_trunc_div_bounds(dt * self.vel, TICKS_PER_SECOND / SUBPIXELS);
        }
        self.rect.x = saturate_i64(self.rect.x as i128 - step);
        self.sprite.add_time(dt);

        if self.rect.x <= -ASTEROIDS_SIDE * SUBPIXELS {
            self.reset(phi);
        }
    }

    /// Draws the asteroid.
    pub fn render(&self, phi: &mut Phi)
        ensures
            final(phi).renderer@ == old(phi).renderer@ + self.drawing(),
            final(phi).renderer.output_size() == old(phi).renderer.output_size(),
            final(phi).events == old(phi).events,
            final(phi).cached_fonts == old(phi).cached_fonts,
    {
        proof {
            use_type_invariant(self);
            self.sprite.lemma_current_frame_in_range();
        }
        phi.renderer.copy_sprite(&self.sprite, on_screen(self.rect));
    }

    /// Starts the asteroid anew for the screen of `phi`, with a rate of
    /// animation, a height and a speed that are drawn at random.
    pub fn reset(&mut self, phi: &Phi)
        ensures
            final(self).wf(),
            exists|r_fps: u32, r_y: u32, r_vel: u32|
                #[trigger] old(self).reset_to(screen_of(*phi), r_fps, r_y, r_vel, final(self)),
    {
        let r_fps = random_u32();
        let r_y = random_u32();
        let r_vel = random_u32();
        let screen = phi.output_size();
        self.reset_with(screen, r_fps, r_y, r_vel);
        proof {
            assert(screen == screen_of(*phi));
            assert(old(self).reset_to(screen_of(*phi), r_fps, r_y, r_vel, self));
        }
    }

    /// Starts the asteroid anew on a screen of the given size, which must be
    /// that of a drawing target: the rate of its animation, its height and
    /// its speed are what the three random numbers pick.
    pub fn reset_with(&mut self, screen: (i64, i64), r_fps: u32, r_y: u32, r_vel: u32)
        requires
            0 <= screen.0 <= u32::MAX,
            0 <= screen.1 <= u32::MAX,
        ensures
            final(self).wf(),
            old(self).reset_to(screen, r_fps, r_y, r_vel, final(self)),
            10 <= fps_for(r_fps) < 30,
            50 <= vel_for(r_vel) < 150,
    {
        proof {
            use_type_invariant(&*self);
            lemma_share_bounds(r_fps, 20);
            lemma_share_bounds(r_y, (screen.1 - ASTEROIDS_SIDE) * SUBPIXELS);
            lemma_share_bounds(r_vel, 100);
        }
        let (w, h) = screen;

        self.sprite.set_fps(share_of(r_fps, 20) + 10);

        self.rect = Rectangle {
            x: w * SUBPIXELS,
            y: share_of(r_y, (h - ASTEROIDS_SIDE) * SUBPIXELS),
            w: ASTEROIDS_SIDE * SUBPIXELS,
            h: ASTEROIDS_SIDE * SUBPIXELS,
        };

        self.vel = share_of(r_vel, 100) + 50;
    }
}

/// The game screen.
pub struct ShipView {
    player: Ship,
    asteroid: Asteroid,
    bg_back: Background,
    bg_middle: Background,
    bg_front: Background,
}

/// What drawing the box of a ship at `rect` asks of the renderer, where
/// boxes are drawn at all.
pub open spec fn debug_drawing(rect: Rectangle) -> Seq<DrawCommand> {
    if DEBUG {
        seq![
            DrawCommand::SetDrawColor(Color { r: 200, g: 200, b: 50, a: 255 }),
            DrawCommand::FillRect(on_screen(rect).spec_to_sdl()),
        ]
    } else {
        Seq::empty()
    }
}

impl ShipView {
    /// The player's ship.
    pub closed spec fn spec_player(&self) -> &Ship {
        &self.player
    }

    /// The asteroid.
    pub closed spec fn spec_asteroid(&self) -> &Asteroid {
        &self.asteroid
    }

    /// The background that lies furthest back.
    pub closed spec fn spec_bg_back(&self) -> &Background {
        &self.bg_back
    }

    /// The background in the middle.
    pub closed spec fn spec_bg_middle(&self) -> &Background {
        &self.bg_middle
    }

    /// The background that lies furthest to the front.
    pub closed spec fn spec_bg_front(&self) -> &Background {
        &self.bg_front
    }

    /// The game at its start: the ship at rest with its pictures cut from
    /// `spritesheet`, an asteroid cut from `asteroids` and reset for the
    /// screen of `phi`, and the three backgrounds unscrolled, each faster
    /// than the one behind it. The sheets must hold their cells.
    pub fn new(
        phi: &Phi,
        spritesheet: &Sprite,
        asteroids: &Sprite,
        back: Sprite,
        middle: Sprite,
        front: Sprite,
    ) -> (view: ShipView)
        requires
            spritesheet.source().w >= 3 * SHIP_W,
            spritesheet.source().h >= 3 * SHIP_H,
            asteroids.source().w >= ASTEROIDS_WIDE * ASTEROIDS_SIDE,
            asteroids.source().h >= ASTEROIDS_HIGH * ASTEROIDS_SIDE,
        ensures
            view.player().wf(),
            view.player().rect() == crate::views::ship_at_start(),
            view.player().current() == crate::views::ShipFrame::MidNorm,
            view.player().sprites().len() == 9,
            forall|k: int|
                0 <= k < 9 ==> {
                    &&& (#[trigger] view.player().sprites()[k]).texture() == spritesheet.texture()
                    &&& Some(view.player().sprites()[k].source()) == Sprite::region_of(
                        spritesheet.source(),
                        sheet_cell(k, 3, SHIP_W as int, SHIP_H as int),
                    )
                },
            view.asteroid().wf(),
            view.asteroid().sprite().current_time() == 0,
            view.asteroid().sprite().sprites().len() == ASTEROIDS_TOTAL,
            forall|k: int|
                0 <= k < ASTEROIDS_TOTAL ==> {
                    &&& (#[trigger] view.asteroid().sprite().sprites()[k]).texture()
                        == asteroids.texture()
                    &&& Some(view.asteroid().sprite().sprites()[k].source()) == Sprite::region_of(
                        asteroids.source(),
                        sheet_cell(k, ASTEROIDS_WIDE as int, ASTEROIDS_SIDE as int, ASTEROIDS_SIDE as int),
                    )
                },
            exists|r_fps: u32, r_y: u32, r_vel: u32|
                {
                    &&& #[trigger] view.asteroid().rect() == start_rect(screen_of(*phi), r_y)
                    &&& #[trigger] view.asteroid().vel() == vel_for(r_vel)
                    &&& #[trigger] view.asteroid().sprite().frame_delay() == delay_for_fps(
                        fps_for(r_fps),
                    )
                },
            *view.bg_back() == (Background { pos: 0, vel: 20, sprite: back }),
            *view.bg_middle() == (Background { pos: 0, vel: 40, sprite: middle }),
            *view.bg_front() == (Background { pos: 0, vel: 80, sprite: front }),
    {
        ShipView {
            player: Ship::new(spritesheet),
            asteroid: Asteroid::new(phi, asteroids),
            bg_back: Background { pos: 0, vel: 20, sprite: back },
            bg_middle: Background { pos: 0, vel: 40, sprite: middle },
            bg_front: Background { pos: 0, vel: 80, sprite: front },
        }
    }

    /// The player's ship.
    #[verifier::when_used_as_spec(spec_player)]
    pub fn player(&self) -> (ship: &Ship)
        ensures
            ship == self.spec_player(),
    {
        &self.player
    }

    /// The asteroid.
    #[verifier::when_used_as_spec(spec_asteroid)]
    pub fn asteroid(&self) -> (asteroid: &Asteroid)
        ensures
            asteroid == self.spec_asteroid(),
    {
        &self.asteroid
    }

    /// The background that lies furthest back.
    #[verifier::when_used_as_spec(spec_bg_back)]
    pub fn bg_back(&self) -> (background: &Background)
        ensures
            background == self.spec_bg_back(),
    {
        &self.bg_back
    }

    /// The background in the middle.
    #[verifier::when_used_as_spec(spec_bg_middle)]
    pub fn bg_middle(&self) -> (background: &Background)
        ensures
            background == self.spec_bg_middle(),
    {
        &self.bg_middle
    }

    /// The background that lies furthest to the front.
    #[verifier::when_used_as_spec(spec_bg_front)]
    pub fn bg_front(&self) -> (background: &Background)
        ensures
            background == self.spec_bg_front(),
    {
        &self.bg_front
    }
}

/// The background `background` with `pos` as how far it has scrolled.
pub open spec fn scrolled_to(background: Background, pos: int) -> Background {
    Background { pos: pos as i64, ..background }
}

/// The background `background` after it has been drawn once, `elapsed`
/// microseconds on.
pub open spec fn scrolled(background: Background, elapsed: int) -> Background {
    scrolled_to(
        background,
        Background::advanced(
            background.pos as int,
            background.vel as int,
            elapsed,
            background.sprite.source().w as int,
        ),
    )
}

impl crate::view::View for ShipView {
    /// The frame asks for the program to end; or the screen has room for the
    /// ship, and the two backgrounds that are drawn can fill it.
    open spec fn accepts(&self, context: &Phi) -> bool {
        quit_asked(&context.events) || {
            &&& screen_fits_ship(screen_of(*context))
            &&& self.bg_back().can_fill(context.renderer.output_size())
            &&& self.bg_middle().can_fill(context.renderer.output_size())
        }
    }

    /// A frame that asks for the program to end gives `Quit` and changes
    /// nothing, whatever the size of the screen. Any other steers the ship
    /// and lets the asteroid drift, then
    /// clears the target to black and draws, from back to front: the back
    /// and the middle background, the ship, the asteroid, and the middle
    /// background once more. The front background is kept and not drawn.
    open spec fn renders(
        before: (Self, Phi),
        elapsed: i64,
        after: (Self, Phi),
        action: ViewAction<Self>,
    ) -> bool {
        if quit_asked(&before.1.events) {
            &&& action is Quit
            &&& after == before
        } else {
            let output = before.1.renderer.output_size();
            let middle_once = scrolled(*before.0.bg_middle(), elapsed as int);
            &&& action is Continue
            &&& before.0.player().steered_to(
                before.1.events,
                elapsed as int,
                screen_of(before.1),
                after.0.player(),
            )
            &&& after.0.asteroid().wf()
            &&& before.0.asteroid().updated_to(
                screen_of(before.1),
                elapsed as int,
                after.0.asteroid(),
            )
            &&& *after.0.bg_back() == scrolled(*before.0.bg_back(), elapsed as int)
            &&& *after.0.bg_middle() == scrolled(middle_once, elapsed as int)
            &&& *after.0.bg_front() == *before.0.bg_front()
            &&& after.1.events == before.1.events
            &&& after.1.cached_fonts == before.1.cached_fonts
            &&& after.1.renderer.output_size() == output
            &&& after.1.renderer@ == before.1.renderer@ + seq![
                DrawCommand::SetDrawColor(Color { r: 0, g: 0, b: 0, a: 255 }),
                DrawCommand::Clear,
            ] + after.0.bg_back().drawing(output) + middle_once.drawing(output) + debug_drawing(
                after.0.player().rect(),
            ) + after.0.player().drawing() + after.0.asteroid().drawing()
                + after.0.bg_middle().drawing(output)
        }
    }

    fn ready(&self, context: &Phi) -> (ready: bool) {
        if quit_asked(&context.events) {
            return true;
        }
        let (w, h) = context.output_size();
        let output = context.renderer.output_size();
        SHIP_W * SUBPIXELS <= w * SUBPIXELS * 7 / 10 && SHIP_H * SUBPIXELS <= h * SUBPIXELS
            && self.bg_back.fills(output) && self.bg_middle.fills(output)
    }

    fn render(&mut self, context: &mut Phi, elapsed: i64) -> (action: ViewAction<ShipView>) {
        if quit_asked(&context.events) {
            return ViewAction::Quit;
        }
        let ghost output = context.renderer.output_size();
        let ghost start = context.renderer@;
        let screen = context.output_size();
        self.player.steer(&context.events, elapsed, screen);

        // Update the asteroid
        self.asteroid.update(context, elapsed);

        // Clear the screen
        context.renderer.set_draw_color(Color::RGB(0, 0, 0));
        context.renderer.clear();

        // Render the backgrounds
        self.bg_back.render(&mut context.renderer, elapsed);
        self.bg_middle.render(&mut context.renderer, elapsed);
        let ghost middle_once = self.bg_middle;
        let ghost behind = context.renderer@;

        // Render the bounding box
        if DEBUG {
            context.renderer.set_draw_color(Color::RGB(200, 200, 50));
            context.renderer.fill_rect(on_screen(self.player.rect()).to_sdl());
        }
        // Render the ship
        self.player.render(&mut context.renderer);

        // Render the asteroid
        self.asteroid.render(context);

        // Render the background in front
        self.bg_middle.render(&mut context.renderer, elapsed);

        proof {
            assert(behind =~= start + seq![
                DrawCommand::SetDrawColor(Color { r: 0, g: 0, b: 0, a: 255 }),
                DrawCommand::Clear,
            ] + self.bg_back.drawing(output) + middle_once.drawing(output));
            assert(context.renderer@ =~= behind + debug_drawing(self.player.rect())
                + self.player.drawing() + self.asteroid.drawing() + self.bg_middle.drawing(output));
        }
        ViewAction::Continue
    }
}

} // verus!
