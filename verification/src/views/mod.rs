//! The screens of the game, and the player's ship that they share.

pub mod game;
pub mod shared;

use crate::context::Phi;
use crate::data::Rectangle;
use crate::events::Events;
use crate::gfx::{CopySprite, Renderable, Sprite, TICKS_PER_SECOND};
use crate::num::{div_toward_zero, trunc_div};
use crate::render::{Color, DrawCommand, Renderer};
use crate::view::ViewAction;
use vstd::prelude::*;

verus! {

/// Screen units that the player's ship travels in a second while it moves.
pub const PLAYER_SPEED: i64 = 180;

/// The width of the ship, in screen units.
pub const SHIP_W: i64 = 43;

/// The height of the ship, in screen units.
pub const SHIP_H: i64 = 39;

/// Positions of things that move are kept in parts of a screen unit, this
/// many to one, so that slow movement is not lost between frames.
pub const SUBPIXELS: i64 = 1_000;

/// The part of a step along one axis that a ship moving along both makes,
/// as parts of a million: one over the square root of two.
pub const DIAGONAL_PARTS: i64 = 707_107;

/// A rectangle given in position units, in screen units: each side divided
/// by the number of position units to a screen unit, rounded toward zero.
pub open spec fn spec_on_screen(rect: Rectangle) -> Rectangle {
    Rectangle {
        x: trunc_div(rect.x as int, SUBPIXELS as int) as i64,
        y: trunc_div(rect.y as int, SUBPIXELS as int) as i64,
        w: trunc_div(rect.w as int, SUBPIXELS as int) as i64,
        h: trunc_div(rect.h as int, SUBPIXELS as int) as i64,
    }
}

/// A rectangle given in position units, in screen units.
#[verifier::when_used_as_spec(spec_on_screen)]
pub fn on_screen(rect: Rectangle) -> (r: Rectangle)
    ensures
        r == spec_on_screen(rect),
        rect.w >= 0 ==> r.w >= 0,
        rect.h >= 0 ==> r.h >= 0,
{
    proof {
        crate::num::lemma_trunc_div_bounds(rect.x as int, SUBPIXELS as int);
        crate::num::lemma_trunc_div_bounds(rect.y as int, SUBPIXELS as int);
        crate::num::lemma_trunc_div_bounds(rect.w as int, SUBPIXELS as int);
        crate::num::lemma_trunc_div_bounds(rect.h as int, SUBPIXELS as int);
    }
    Rectangle {
        x: div_toward_zero(rect.x as i128, SUBPIXELS as i128) as i64,
        y: div_toward_zero(rect.y as i128, SUBPIXELS as i128) as i64,
        w: div_toward_zero(rect.w as i128, SUBPIXELS as i128) as i64,
        h: div_toward_zero(rect.h as i128, SUBPIXELS as i128) as i64,
    }
}

/// The cell `k` of a sheet that is cut into cells of `cell_w` by `cell_h`,
/// `wide` to a row, counted row by row from the top left.
pub open spec fn sheet_cell(k: int, wide: int, cell_w: int, cell_h: int) -> Rectangle {
    Rectangle {
        x: ((k % wide) * cell_w) as i64,
        y: ((k / wide) * cell_h) as i64,
        w: cell_w as i64,
        h: cell_h as i64,
    }
}

/// Whether the first `total` cells of such a sheet all lie within the region
/// `sheet`.
pub open spec fn sheet_holds(sheet: Rectangle, total: int, wide: int, cell_w: int, cell_h: int) -> bool {
    forall|k: int|
        0 <= k < total ==> (#[trigger] Sprite::region_of(
            sheet,
            sheet_cell(k, wide, cell_w, cell_h),
        )) is Some
}

/// A sheet that is as wide as a row of cells and as high as `rows` rows
/// holds every cell of those rows.
pub proof fn lemma_sheet_holds(sheet: Sprite, rows: int, wide: int, cell_w: int, cell_h: int)
    requires
        sheet.wf(),
        1 <= wide,
        0 <= rows,
        0 <= cell_w <= i32::MAX,
        0 <= cell_h <= i32::MAX,
        wide * cell_w <= sheet.source().w,
        rows * cell_h <= sheet.source().h,
    ensures
        sheet_holds(sheet.source(), rows * wide, wide, cell_w, cell_h),
{
    Sprite::lemma_source_within_texture(sheet);
    let region = sheet.source();
    assert forall|k: int| 0 <= k < rows * wide implies (#[trigger] Sprite::region_of(
        region,
        sheet_cell(k, wide, cell_w, cell_h),
    )) is Some by {
        let column = k % wide;
        let row = k / wide;
        assert(0 <= column < wide && 0 <= row < rows) by (nonlinear_arith)
            requires
                0 <= k < rows * wide,
                1 <= wide,
                column == k % wide,
                row == k / wide,
        ;
        assert(0 <= column * cell_w && column * cell_w + cell_w <= wide * cell_w) by (nonlinear_arith)
            requires
                0 <= column < wide,
                0 <= cell_w,
        ;
        assert(0 <= row * cell_h && row * cell_h + cell_h <= rows * cell_h) by (nonlinear_arith)
            requires
                0 <= row < rows,
                0 <= cell_h,
        ;
    }
}

/// Cuts the first `total` cells out of a sheet of cells of `cell_w` by
/// `cell_h`, `wide` to a row. Every cell must lie within the sheet.
pub fn cut_sheet(sheet: &Sprite, cell_w: i64, cell_h: i64, wide: usize, total: usize) -> (cells: Vec<Sprite>)
    requires
        1 <= wide <= i32::MAX,
        total <= i32::MAX,
        0 <= cell_w <= i32::MAX,
        0 <= cell_h <= i32::MAX,
        sheet_holds(sheet.source(), total as int, wide as int, cell_w as int, cell_h as int),
    ensures
        cells@.len() == total,
        forall|k: int|
            0 <= k < total ==> {
                &&& (#[trigger] cells@[k]).wf()
                &&& cells@[k].texture() == sheet.texture()
                &&& Some(cells@[k].source()) == Sprite::region_of(
                    sheet.source(),
                    sheet_cell(k, wide as int, cell_w as int, cell_h as int),
                )
                &&& cells@[k].source().w == cell_w
                &&& cells@[k].source().h == cell_h
            },
{
    let mut cells: Vec<Sprite> = Vec::new();
    let mut k: usize = 0;
    while k < total
        invariant
            k <= total,
            1 <= wide <= i32::MAX,
            total <= i32::MAX,
            0 <= cell_w <= i32::MAX,
            0 <= cell_h <= i32::MAX,
            sheet_holds(sheet.source(), total as int, wide as int, cell_w as int, cell_h as int),
            cells@.len() == k,
            forall|j: int|
                0 <= j < k ==> {
                    &&& (#[trigger] cells@[j]).wf()
                    &&& cells@[j].texture() == sheet.texture()
                    &&& Some(cells@[j].source()) == Sprite::region_of(
                        sheet.source(),
                        sheet_cell(j, wide as int, cell_w as int, cell_h as int),
                    )
                    &&& cells@[j].source().w == cell_w
                    &&& cells@[j].source().h == cell_h
                },
        decreases total - k,
    {
        let column: i64 = (k % wide) as i64;
        let row: i64 = (k / wide) as i64;
        assert(0 <= column * cell_w <= 0x3fff_ffff_ffff_ffff && 0 <= row * cell_h
            <= 0x3fff_ffff_ffff_ffff) by (nonlinear_arith)
            requires
                0 <= column <= i32::MAX,
                0 <= row <= i32::MAX,
                0 <= cell_w <= i32::MAX,
                0 <= cell_h <= i32::MAX,
        ;
        let rect = Rectangle { x: column * cell_w, y: row * cell_h, w: cell_w, h: cell_h };
        assert(rect == sheet_cell(k as int, wide as int, cell_w as int, cell_h as int));
        match sheet.region(rect) {
            Some(cell) => {
                cells.push(cell);
            },
            None => {
                proof {
                    assert(Sprite::region_of(
                        sheet.source(),
                        sheet_cell(k as int, wide as int, cell_w as int, cell_h as int),
                    ) is Some);
                    assert(false);
                }
            },
        }
        k += 1;
    }
    cells
}

/// The pictures of the ship, in the order in which the sheet holds them,
/// row by row: climbing, level and diving, each at rest, speeding up and
/// slowing down.
#[derive(Clone, Copy, Debug, PartialEq, Eq, Structural)]
pub enum ShipFrame {
    UpNorm,
    UpFast,
    UpSlow,
    MidNorm,
    MidFast,
    MidSlow,
    DownNorm,
    DownFast,
    DownSlow,
}

impl ShipFrame {
    /// The place of the picture in the sheet.
    pub open spec fn spec_index(self) -> usize {
        match self {
            ShipFrame::UpNorm => 0,
            ShipFrame::UpFast => 1,
            ShipFrame::UpSlow => 2,
            ShipFrame::MidNorm => 3,
            ShipFrame::MidFast => 4,
            ShipFrame::MidSlow => 5,
            ShipFrame::DownNorm => 6,
            ShipFrame::DownFast => 7,
            ShipFrame::DownSlow => 8,
        }
    }

    /// The picture of a ship that moves by `dx` to the right and by `dy`
    /// down: the row by the vertical movement, the column by the horizontal.
    pub open spec fn spec_for_motion(dx: int, dy: int) -> ShipFrame {
        if dy < 0 {
            if dx < 0 {
                ShipFrame::UpSlow
            } else if dx == 0 {
                ShipFrame::UpNorm
            } else {
                ShipFrame::UpFast
            }
        } else if dy == 0 {
            if dx < 0 {
                ShipFrame::MidSlow
            } else if dx == 0 {
                ShipFrame::MidNorm
            } else {
                ShipFrame::MidFast
            }
        } else {
            if dx < 0 {
                ShipFrame::DownSlow
            } else if dx == 0 {
                ShipFrame::DownNorm
            } else {
                ShipFrame::DownFast
            }
        }
    }

    /// The place of the picture in the sheet.
    #[verifier::when_used_as_spec(spec_index)]
    pub fn index(self) -> (i: usize)
        ensures
            i == self.spec_index(),
            i < 9,
    {
        match self {
            ShipFrame::UpNorm => 0,
            ShipFrame::UpFast => 1,
            ShipFrame::UpSlow => 2,
            ShipFrame::MidNorm => 3,
            ShipFrame::MidFast => 4,
            ShipFrame::MidSlow => 5,
            ShipFrame::DownNorm => 6,
            ShipFrame::DownFast => 7,
            ShipFrame::DownSlow => 8,
        }
    }

    /// The picture of a ship that moves by `dx` to the right and by `dy`
    /// down.
    pub fn for_motion(dx: i64, dy: i64) -> (frame: ShipFrame)
        ensures
            frame == ShipFrame::spec_for_motion(dx as int, dy as int),
    {
        if dy < 0 {
            if dx < 0 {
                ShipFrame::UpSlow
            } else if dx == 0 {
                ShipFrame::UpNorm
            } else {
                ShipFrame::UpFast
            }
        } else if dy == 0 {
            if dx < 0 {
                ShipFrame::MidSlow
            } else if dx == 0 {
                ShipFrame::MidNorm
            } else {
                ShipFrame::MidFast
            }
        } else {
            if dx < 0 {
                ShipFrame::DownSlow
            } else if dx == 0 {
                ShipFrame::DownNorm
            } else {
                ShipFrame::DownFast
            }
        }
    }
}

/// The distance, in position units, that the ship covers along each axis
/// on which it moves, in `elapsed` microseconds: the whole of what its
/// speed gives if it moves along one axis, and that over the square root of
/// two if it moves along both.
pub open spec fn distance_moved(diagonal: bool, elapsed: int) -> int {
    if diagonal {
        trunc_div(
            DIAGONAL_PARTS * PLAYER_SPEED * SUBPIXELS * elapsed,
            1_000_000 * TICKS_PER_SECOND,
        )
    } else {
        trunc_div(PLAYER_SPEED * SUBPIXELS * elapsed, TICKS_PER_SECOND as int)
    }
}

/// The movement along an axis with a key for each direction: none if both
/// keys or neither are held, else `moved` toward the side of the held key.
pub open spec fn axis_movement(negative: bool, positive: bool, moved: int) -> int {
    if negative == positive {
        0
    } else if negative {
        -moved
    } else {
        moved
    }
}

/// The movement of the ship to the right, with the keys held as in `events`.
pub open spec fn movement_x(events: Events, elapsed: int) -> int {
    axis_movement(
        events.key_left,
        events.key_right,
        distance_moved(
            (events.key_up != events.key_down) && (events.key_left != events.key_right),
            elapsed,
        ),
    )
}

/// The movement of the ship downward, with the keys held as in `events`.
pub open spec fn movement_y(events: Events, elapsed: int) -> int {
    axis_movement(
        events.key_up,
        events.key_down,
        distance_moved(
            (events.key_up != events.key_down) && (events.key_left != events.key_right),
            elapsed,
        ),
    )
}

/// The part of a screen of the given size in which the ship may move, in
/// position units: its whole height, and seven tenths of its width from the
/// left.
pub open spec fn movable_region(screen: (i64, i64)) -> Rectangle {
    Rectangle {
        x: 0,
        y: 0,
        w: (screen.0 * SUBPIXELS * 7 / 10) as i64,
        h: (screen.1 * SUBPIXELS) as i64,
    }
}

/// Whether a screen of the given size has room for the ship to move in.
pub open spec fn screen_fits_ship(screen: (i64, i64)) -> bool {
    &&& 0 <= screen.0 <= u32::MAX
    &&& 0 <= screen.1 <= u32::MAX
    &&& SHIP_W * SUBPIXELS <= movable_region(screen).w
    &&& SHIP_H * SUBPIXELS <= movable_region(screen).h
}

/// Where a ship at `rect` stands after `elapsed` microseconds with the keys
/// held as in `events`, on a screen that has room for it: moved by what the
/// keys ask for, then brought back into the part of the screen in which it
/// may move.
pub open spec fn steered(rect: Rectangle, events: Events, elapsed: int, screen: (i64, i64)) -> Rectangle {
    let region = movable_region(screen);
    Rectangle {
        x: crate::data::clamp_axis(
            rect.x + movement_x(events, elapsed),
            rect.w as int,
            region.x as int,
            region.w as int,
        ) as i64,
        y: crate::data::clamp_axis(
            rect.y + movement_y(events, elapsed),
            rect.h as int,
            region.y as int,
            region.h as int,
        ) as i64,
        w: rect.w,
        h: rect.h,
    }
}

/// Where the ship stands at first, in position units: sixty-four screen
/// units right of and below the origin.
pub open spec fn ship_at_start() -> Rectangle {
    Rectangle {
        x: (64 * SUBPIXELS) as i64,
        y: (64 * SUBPIXELS) as i64,
        w: (SHIP_W * SUBPIXELS) as i64,
        h: (SHIP_H * SUBPIXELS) as i64,
    }
}

fn moved_in(diagonal: bool, elapsed: i64) -> (moved: i64)
    ensures
        moved == distance_moved(diagonal, elapsed as int),
        -0x2000_0000_0000_0000 <= moved <= 0x2000_0000_0000_0000,
{
    let span: i128 = PLAYER_SPEED as i128 * SUBPIXELS as i128 * elapsed as i128;
    if diagonal {
        let scaled: i128 = DIAGONAL_PARTS as i128 * span;
        proof {
            crate::num::lemma_trunc_div_bounds(scaled as int, 1_000_000 * TICKS_PER_SECOND);
            assert(DIAGONAL_PARTS * (PLAYER_SPEED * SUBPIXELS * elapsed) == DIAGONAL_PARTS
                * PLAYER_SPEED * SUBPIXELS * elapsed) by (nonlinear_arith);
        }
        let moved = div_toward_zero(scaled, 1_000_000 * TICKS_PER_SECOND as i128);
        moved as i64
    } else {
        proof {
            crate::num::lemma_trunc_div_bounds(span as int, TICKS_PER_SECOND as int);
        }
        let moved = div_toward_zero(span, TICKS_PER_SECOND as i128);
        moved as i64
    }
}

fn along_axis(negative: bool, positive: bool, moved: i64) -> (d: i64)
    requires
        moved > i64::MIN,
    ensures
        d == axis_movement(negative, positive, moved as int),
{
    if negative == positive {
        0
    } else if negative {
        -moved
    } else {
        moved
    }
}

/// The player's ship: where it is, in position units, its pictures, and
/// the picture that is on show.
pub struct Ship {
    rect: Rectangle,
    sprites: Vec<Sprite>,
    current: ShipFrame,
}

impl Ship {
    /// The ship has its nine pictures, each with a native form, keeps its
    /// size, and stands right of and below the origin, within the reach of a
    /// screen.
    #[verifier::type_invariant]
    pub closed spec fn wf(self) -> bool {
        &&& self.sprites@.len() == 9
        &&& forall|i: int| 0 <= i < 9 ==> (#[trigger] self.sprites@[i]).drawable()
        &&& self.rect.w == SHIP_W * SUBPIXELS
        &&& self.rect.h == SHIP_H * SUBPIXELS
        &&& 0 <= self.rect.x <= u32::MAX * SUBPIXELS
        &&& 0 <= self.rect.y <= u32::MAX * SUBPIXELS
    }

    /// Where the ship is, in position units.
    pub closed spec fn spec_rect(&self) -> Rectangle {
        self.rect
    }

    /// The pictures of the ship.
    pub closed spec fn sprites(&self) -> Seq<Sprite> {
        self.sprites@
    }

    /// The picture that is on show.
    pub closed spec fn spec_current(&self) -> ShipFrame {
        self.current
    }

    /// The ship after `elapsed` microseconds with the keys held as in
    /// `events`, on a screen of the given size.
    pub closed spec fn spec_steer(self, events: Events, elapsed: int, screen: (i64, i64)) -> Ship {
        Ship {
            rect: steered(self.rect, events, elapsed, screen),
            current: ShipFrame::spec_for_motion(
                movement_x(events, elapsed),
                movement_y(events, elapsed),
            ),
            sprites: self.sprites,
        }
    }

    /// Whether `elapsed` microseconds with the keys held as in `events`, on
    /// a screen of the given size, take the ship from `self` to `after`: it
    /// stands where steering puts it, within the part of the screen in which
    /// it may move, shows the picture that goes with its movement, and keeps
    /// its size and its pictures.
    pub open spec fn steered_to(
        &self,
        events: Events,
        elapsed: int,
        screen: (i64, i64),
        after: &Ship,
    ) -> bool {
        &&& *after == self.spec_steer(events, elapsed, screen)
        &&& after.wf()
        &&& after.rect() == steered(self.rect(), events, elapsed, screen)
        &&& after.rect().w == SHIP_W * SUBPIXELS
        &&& after.rect().h == SHIP_H * SUBPIXELS
        &&& movable_region(screen).contains(after.rect())
        &&& after.current() == ShipFrame::spec_for_motion(
            movement_x(events, elapsed),
            movement_y(events, elapsed),
        )
        &&& after.sprites() == self.sprites()
    }

    /// What drawing the ship asks of the renderer: a copy of the picture on
    /// show onto the place of the ship on the screen.
    pub open spec fn drawing(&self) -> Seq<DrawCommand> {
        self.sprites()[self.current().index() as int].drawing(on_screen(self.rect()))
    }

    /// A ship at rest, sixty-four screen units right of and below the
    /// origin, with its pictures cut from `spritesheet`: three rows of three
    /// cells, each as large as the ship. The sheet must hold them.
    pub fn new(spritesheet: &Sprite) -> (ship: Ship)
        requires
            spritesheet.source().w >= 3 * SHIP_W,
            spritesheet.source().h >= 3 * SHIP_H,
        ensures
            ship.wf(),
            ship.rect() == ship_at_start(),
            ship.current() == ShipFrame::MidNorm,
            ship.sprites().len() == 9,
            forall|k: int|
                0 <= k < 9 ==> {
                    &&& (#[trigger] ship.sprites()[k]).texture() == spritesheet.texture()
                    &&& Some(ship.sprites()[k].source()) == Sprite::region_of(
                        spritesheet.source(),
                        sheet_cell(k, 3, SHIP_W as int, SHIP_H as int),
                    )
                },
    {
        proof {
            use_type_invariant(spritesheet);
            lemma_sheet_holds(*spritesheet, 3, 3, SHIP_W as int, SHIP_H as int);
        }
        let sprites = cut_sheet(spritesheet, SHIP_W, SHIP_H, 3, 9);
        Ship {
            rect: Rectangle {
                x: 64 * SUBPIXELS,
                y: 64 * SUBPIXELS,
                w: SHIP_W * SUBPIXELS,
                h: SHIP_H * SUBPIXELS,
            },
            sprites,
            current: ShipFrame::MidNorm,
        }
    }

    /// Where the ship is, in position units.
    #[verifier::when_used_as_spec(spec_rect)]
    pub fn rect(&self) -> (rect: Rectangle)
        ensures
            rect == self.spec_rect(),
    {
        self.rect
    }

    /// The picture that is on show.
    #[verifier::when_used_as_spec(spec_current)]
    pub fn current(&self) -> (frame: ShipFrame)
        ensures
            frame == self.spec_current(),
    {
        self.current
    }

    /// Moves the ship as the held keys ask, for `elapsed` microseconds, keeps
    /// it within the part of the screen in which it may move, and picks its
    /// picture by the way it moves. The screen must have room for the ship.
    pub fn steer(&mut self, events: &Events, elapsed: i64, screen: (i64, i64))
        requires
            screen_fits_ship(screen),
        ensures
            final(self).wf(),
            old(self).steered_to(*events, elapsed as int, screen, final(self)),
            *final(self) == old(self).spec_steer(*events, elapsed as int, screen),
            final(self).rect() == steered(old(self).rect(), *events, elapsed as int, screen),
            final(self).current() == ShipFrame::spec_for_motion(
                movement_x(*events, elapsed as int),
                movement_y(*events, elapsed as int),
            ),
            final(self).sprites() == old(self).sprites(),
            movable_region(screen).spec_contains(final(self).rect()),
    {
        proof {
            use_type_invariant(&*self);
        }
        let diagonal = (events.key_up != events.key_down) && (events.key_left != events.key_right);
        let moved = moved_in(diagonal, elapsed);
        let dx = along_axis(events.key_left, events.key_right, moved);
        let dy = along_axis(events.key_up, events.key_down, moved);

        let wanted = Rectangle {
            x: self.rect.x + dx,
            y: self.rect.y + dy,
            w: self.rect.w,
            h: self.rect.h,
        };
        let frame = ShipFrame::for_motion(dx, dy);

        let movable = Rectangle {
            x: 0,
            y: 0,
            w: screen.0 * SUBPIXELS * 7 / 10,
            h: screen.1 * SUBPIXELS,
        };
        assert(movable == movable_region(screen));

        match wanted.move_inside(movable) {
            Some(placed) => {
                self.rect = placed;
                self.current = frame;
            },
            None => {
                proof {
                    assert(false);
                }
            },
        }
    }

    /// What a ship is like: it has the size of the ship, stands right of and
    /// below the origin, and has nine pictures, each with a native form.
    pub proof fn lemma_shape(&self)
        requires
            self.wf(),
        ensures
            self.rect().w == SHIP_W * SUBPIXELS,
            self.rect().h == SHIP_H * SUBPIXELS,
            self.rect().x >= 0,
            self.rect().y >= 0,
            self.sprites().len() == 9,
            forall|i: int| 0 <= i < 9 ==> (#[trigger] self.sprites()[i]).drawable(),
    {
    }

    /// What steering does to a ship: where it stands, which picture it
    /// shows, and that it keeps its pictures; and on a screen with room for
    /// it, that it is then a ship within the part of the screen in which it
    /// may move.
    pub proof fn lemma_steer(self, events: Events, elapsed: int, screen: (i64, i64))
        ensures
            self.spec_steer(events, elapsed, screen).rect() == steered(
                self.rect(),
                events,
                elapsed,
                screen,
            ),
            self.spec_steer(events, elapsed, screen).current() == ShipFrame::spec_for_motion(
                movement_x(events, elapsed),
                movement_y(events, elapsed),
            ),
            self.spec_steer(events, elapsed, screen).sprites() == self.sprites(),
            self.wf() && screen_fits_ship(screen) ==> self.steered_to(
                events,
                elapsed,
                screen,
                &self.spec_steer(events, elapsed, screen),
            ),
    {
    }

    /// Draws the ship.
    pub fn render(&self, renderer: &mut Renderer)
        ensures
            final(renderer)@ == old(renderer)@ + self.drawing(),
            final(renderer).output_size() == old(renderer).output_size(),
    {
        proof {
            use_type_invariant(self);
        }
        renderer.copy_sprite(&self.sprites[self.current.index()], on_screen(self.rect));
    }
}

/// The screen on which the player flies the ship over a black ground.
pub struct ShipView {
    player: Ship,
}

impl ShipView {
    /// The player's ship.
    pub closed spec fn spec_player(&self) -> &Ship {
        &self.player
    }

    /// The screen with the ship at rest, its pictures cut from
    /// `spritesheet`, which must hold three rows of three cells as large as
    /// the ship.
    pub fn new(spritesheet: &Sprite) -> (view: ShipView)
        requires
            spritesheet.source().w >= 3 * SHIP_W,
            spritesheet.source().h >= 3 * SHIP_H,
        ensures
            view.player().wf(),
            view.player().rect() == ship_at_start(),
            view.player().current() == ShipFrame::MidNorm,
            view.player().sprites().len() == 9,
            forall|k: int|
                0 <= k < 9 ==> {
                    &&& (#[trigger] view.player().sprites()[k]).texture() == spritesheet.texture()
                    &&& Some(view.player().sprites()[k].source()) == Sprite::region_of(
                        spritesheet.source(),
                        sheet_cell(k, 3, SHIP_W as int, SHIP_H as int),
                    )
                },
    {
        ShipView { player: Ship::new(spritesheet) }
    }

    /// The player's ship.
    #[verifier::when_used_as_spec(spec_player)]
    pub fn player(&self) -> (ship: &Ship)
        ensures
            ship == self.spec_player(),
    {
        &self.player
    }
}

/// Whether the frame in `events` asks for the program to end: the window
/// was asked to close, or the escape key was pressed.
pub open spec fn spec_quit_asked(events: &Events) -> bool {
    events.now.quit || events.now.key_escape == Some(true)
}

/// Whether the frame in `events` asks for the program to end.
#[verifier::when_used_as_spec(spec_quit_asked)]
pub fn quit_asked(events: &Events) -> (asked: bool)
    ensures
        asked == spec_quit_asked(events),
{
    events.now.quit || match events.now.key_escape {
        Some(pressed) => pressed,
        None => false,
    }
}

/// The size of the drawing target of a context, in screen units.
pub open spec fn screen_of(context: Phi) -> (i64, i64) {
    (context.renderer.output_size().0 as i64, context.renderer.output_size().1 as i64)
}

impl crate::view::View for ShipView {
    /// The frame asks for the program to end, or the screen has room for the
    /// ship.
    open spec fn accepts(&self, context: &Phi) -> bool {
        quit_asked(&context.events) || screen_fits_ship(screen_of(*context))
    }

    /// A frame that asks for the program to end gives `Quit` and changes
    /// nothing, whatever the size of the screen. Any other steers the ship,
    /// clears the target to black, draws the ship once, and goes on.
    open spec fn renders(
        before: (Self, Phi),
        elapsed: i64,
        after: (Self, Phi),
        action: ViewAction<Self>,
    ) -> bool {
        if quit_asked(&before.1.events) {
            &&& action is Quit
            &&& after == before
        } else {
            &&& action is Continue
            &&& before.0.player().steered_to(
                before.1.events,
                elapsed as int,
                screen_of(before.1),
                after.0.player(),
            )
            &&& after.1.events == before.1.events
            &&& after.1.cached_fonts == before.1.cached_fonts
            &&& after.1.renderer.output_size() == before.1.renderer.output_size()
            &&& after.1.renderer@ == before.1.renderer@ + seq![
                DrawCommand::SetDrawColor(Color { r: 0, g: 0, b: 0, a: 255 }),
                DrawCommand::Clear,
            ] + after.0.player().drawing()
        }
    }

    fn ready(&self, context: &Phi) -> (ready: bool) {
        if quit_asked(&context.events) {
            return true;
        }
        let (w, h) = context.output_size();
        SHIP_W * SUBPIXELS <= w * SUBPIXELS * 7 / 10 && SHIP_H * SUBPIXELS <= h * SUBPIXELS
    }

    fn render(&mut self, context: &mut Phi, elapsed: i64) -> (action: ViewAction<ShipView>) {
        if quit_asked(&context.events) {
            return ViewAction::Quit;
        }
        let screen = context.output_size();
        self.player.steer(&context.events, elapsed, screen);

        context.renderer.set_draw_color(Color::RGB(0, 0, 0));
        context.renderer.clear();
        self.player.render(&mut context.renderer);

        proof {
            assert(context.renderer@ =~= old(context).renderer@ + seq![
                DrawCommand::SetDrawColor(Color { r: 0, g: 0, b: 0, a: 255 }),
                DrawCommand::Clear,
            ] + self.player.drawing());
        }
        ViewAction::Continue
    }
}

} // verus!
