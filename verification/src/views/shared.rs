//! What the screens of the game have in common.

use crate::data::Rectangle;
use crate::gfx::{CopySprite, Renderable, Sprite, TICKS_PER_SECOND};
use crate::num::{clamp_i64, div_toward_zero, saturate_i64, trunc_div};
use crate::render::{DrawCommand, Renderer};
use crate::views::SUBPIXELS;
use vstd::prelude::*;

verus! {

/// A picture that scrolls to the left behind the game and repeats to fill
/// the screen, scaled to the screen's height.
#[derive(Clone, Copy, Debug, PartialEq, Eq)]
pub struct Background {
    /// How far the picture has scrolled, in position units of the picture's
    /// own pixels.
    pub pos: i64,
    /// The pixels of the picture that pass in a second.
    pub vel: i64,
    /// The picture.
    pub sprite: Sprite,
}

impl Background {
    /// How far a picture of the given width has scrolled, `elapsed`
    /// microseconds after it had scrolled by `pos`: further by what its
    /// speed gives, and back by one width once it is past its width.
    pub open spec fn advanced(pos: int, vel: int, elapsed: int, width: int) -> int {
        let moved = clamp_i64(pos + trunc_div(vel * elapsed, TICKS_PER_SECOND / SUBPIXELS));
        if moved > width * SUBPIXELS {
            clamp_i64(moved - width * SUBPIXELS) as int
        } else {
            moved as int
        }
    }

    /// The width on the screen of one copy of a picture of the given size,
    /// scaled to the height `win_h`.
    pub open spec fn tile_width(size: (i64, i64), win_h: int) -> int {
        size.0 * win_h / (size.1 as int)
    }

    /// The left edge on the screen of the first copy of a picture of the
    /// given size that has scrolled by `pos`, scaled to the height `win_h`.
    pub open spec fn first_left(pos: int, size: (i64, i64), win_h: int) -> int {
        trunc_div(-(pos * win_h), size.1 * SUBPIXELS)
    }

    /// The number of copies, each `tile_w` wide, that it takes to reach from
    /// `left` to the right edge of a screen `win_w` wide.
    pub open spec fn copies(left: int, tile_w: int, win_w: int) -> nat
        decreases
            (if left < win_w {
                win_w - left
            } else {
                0
            }),
    {
        if left < win_w && tile_w >= 1 {
            1 + Background::copies(left + tile_w, tile_w, win_w)
        } else {
            0
        }
    }

    /// Where copy `i` goes on the screen, the first one at `left`.
    pub open spec fn tile(left: int, tile_w: int, win_h: int, i: int) -> Rectangle {
        Rectangle {
            x: clamp_i64(left + i * tile_w),
            y: 0,
            w: clamp_i64(tile_w),
            h: win_h as i64,
        }
    }

    /// Whether the picture can fill a screen of the given size: it has a
    /// native form and is at least a pixel wide and high, and a copy of it
    /// scaled to the screen's height is at least a screen unit wide.
    pub open spec fn can_fill(&self, output: (u32, u32)) -> bool {
        &&& self.sprite.source().w >= 1
        &&& self.sprite.source().h >= 1
        &&& Background::tile_width((self.sprite.source().w, self.sprite.source().h), output.1 as int)
            >= 1
    }

    /// The request for copy `i` of the picture on a screen of the given
    /// size.
    pub open spec fn copy_command(&self, output: (u32, u32), i: int) -> DrawCommand {
        let size = (self.sprite.source().w, self.sprite.source().h);
        let tile_w = Background::tile_width(size, output.1 as int);
        let left = Background::first_left(self.pos as int, size, output.1 as int);
        DrawCommand::Copy {
            texture: self.sprite.texture(),
            src: self.sprite.source().spec_to_sdl(),
            dst: Background::tile(left, tile_w, output.1 as int, i).spec_to_sdl(),
        }
    }

    /// What drawing the background on a screen of the given size asks of the
    /// renderer: copies of the picture side by side, from its scrolled
    /// position to the right edge of the screen.
    pub open spec fn drawing(&self, output: (u32, u32)) -> Seq<DrawCommand> {
        let size = (self.sprite.source().w, self.sprite.source().h);
        let tile_w = Background::tile_width(size, output.1 as int);
        let left = Background::first_left(self.pos as int, size, output.1 as int);
        Seq::new(
            Background::copies(left, tile_w, output.0 as int),
            |i: int| self.copy_command(output, i),
        )
    }

    /// Whether the picture can fill a screen of the given size.
    pub fn fills(&self, output: (u32, u32)) -> (fills: bool)
        ensures
            fills == self.can_fill(output),
    {
        let size = self.sprite.size();
        if size.0 < 1 || size.1 < 1 {
            return false;
        }
        proof {
            use_type_invariant(&self.sprite);
            Sprite::lemma_source_within_texture(self.sprite);
        }
        assert(0 <= size.0 * output.1 <= 0xffff_ffff * 0xffff_ffff) by (nonlinear_arith)
            requires
                0 <= size.0 <= 0xffff_ffff,
                0 <= output.1 <= 0xffff_ffff,
        ;
        let tile_w: i128 = (size.0 as i128 * output.1 as i128) / size.1 as i128;
        tile_w >= 1
    }

    /// Scrolls the picture on by `elapsed` microseconds and draws it over the
    /// whole screen. The picture must be able to fill the screen.
    pub fn render(&mut self, renderer: &mut Renderer, elapsed: i64)
        requires
            old(self).can_fill(old(renderer).output_size()),
        ensures
            final(self).pos == Background::advanced(
                old(self).pos as int,
                old(self).vel as int,
                elapsed as int,
                old(self).sprite.source().w as int,
            ),
            final(self).vel == old(self).vel,
            final(self).sprite == old(self).sprite,
            final(renderer).output_size() == old(renderer).output_size(),
            final(renderer)@ == old(renderer)@ + final(self).drawing(old(renderer).output_size()),
    {
        proof {
            use_type_invariant(&self.sprite);
            Sprite::lemma_source_within_texture(self.sprite);
        }
        let size = self.sprite.size();
        assert(-0x8000_0000_0000_0000 * 0x8000_0000_0000_0000 <= self.vel * elapsed
            <= 0x8000_0000_0000_0000 * 0x8000_0000_0000_0000) by (nonlinear_arith)
            requires
                -0x8000_0000_0000_0000 <= self.vel <= 0x8000_0000_0000_0000,
                -0x8000_0000_0000_0000 <= elapsed <= 0x8000_0000_0000_0000,
        ;
        let step: i128 = div_toward_zero(
            self.vel as i128 * elapsed as i128,
            (TICKS_PER_SECOND / SUBPIXELS) as i128,
        );
        proof {
            crate::num::lemma_trunc_div_bounds(self.vel * elapsed, TICKS_PER_SECOND / SUBPIXELS);
        }
        let moved: i64 = saturate_i64(self.pos as i128 + step);
        if moved as i128 > size.0 as i128 * SUBPIXELS as i128 {
            self.pos = saturate_i64(moved as i128 - size.0 as i128 * SUBPIXELS as i128);
        } else {
            self.pos = moved;
        }

        let (win_w, win_h): (u32, u32) = renderer.output_size();
        assert(0 <= size.0 * win_h <= 0xffff_ffff * 0xffff_ffff) by (nonlinear_arith)
            requires
                0 <= size.0 <= 0xffff_ffff,
                0 <= win_h <= 0xffff_ffff,
        ;
        let tile_w: i128 = (size.0 as i128 * win_h as i128) / size.1 as i128;
        assert(tile_w <= size.0 * win_h) by (nonlinear_arith)
            requires
                tile_w == (size.0 * win_h) / (size.1 as int),
                size.1 >= 1,
                size.0 * win_h >= 0,
        ;
        assert(-0x8000_0000_0000_0000 * 0xffff_ffff <= self.pos * win_h <= 0x8000_0000_0000_0000
            * 0xffff_ffff) by (nonlinear_arith)
            requires
                -0x8000_0000_0000_0000 <= self.pos <= 0x8000_0000_0000_0000,
                0 <= win_h <= 0xffff_ffff,
        ;
        let first: i128 = div_toward_zero(
            -(self.pos as i128 * win_h as i128),
            size.1 as i128 * SUBPIXELS as i128,
        );
        proof {
            crate::num::lemma_trunc_div_bounds(-(self.pos * win_h), size.1 * SUBPIXELS);
        }

        let ghost before = renderer@;
        let ghost total = Background::copies(first as int, tile_w as int, win_w as int);
        let ghost this = *self;
        let ghost output = (win_w, win_h);
        let mut left: i128 = first;
        let ghost mut done: nat = 0;
        proof {
            assert(renderer@ =~= before + Seq::new(0, |i: int| this.copy_command(output, i)));
            assert(first + 0 * tile_w == first) by (nonlinear_arith);
        }
        while left < win_w as i128
            invariant
                *self == this,
                this.sprite.drawable(),
                1 <= tile_w <= 0xffff_ffff * 0xffff_ffff,
                -0x8000_0000_0000_0000 * 0xffff_ffff <= first,
                left == first + done * tile_w,
                total == done + Background::copies(left as int, tile_w as int, win_w as int),
                renderer.output_size() == (win_w, win_h),
                output == (win_w, win_h),
                first == Background::first_left(
                    this.pos as int,
                    (this.sprite.source().w, this.sprite.source().h),
                    win_h as int,
                ),
                tile_w == Background::tile_width(
                    (this.sprite.source().w, this.sprite.source().h),
                    win_h as int,
                ),
                renderer@ == before + Seq::new(done, |i: int| this.copy_command(output, i)),
            decreases
                (if left < win_w {
                    win_w - left
                } else {
                    0
                }),
        {
            let dest = Rectangle {
                x: saturate_i64(left),
                y: 0,
                w: saturate_i64(tile_w),
                h: win_h as i64,
            };
            assert(dest == Background::tile(first as int, tile_w as int, win_h as int, done as int));
            renderer.copy_sprite(&self.sprite, dest);
            proof {
                assert(self.sprite.drawing(dest) =~= seq![this.copy_command(output, done as int)]);
                assert(renderer@ =~= before + Seq::new(
                    done + 1,
                    |i: int| this.copy_command(output, i),
                ));
                assert(first + (done + 1) * tile_w == first + done * tile_w + tile_w)
                    by (nonlinear_arith);
                done = done + 1;
            }
            left = left + tile_w;
        }
        proof {
            assert(Background::copies(left as int, tile_w as int, win_w as int) == 0);
        }
    }
}

} // verus!
