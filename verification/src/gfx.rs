//! Sprites: regions of shared images, and animations made of them.

use crate::data::Rectangle;
use crate::num::{clamp_i64, saturate_i64};
use crate::render::{DrawCommand, Renderer, Texture};
use std::rc::Rc;
use vstd::prelude::*;

verus! {

/// The number of time units in a second. Times and delays are whole
/// microseconds.
pub const TICKS_PER_SECOND: i64 = 1_000_000;

/// Something that can be drawn into a rectangle of the target.
pub trait Renderable {
    /// The requests that drawing `self` into `dest` makes of the renderer.
    /// Unless a type says otherwise, it makes none.
    open spec fn drawing(&self, dest: Rectangle) -> Seq<DrawCommand> {
        Seq::empty()
    }

    /// Whether `self` has a native form to draw: no width or height of what
    /// it shows is negative. Unless a type says otherwise, it always has.
    open spec fn drawable(&self) -> bool {
        true
    }

    /// Draws `self` into `dest`. Neither something that is not drawable nor a
    /// destination of negative width or height may be passed.
    fn render(&self, renderer: &mut Renderer, dest: Rectangle)
        requires
            self.drawable(),
            dest.w >= 0,
            dest.h >= 0,
        ensures
            final(renderer)@ == old(renderer)@ + self.drawing(dest),
            final(renderer).output_size() == old(renderer).output_size(),
    ;
}

/// A rectangular region of an image. Every sprite derived from another
/// shares its image.
#[derive(Clone, Copy, Debug, PartialEq, Eq)]
pub struct Sprite {
    tex: Texture,
    src: Rectangle,
}

impl Sprite {
    /// The corners of the region lie within the image.
    #[verifier::type_invariant]
    pub closed spec fn wf(self) -> bool {
        (Rectangle {
            x: 0,
            y: 0,
            w: self.tex.width as i64,
            h: self.tex.height as i64,
        }).spec_contains(self.src)
    }

    /// The image the sprite shows a part of.
    pub closed spec fn spec_texture(&self) -> Texture {
        self.tex
    }

    /// The part of the image the sprite shows, in the image's pixels.
    pub closed spec fn spec_source(&self) -> Rectangle {
        self.src
    }

    /// The region that `rect`, taken relative to the origin of `current`,
    /// selects: `rect` moved by the position of `current` if that lies within
    /// `current`, and nothing otherwise.
    pub open spec fn region_of(current: Rectangle, rect: Rectangle) -> Option<Rectangle> {
        let x = current.x + rect.x;
        let y = current.y + rect.y;
        let moved = Rectangle { x: x as i64, y: y as i64, w: rect.w, h: rect.h };
        if i64::MIN <= x <= i64::MAX && i64::MIN <= y <= i64::MAX && current.spec_contains(moved) {
            Some(moved)
        } else {
            None
        }
    }

    /// A sprite that shows the whole of `texture`.
    pub closed spec fn spec_new(texture: Texture) -> Sprite {
        Sprite {
            tex: texture,
            src: Rectangle { x: 0, y: 0, w: texture.width as i64, h: texture.height as i64 },
        }
    }

    /// The sprite for an image that the platform was asked to decode.
    pub open spec fn spec_load(decoded: Option<Texture>) -> Option<Sprite> {
        match decoded {
            Some(texture) => Some(Sprite::new(texture)),
            None => None,
        }
    }

    /// A sprite that shows the whole of `texture`.
    #[verifier::when_used_as_spec(spec_new)]
    pub fn new(texture: Texture) -> (s: Sprite)
        ensures
            s == Sprite::spec_new(texture),
            s.wf(),
            s.texture() == texture,
            s.source() == (Rectangle { x: 0, y: 0, w: texture.width as i64, h: texture.height as i64 }),
    {
        Sprite {
            tex: texture,
            src: Rectangle { x: 0, y: 0, w: texture.width as i64, h: texture.height as i64 },
        }
    }

    /// The sprite for an image that the platform was asked to decode: a
    /// sprite of the whole image if it was decoded, nothing if it was not.
    #[verifier::when_used_as_spec(spec_load)]
    pub fn load(decoded: Option<Texture>) -> (s: Option<Sprite>)
        ensures
            s == Sprite::spec_load(decoded),
            s is Some <==> decoded is Some,
            s matches Some(sprite) ==> sprite.wf() && sprite.texture() == decoded.unwrap()
                && sprite.source() == (Rectangle {
                x: 0,
                y: 0,
                w: decoded.unwrap().width as i64,
                h: decoded.unwrap().height as i64,
            }),
    {
        match decoded {
            Some(texture) => Some(Sprite::new(texture)),
            None => None,
        }
    }

    /// What is known of a sprite that shows the whole of an image.
    pub proof fn lemma_new(texture: Texture)
        ensures
            Sprite::new(texture).wf(),
            Sprite::new(texture).texture() == texture,
            Sprite::new(texture).source() == (Rectangle {
                x: 0,
                y: 0,
                w: texture.width as i64,
                h: texture.height as i64,
            }),
    {
    }

    /// The image the sprite shows a part of.
    #[verifier::when_used_as_spec(spec_texture)]
    pub fn texture(&self) -> (t: Texture)
        ensures
            t == self.spec_texture(),
    {
        self.tex
    }

    /// The part of the image the sprite shows, in the image's pixels.
    #[verifier::when_used_as_spec(spec_source)]
    pub fn source(&self) -> (r: Rectangle)
        ensures
            r == self.spec_source(),
    {
        self.src
    }

    /// A sprite of a part of the current region. `rect` is relative to the
    /// region's origin. Succeeds exactly when the part lies within the
    /// region; the new sprite shares the image, and `self` is unchanged.
    pub fn region(&self, rect: Rectangle) -> (r: Option<Sprite>)
        ensures
            r is Some <==> Sprite::region_of(self.source(), rect) is Some,
            r matches Some(s) ==> {
                &&& s.wf()
                &&& s.texture() == self.texture()
                &&& Some(s.source()) == Sprite::region_of(self.source(), rect)
                &&& s.size() == (rect.w, rect.h)
                &&& self.source().contains(s.source())
            },
            rect == (Rectangle { x: 0, y: 0, w: self.source().w, h: self.source().h })
                && rect.w >= 0 && rect.h >= 0 ==> r == Some(*self),
    {
        proof {
            use_type_invariant(self);
        }
        let x: i128 = self.src.x as i128 + rect.x as i128;
        let y: i128 = self.src.y as i128 + rect.y as i128;
        if x < i64::MIN as i128 || x > i64::MAX as i128 || y < i64::MIN as i128 || y > i64::MAX as i128 {
            return None;
        }
        let new_src = Rectangle { x: x as i64, y: y as i64, w: rect.w, h: rect.h };
        if self.src.contains(new_src) {
            Some(Sprite { tex: self.tex, src: new_src })
        } else {
            None
        }
    }

    /// The width and height of the region.
    pub open spec fn spec_size(&self) -> (i64, i64) {
        (self.source().w, self.source().h)
    }

    /// The width and height of the region. They depend on the region alone:
    /// as long as the sprite shows the same region, its size is the same.
    #[verifier::when_used_as_spec(spec_size)]
    pub fn size(&self) -> (wh: (i64, i64))
        ensures
            wh == self.spec_size(),
            wh == (self.source().w, self.source().h),
    {
        (self.src.w, self.src.h)
    }

    /// Two sprites that show the same region of the same image are equal.
    pub proof fn lemma_same_region_same_sprite(a: Sprite, b: Sprite)
        requires
            a.texture() == b.texture(),
            a.source() == b.source(),
        ensures
            a == b,
    {
    }

    /// The region of a sprite lies within its image.
    pub proof fn lemma_source_within_texture(s: Sprite)
        requires
            s.wf(),
        ensures
            (Rectangle {
                x: 0,
                y: 0,
                w: s.texture().width as i64,
                h: s.texture().height as i64,
            }).spec_contains(s.source()),
    {
    }

    /// A part is a region of a sprite exactly when both its ends on each axis
    /// lie between the start and the end of the sprite's region; the region
    /// is then the part, moved by where the sprite's region starts.
    pub proof fn lemma_region_exactly(s: Sprite, rect: Rectangle)
        requires
            s.wf(),
        ensures
            Sprite::region_of(s.source(), rect) is Some <==> {
                &&& 0 <= rect.x <= s.source().w
                &&& 0 <= rect.x + rect.w <= s.source().w
                &&& 0 <= rect.y <= s.source().h
                &&& 0 <= rect.y + rect.h <= s.source().h
            },
            Sprite::region_of(s.source(), rect) matches Some(region) ==> {
                &&& region.x == s.source().x + rect.x
                &&& region.y == s.source().y + rect.y
                &&& region.w == rect.w
                &&& region.h == rect.h
            },
    {
    }

    /// Asking for the whole of a region gives the region itself, unless its
    /// width or height is negative; then it gives nothing.
    pub proof fn lemma_full_region(current: Rectangle)
        ensures
            current.w >= 0 && current.h >= 0 ==> Sprite::region_of(
                current,
                Rectangle { x: 0, y: 0, w: current.w, h: current.h },
            ) == Some(current),
            current.w < 0 || current.h < 0 ==> Sprite::region_of(
                current,
                Rectangle { x: 0, y: 0, w: current.w, h: current.h },
            ) is None,
    {
    }

    /// A part that starts before the current region or reaches past it on
    /// either axis selects nothing.
    pub proof fn lemma_region_out_of_bounds(current: Rectangle, rect: Rectangle)
        requires
            rect.x < 0 || rect.y < 0 || rect.x + rect.w > current.w || rect.y + rect.h > current.h,
        ensures
            Sprite::region_of(current, rect) is None,
    {
    }
}

impl Renderable for Sprite {
    /// One copy of the region onto the destination.
    open spec fn drawing(&self, dest: Rectangle) -> Seq<DrawCommand> {
        seq![
            DrawCommand::Copy {
                texture: self.texture(),
                src: self.source().spec_to_sdl(),
                dst: dest.spec_to_sdl(),
            },
        ]
    }

    open spec fn drawable(&self) -> bool {
        self.source().w >= 0 && self.source().h >= 0
    }

    fn render(&self, renderer: &mut Renderer, dest: Rectangle) {
        renderer.copy(&self.tex, self.src.to_sdl(), dest.to_sdl());
    }
}

/// The delay between frames, in time units, of an animation that shows
/// `fps` frames a second: the whole part of a second divided by the rate,
/// with the sign of the rate.
pub open spec fn delay_for_fps(fps: int) -> int {
    if fps > 0 {
        TICKS_PER_SECOND as int / fps
    } else {
        -(TICKS_PER_SECOND as int / (-fps))
    }
}

/// Whether a rate has a delay: it is not zero, and not so fast that the
/// delay would be under one time unit.
pub open spec fn fps_in_range(fps: int) -> bool {
    fps != 0 && -TICKS_PER_SECOND <= fps <= TICKS_PER_SECOND
}

/// The number of whole delays that have passed at `time`: the quotient of
/// the time by the delay, rounded down. It is negative where time and delay
/// lie on different sides of zero.
pub open spec fn whole_delays(time: int, delay: int) -> int {
    if delay > 0 {
        time / delay
    } else {
        (-time) / (-delay)
    }
}

/// The frame that an animation of `frames` frames shows at `time`, with
/// `delay` between frames: the number of whole delays that have passed,
/// counted round the frames. Where that number is negative the frames are
/// counted backwards from the last, so that a negative delay plays the
/// animation in reverse.
pub open spec fn frame_index(time: int, delay: int, frames: int) -> int {
    whole_delays(time, delay) % frames
}

/// The time at which the last of `frames` frames starts.
pub open spec fn last_frame_start(delay: int, frames: int) -> int {
    (frames - 1) * delay
}

/// The time of an animation after `dt` is added to `time`: the sum, held
/// within the range of the time type, unless that is negative; then the
/// start of the last frame.
pub open spec fn time_after(time: int, dt: int, delay: int, frames: int) -> int {
    let sum = clamp_i64(time + dt);
    if sum < 0 {
        clamp_i64(last_frame_start(delay, frames)) as int
    } else {
        sum as int
    }
}

fn delay_from_fps(fps: i64) -> (delay: i64)
    requires
        fps_in_range(fps as int),
    ensures
        delay == delay_for_fps(fps as int),
        delay != 0,
    no_unwind
{
    let rate: u64 = if fps > 0 {
        fps as u64
    } else {
        (-fps) as u64
    };
    let delay: u64 = 1_000_000u64 / rate;
    assert(1 <= delay <= 1_000_000) by (nonlinear_arith)
        requires
            1 <= rate <= 1_000_000,
            delay == 1_000_000u64 / rate,
    ;
    if fps > 0 {
        delay as i64
    } else {
        -(delay as i64)
    }
}

/// A number of delays later, that many more whole delays have passed.
proof fn lemma_quotient_shift(time: int, delay: int, rounds: int)
    requires
        delay != 0,
    ensures
        whole_delays(time + rounds * delay, delay) == whole_delays(time, delay) + rounds,
{
    let q = whole_delays(time, delay);
    if delay > 0 {
        vstd::arithmetic::div_mod::lemma_fundamental_div_mod(time, delay);
        vstd::arithmetic::div_mod::lemma_mod_bound(time, delay);
        assert(time + rounds * delay == (q + rounds) * delay + time % delay) by (nonlinear_arith)
            requires
                time == delay * q + time % delay,
        ;
        vstd::arithmetic::div_mod::lemma_fundamental_div_mod_converse(
            time + rounds * delay,
            delay,
            q + rounds,
            time % delay,
        );
    } else {
        let d = -delay;
        vstd::arithmetic::div_mod::lemma_fundamental_div_mod(-time, d);
        vstd::arithmetic::div_mod::lemma_mod_bound(-time, d);
        assert(-(time + rounds * delay) == (q + rounds) * d + (-time) % d) by (nonlinear_arith)
            requires
                -time == d * q + (-time) % d,
                d == -delay,
        ;
        vstd::arithmetic::div_mod::lemma_fundamental_div_mod_converse(
            -(time + rounds * delay),
            d,
            q + rounds,
            (-time) % d,
        );
    }
}

/// Rounded down, the quotient of a negative number is the quotient of its
/// distance from zero, rounded up, below zero.
proof fn lemma_floor_of_negative(over: int, under: int)
    requires
        over < 0,
        under > 0,
    ensures
        over / under == -((-over + under - 1) / under),
{
    let up = -over + under - 1;
    let c = up / under;
    vstd::arithmetic::div_mod::lemma_fundamental_div_mod(up, under);
    vstd::arithmetic::div_mod::lemma_mod_bound(up, under);
    let rest = under - 1 - up % under;
    assert(over == (-c) * under + rest) by (nonlinear_arith)
        requires
            up == under * c + up % under,
            up == -over + under - 1,
            rest == under - 1 - up % under,
    ;
    vstd::arithmetic::div_mod::lemma_fundamental_div_mod_converse(over, under, -c, rest);
}

/// Counted round, a step back by `behind` ends as far before the end as a
/// step forward by `behind` ends after the start.
proof fn lemma_mod_of_negative(behind: int, frames: int)
    requires
        behind >= 0,
        frames > 0,
    ensures
        (-behind) % frames == (if behind % frames == 0 {
            0
        } else {
            frames - behind % frames
        }),
{
    let k = behind / frames;
    let r = behind % frames;
    vstd::arithmetic::div_mod::lemma_fundamental_div_mod(behind, frames);
    vstd::arithmetic::div_mod::lemma_mod_bound(behind, frames);
    if r == 0 {
        assert(-behind == (-k) * frames + 0) by (nonlinear_arith)
            requires
                behind == frames * k + r,
                r == 0,
        ;
        vstd::arithmetic::div_mod::lemma_fundamental_div_mod_converse(-behind, frames, -k, 0);
    } else {
        assert(-behind == (-k - 1) * frames + (frames - r)) by (nonlinear_arith)
            requires
                behind == frames * k + r,
        ;
        vstd::arithmetic::div_mod::lemma_fundamental_div_mod_converse(
            -behind,
            frames,
            -k - 1,
            frames - r,
        );
    }
}

/// A sequence of sprites shown one after the other, each for the same time.
/// The frame on show is worked out from the time that has passed; it is not
/// kept.
pub struct AnimatedSprite {
    /// The frames, in the order in which they are shown.
    sprites: Rc<Vec<Sprite>>,
    /// The time from one frame to the next.
    frame_delay: i64,
    /// The time that has passed, from which the frame on show follows.
    current_time: i64,
}

impl AnimatedSprite {
    /// There is at least one frame, and the delay is not zero.
    #[verifier::type_invariant]
    pub closed spec fn wf(self) -> bool {
        self.sprites@.len() >= 1 && self.frame_delay != 0
    }

    /// The frames, in the order in which they are shown.
    pub closed spec fn sprites(&self) -> Seq<Sprite> {
        self.sprites@
    }

    /// The time from one frame to the next.
    pub closed spec fn spec_frame_delay(&self) -> i64 {
        self.frame_delay
    }

    /// The time that has passed.
    pub closed spec fn spec_current_time(&self) -> i64 {
        self.current_time
    }

    /// The number of frames.
    pub open spec fn spec_frames(&self) -> usize {
        self.sprites().len() as usize
    }

    /// The index of the frame on show.
    pub open spec fn spec_current_frame(&self) -> usize {
        frame_index(
            self.current_time() as int,
            self.frame_delay() as int,
            self.sprites().len() as int,
        ) as usize
    }

    /// An animation of the given frames at time zero. There must be a frame,
    /// and the delay must not be zero.
    pub fn new(sprites: Vec<Sprite>, frame_delay: i64) -> (a: AnimatedSprite)
        requires
            sprites@.len() >= 1,
            frame_delay != 0,
        ensures
            a.wf(),
            a.sprites() == sprites@,
            a.frame_delay() == frame_delay,
            a.current_time() == 0,
    {
        AnimatedSprite { sprites: Rc::new(sprites), frame_delay, current_time: 0 }
    }

    /// An animation of the given frames that goes to the next frame `fps`
    /// times a second. There must be a frame, and the rate must have a delay.
    pub fn with_fps(sprites: Vec<Sprite>, fps: i64) -> (a: AnimatedSprite)
        requires
            sprites@.len() >= 1,
            fps_in_range(fps as int),
        ensures
            a.wf(),
            a.sprites() == sprites@,
            a.frame_delay() == delay_for_fps(fps as int),
            a.current_time() == 0,
    {
        AnimatedSprite::new(sprites, delay_from_fps(fps))
    }

    /// The number of frames.
    #[verifier::when_used_as_spec(spec_frames)]
    pub fn frames(&self) -> (n: usize)
        ensures
            n == self.sprites().len(),
            n >= 1,
    {
        proof {
            use_type_invariant(self);
        }
        self.sprites.len()
    }

    /// The time from one frame to the next.
    #[verifier::when_used_as_spec(spec_frame_delay)]
    pub fn frame_delay(&self) -> (delay: i64)
        ensures
            delay == self.spec_frame_delay(),
            delay != 0,
    {
        proof {
            use_type_invariant(self);
        }
        self.frame_delay
    }

    /// The time that has passed.
    #[verifier::when_used_as_spec(spec_current_time)]
    pub fn current_time(&self) -> (time: i64)
        ensures
            time == self.spec_current_time(),
    {
        self.current_time
    }

    /// Sets the time from one frame to the next. A negative delay plays the
    /// animation backwards. The delay must not be zero.
    pub fn set_frame_delay(&mut self, frame_delay: i64)
        requires
            frame_delay != 0,
        ensures
            final(self).wf(),
            final(self).frame_delay() == frame_delay,
            final(self).sprites() == old(self).sprites(),
            final(self).current_time() == old(self).current_time(),
        no_unwind
    {
        proof {
            use_type_invariant(&*self);
        }
        self.frame_delay = frame_delay;
    }

    /// Sets the number of frames shown a second. A negative rate plays the
    /// animation backwards. The rate must have a delay.
    pub fn set_fps(&mut self, fps: i64)
        requires
            fps_in_range(fps as int),
        ensures
            final(self).wf(),
            final(self).frame_delay() == delay_for_fps(fps as int),
            final(self).sprites() == old(self).sprites(),
            final(self).current_time() == old(self).current_time(),
        no_unwind
    {
        self.set_frame_delay(delay_from_fps(fps));
    }

    /// Lets `dt` pass, which may be negative. A time that would fall below
    /// zero becomes the start of the last frame.
    pub fn add_time(&mut self, dt: i64)
        ensures
            final(self).wf(),
            final(self).current_time() == time_after(
                old(self).current_time() as int,
                dt as int,
                old(self).frame_delay() as int,
                old(self).sprites().len() as int,
            ),
            final(self).sprites() == old(self).sprites(),
            final(self).frame_delay() == old(self).frame_delay(),
        no_unwind
    {
        proof {
            use_type_invariant(&*self);
        }
        let sum: i64 = saturate_i64(self.current_time as i128 + dt as i128);
        self.current_time = sum;
        if sum < 0 {
            let last: i128 = (self.sprites.len() - 1) as i128;
            let delay: i128 = self.frame_delay as i128;
            assert(-0x7fff_ffff_ffff_ffff_ffff_ffff_ffff_ffff <= last * delay
                <= 0x7fff_ffff_ffff_ffff_ffff_ffff_ffff_ffff) by (nonlinear_arith)
                requires
                    0 <= last < 0x1_0000_0000_0000_0000,
                    -0x8000_0000_0000_0000 <= delay < 0x8000_0000_0000_0000,
            ;
            self.current_time = saturate_i64(last * delay);
        }
    }

    /// The index of the frame on show: the whole delays that have passed,
    /// rounded down, counted round the frames.
    #[verifier::when_used_as_spec(spec_current_frame)]
    pub fn current_frame(&self) -> (i: usize)
        ensures
            i == frame_index(
                self.current_time() as int,
                self.frame_delay() as int,
                self.sprites().len() as int,
            ),
            i < self.sprites().len(),
    {
        proof {
            use_type_invariant(self);
        }
        let frames: u128 = self.sprites.len() as u128;
        // The quotient of `time` by `delay` is that of `over` by `under`,
        // and `under` is positive.
        let over: i128 = if self.frame_delay > 0 {
            self.current_time as i128
        } else {
            -(self.current_time as i128)
        };
        let under: u128 = if self.frame_delay > 0 {
            self.frame_delay as u128
        } else {
            (-(self.frame_delay as i128)) as u128
        };
        if over >= 0 {
            let passed: u128 = over as u128 / under;
            (passed % frames) as usize
        } else {
            // Rounded down, a negative quotient is the quotient of the
            // distance from zero, rounded up, below zero.
            let behind: u128 = ((-over) as u128 + under - 1) / under;
            let back: u128 = behind % frames;
            proof {
                lemma_floor_of_negative(over as int, under as int);
                lemma_mod_of_negative(behind as int, frames as int);
            }
            if back == 0 {
                0
            } else {
                (frames - back) as usize
            }
        }
    }

    /// The frame on show is one of the frames.
    pub proof fn lemma_frame_in_range(time: int, delay: int, frames: int)
        requires
            frames >= 1,
            delay != 0,
        ensures
            0 <= frame_index(time, delay, frames) < frames,
    {
        vstd::arithmetic::div_mod::lemma_mod_bound(whole_delays(time, delay), frames);
    }

    /// The frame on show is one of the frames.
    pub proof fn lemma_current_frame_in_range(&self)
        requires
            self.wf(),
        ensures
            self.current_frame() < self.sprites().len(),
    {
        AnimatedSprite::lemma_frame_in_range(
            self.current_time as int,
            self.frame_delay as int,
            self.sprites@.len() as int,
        );
    }

    /// The whole delays that have passed are the quotient of the time by the
    /// delay, rounded down: the delay times their number is the time or, by
    /// less than one delay, on the side of it that the delay comes from.
    pub proof fn lemma_whole_delays(time: int, delay: int)
        requires
            delay != 0,
        ensures
            delay > 0 ==> whole_delays(time, delay) * delay <= time < (whole_delays(time, delay)
                + 1) * delay,
            delay < 0 ==> whole_delays(time, delay) * delay >= time > (whole_delays(time, delay)
                + 1) * delay,
    {
        let q = whole_delays(time, delay);
        if delay > 0 {
            vstd::arithmetic::div_mod::lemma_fundamental_div_mod(time, delay);
            vstd::arithmetic::div_mod::lemma_mod_bound(time, delay);
            assert(q * delay <= time < (q + 1) * delay) by (nonlinear_arith)
                requires
                    time == delay * q + time % delay,
                    0 <= time % delay < delay,
            ;
        } else {
            vstd::arithmetic::div_mod::lemma_fundamental_div_mod(-time, -delay);
            vstd::arithmetic::div_mod::lemma_mod_bound(-time, -delay);
            assert(q * delay >= time > (q + 1) * delay) by (nonlinear_arith)
                requires
                    -time == (-delay) * q + (-time) % (-delay),
                    0 <= (-time) % (-delay) < -delay,
            ;
        }
    }

    /// One delay later the next frame is on show, and after the last frame
    /// the first again, whichever way the delay points.
    pub proof fn lemma_next_frame(time: int, delay: int, frames: int)
        requires
            frames >= 1,
            delay != 0,
        ensures
            whole_delays(time + delay, delay) == whole_delays(time, delay) + 1,
            frame_index(time + delay, delay, frames) == (frame_index(time, delay, frames) + 1)
                % frames,
    {
        let q = whole_delays(time, delay);
        lemma_quotient_shift(time, delay, 1);
        assert(time + 1 * delay == time + delay) by (nonlinear_arith);
        vstd::arithmetic::div_mod::lemma_add_mod_noop(q, 1, frames);
        if frames > 1 {
            vstd::arithmetic::div_mod::lemma_small_mod(1, frames as nat);
        } else {
            vstd::arithmetic::div_mod::lemma_mod_bound(q + 1, frames);
            vstd::arithmetic::div_mod::lemma_mod_bound(q % frames + 1, frames);
        }
    }

    /// Frame selection is periodic: one more round of all the frames shows
    /// the same frame, at every time and with every delay.
    pub proof fn lemma_frame_periodic(time: int, delay: int, frames: int)
        requires
            frames >= 1,
            delay != 0,
        ensures
            frame_index(time + frames * delay, delay, frames) == frame_index(time, delay, frames),
            0 <= frame_index(time, delay, frames) < frames,
    {
        let q = whole_delays(time, delay);
        lemma_quotient_shift(time, delay, frames);
        vstd::arithmetic::div_mod::lemma_mod_multiples_vanish(1, q, frames);
        assert((q + frames) % frames == q % frames) by {
            assert(frames * 1 + q == q + frames);
        }
        vstd::arithmetic::div_mod::lemma_mod_bound(q, frames);
    }

    /// With a positive delay and a time that is not negative, the frames are
    /// shown in order, each for one delay, from the first.
    pub proof fn lemma_frames_in_order(time: int, delay: int, frames: int, k: int)
        requires
            frames >= 1,
            delay > 0,
            0 <= k < frames,
            k * delay <= time < (k + 1) * delay,
        ensures
            frame_index(time, delay, frames) == k,
    {
        assert(0 <= time - k * delay < delay) by (nonlinear_arith)
            requires
                k * delay <= time < (k + 1) * delay,
        ;
        vstd::arithmetic::div_mod::lemma_fundamental_div_mod_converse(
            time,
            delay,
            k,
            time - k * delay,
        );
        vstd::arithmetic::div_mod::lemma_small_mod(k as nat, frames as nat);
    }

    /// With a negative delay and a time that is not negative, the frames are
    /// shown in reverse: the last frame during the first delay, then the one
    /// before it, and so on.
    pub proof fn lemma_frames_in_reverse(time: int, delay: int, frames: int, k: int)
        requires
            frames >= 1,
            delay < 0,
            1 <= k <= frames,
            (k - 1) * (-delay) < time <= k * (-delay),
        ensures
            frame_index(time, delay, frames) == frames - k,
    {
        let d = -delay;
        let r = k * d - time;
        assert(-time == (-k) * d + r) by (nonlinear_arith)
            requires
                r == k * d - time,
        ;
        assert(0 <= r < d) by (nonlinear_arith)
            requires
                r == k * d - time,
                (k - 1) * d < time <= k * d,
        ;
        vstd::arithmetic::div_mod::lemma_fundamental_div_mod_converse(-time, d, -k, r);
        assert(-k == (-1) * frames + (frames - k));
        vstd::arithmetic::div_mod::lemma_fundamental_div_mod_converse(
            -k,
            frames,
            -1,
            frames - k,
        );
    }

    /// After a step back in time to before zero the animation stands at the
    /// start of its last frame exactly, unless that time lies beyond what a
    /// time can hold.
    pub proof fn lemma_rewind(time: int, dt: int, delay: int, frames: int)
        requires
            time + dt < 0,
        ensures
            time_after(time, dt, delay, frames) == (frames - 1) * delay <==> i64::MIN <= (frames
                - 1) * delay <= i64::MAX,
    {
    }
}

impl Renderable for AnimatedSprite {
    /// What drawing the frame on show requests.
    open spec fn drawing(&self, dest: Rectangle) -> Seq<DrawCommand> {
        self.sprites()[self.current_frame() as int].drawing(dest)
    }

    open spec fn drawable(&self) -> bool {
        self.sprites()[self.current_frame() as int].drawable()
    }

    /// Draws the frame on show.
    fn render(&self, renderer: &mut Renderer, dest: Rectangle) {
        let current_frame = self.current_frame();
        let sprite = &self.sprites[current_frame];
        sprite.render(renderer, dest);
    }
}

/// A renderer that can draw things of type `T`.
pub trait CopySprite<T: Renderable> {
    /// Draws `sprite` into `dest`.
    fn copy_sprite(&mut self, sprite: &T, dest: Rectangle)
        requires
            sprite.drawable(),
            dest.w >= 0,
            dest.h >= 0,
    ;
}

impl<T: Renderable> CopySprite<T> for Renderer {
    fn copy_sprite(&mut self, renderable: &T, dest: Rectangle)
        ensures
            final(self)@ == old(self)@ + renderable.drawing(dest),
            final(self).output_size() == old(self).output_size(),
    {
        renderable.render(self, dest);
    }
}

} // verus!
