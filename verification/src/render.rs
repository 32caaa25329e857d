//! The draw list: what a view asks of the window's renderer during one
//! frame, recorded in order for the platform layer to carry out.

use crate::data::SdlRect;
use vstd::prelude::*;

verus! {

/// A colour with an alpha channel.
#[derive(Clone, Copy, Debug, PartialEq, Eq, Structural)]
pub struct Color {
    pub r: u8,
    pub g: u8,
    pub b: u8,
    pub a: u8,
}

impl Color {
    /// The opaque colour with the given red, green and blue parts.
    #[allow(non_snake_case)]
    pub fn RGB(r: u8, g: u8, b: u8) -> (c: Color)
        ensures
            c == (Color { r, g, b, a: 255 }),
    {
        Color { r, g, b, a: 255 }
    }
}

/// A decoded image that the platform layer holds: its place in the
/// platform's table of images, and its size in pixels. Copies of a handle
/// stand for the same image.
#[derive(Clone, Copy, Debug, PartialEq, Eq, Structural)]
pub struct Texture {
    pub id: usize,
    pub width: u32,
    pub height: u32,
}

/// One request to the renderer.
#[derive(Clone, Copy, Debug, PartialEq, Eq, Structural)]
pub enum DrawCommand {
    /// Use this colour for the clears and fills that follow.
    SetDrawColor(Color),
    /// Fill the whole target with the draw colour.
    Clear,
    /// Fill a rectangle of the target, or all of it, with the draw colour.
    FillRect(Option<SdlRect>),
    /// Copy a part of an image, or all of it, onto a rectangle of the
    /// target, or all of it, scaling as needed.
    Copy { texture: Texture, src: Option<SdlRect>, dst: Option<SdlRect> },
}

/// The renderer as a view sees it: the size of the drawing target and the
/// requests made of it since they were last taken.
pub struct Renderer {
    commands: Vec<DrawCommand>,
    width: u32,
    height: u32,
}

impl View for Renderer {
    type V = Seq<DrawCommand>;

    /// The recorded requests, oldest first.
    closed spec fn view(&self) -> Seq<DrawCommand> {
        self.commands@
    }
}

impl Renderer {
    /// The size of the drawing target, width first.
    pub closed spec fn spec_output_size(&self) -> (u32, u32) {
        (self.width, self.height)
    }

    /// A renderer for a target of the given size, with nothing recorded.
    pub fn new(width: u32, height: u32) -> (r: Renderer)
        ensures
            r@ == Seq::<DrawCommand>::empty(),
            r.spec_output_size() == (width, height),
    {
        Renderer { commands: Vec::new(), width, height }
    }

    /// The size of the drawing target, width first.
    #[verifier::when_used_as_spec(spec_output_size)]
    pub fn output_size(&self) -> (size: (u32, u32))
        ensures
            size == self.spec_output_size(),
    {
        (self.width, self.height)
    }

    /// Records that the drawing target now has the given size.
    pub fn set_output_size(&mut self, width: u32, height: u32)
        ensures
            final(self)@ == old(self)@,
            final(self).output_size() == (width, height),
    {
        self.width = width;
        self.height = height;
    }

    /// Requests a change of the draw colour.
    pub fn set_draw_color(&mut self, color: Color)
        ensures
            final(self)@ == old(self)@.push(DrawCommand::SetDrawColor(color)),
            final(self).output_size() == old(self).output_size(),
    {
        self.commands.push(DrawCommand::SetDrawColor(color));
    }

    /// Requests that the whole target be filled with the draw colour.
    pub fn clear(&mut self)
        ensures
            final(self)@ == old(self)@.push(DrawCommand::Clear),
            final(self).output_size() == old(self).output_size(),
    {
        self.commands.push(DrawCommand::Clear);
    }

    /// Requests that `rect`, or the whole target, be filled with the draw
    /// colour.
    pub fn fill_rect(&mut self, rect: Option<SdlRect>)
        ensures
            final(self)@ == old(self)@.push(DrawCommand::FillRect(rect)),
            final(self).output_size() == old(self).output_size(),
    {
        self.commands.push(DrawCommand::FillRect(rect));
    }

    /// Requests that the part `src` of `texture` be copied onto `dst`.
    pub fn copy(&mut self, texture: &Texture, src: Option<SdlRect>, dst: Option<SdlRect>)
        ensures
            final(self)@ == old(self)@.push(DrawCommand::Copy { texture: *texture, src, dst }),
            final(self).output_size() == old(self).output_size(),
    {
        self.commands.push(DrawCommand::Copy { texture: *texture, src, dst });
    }

    /// Hands out the recorded requests, oldest first, and starts an empty
    /// record.
    pub fn take_commands(&mut self) -> (taken: Vec<DrawCommand>)
        ensures
            taken@ == old(self)@,
            final(self)@ == Seq::<DrawCommand>::empty(),
            final(self).output_size() == old(self).output_size(),
    {
        let mut taken: Vec<DrawCommand> = Vec::new();
        std::mem::swap(&mut self.commands, &mut taken);
        taken
    }
}

} // verus!
