//! The frame context: what a view is handed while it draws a frame.

use crate::events::{Event, Events};
use crate::fonts::{Font, FontCache};
use crate::gfx::Sprite;
use crate::render::{Renderer, Texture};
use vstd::prelude::*;

verus! {

/// What a view works with while it draws a frame: the input snapshot, the
/// renderer, and the fonts loaded so far.
pub struct Phi {
    pub events: Events,
    pub renderer: Renderer,
    pub cached_fonts: FontCache,
}

/// What has happened on the way to a sprite of a line of text.
#[derive(Clone, Copy, Debug, PartialEq, Eq, Structural)]
pub enum TtfEvent {
    /// The sprite was asked for.
    Requested,
    /// The platform tried to load the font: the font, or nothing if it could
    /// not be loaded.
    FontLoaded(Option<Font>),
    /// The platform tried to draw the text into an image: the image, or
    /// nothing if that failed.
    TextRendered(Option<Texture>),
}

/// What is to be done next on the way to a sprite of a line of text.
#[derive(Clone, Copy, Debug, PartialEq, Eq)]
pub enum TtfAction {
    /// Load the font from its file at the size asked for.
    LoadFont,
    /// Draw the text with this font into an image.
    RenderText(Font),
    /// The end: the sprite, or nothing if a step failed.
    Finished(Option<Sprite>),
}

impl Phi {
    /// The context at the start of a run loop: no font is loaded.
    pub fn new(events: Events, renderer: Renderer) -> (phi: Phi)
        ensures
            phi.events == events,
            phi.renderer == renderer,
            forall|path: Seq<char>, size: i32| phi.cached_fonts.spec_get(path, size) is None,
    {
        Phi { events, renderer, cached_fonts: FontCache::new() }
    }

    /// The size of the drawing target in screen units, width first.
    pub fn output_size(&self) -> (size: (i64, i64))
        ensures
            size.0 == self.renderer.output_size().0,
            size.1 == self.renderer.output_size().1,
    {
        let (w, h): (u32, u32) = self.renderer.output_size();
        (w as i64, h as i64)
    }

    /// The context after the input source's reports `polled` are taken into
    /// a new frame of the snapshot.
    pub open spec fn pumped(self, polled: Seq<Event>) -> Phi {
        Phi { events: self.events.rotated().after_all(polled), ..self }
    }

    /// One step on the way to a sprite that shows a line of text in the font
    /// of the file `font_path` at `size`. The platform loads fonts and draws
    /// text; this decides what it is asked to do, given what has happened.
    ///
    /// When the sprite is asked for, a cached font is used at once, and one
    /// that is not cached is to be loaded. A font that was loaded is cached
    /// and then used; if it could not be loaded there is no sprite. Text that
    /// was drawn gives a sprite of the whole image; if it could not be drawn
    /// there is no sprite. No font ever leaves the cache.
    pub fn ttf_str_sprite(&mut self, font_path: &str, size: i32, event: TtfEvent) -> (action:
        TtfAction)
        ensures
            final(self).events == old(self).events,
            final(self).renderer == old(self).renderer,
            event == TtfEvent::Requested ==> action == (match old(self).cached_fonts.spec_get(
                font_path@,
                size,
            ) {
                Some(font) => TtfAction::RenderText(font),
                None => TtfAction::LoadFont,
            }),
            event matches TtfEvent::FontLoaded(Some(font)) ==> action == TtfAction::RenderText(font)
                && final(self).cached_fonts.spec_get(font_path@, size) == Some(font),
            event == TtfEvent::FontLoaded(None) ==> action == TtfAction::Finished(None),
            event matches TtfEvent::TextRendered(texture) ==> action == TtfAction::Finished(
                Sprite::load(texture),
            ),
            forall|path: Seq<char>, other_size: i32|
                (event matches TtfEvent::FontLoaded(Some(_)) && path == font_path@ && other_size
                    == size) || #[trigger] final(self).cached_fonts.spec_get(path, other_size)
                    == old(self).cached_fonts.spec_get(path, other_size),
    {
        match event {
            TtfEvent::Requested => match self.cached_fonts.get(font_path, size) {
                Some(font) => TtfAction::RenderText(font),
                None => TtfAction::LoadFont,
            },
            TtfEvent::FontLoaded(Some(font)) => {
                self.cached_fonts.insert(font_path, size, font);
                TtfAction::RenderText(font)
            },
            TtfEvent::FontLoaded(None) => TtfAction::Finished(None),
            TtfEvent::TextRendered(texture) => TtfAction::Finished(Sprite::load(texture)),
        }
    }
}

} // verus!
