//! The cache of loaded fonts, which lives as long as the run loop.

use vstd::prelude::*;

verus! {

/// A font that the platform layer has loaded at one size: its place in the
/// platform's table of fonts. Copies of a handle stand for the same font.
#[derive(Clone, Copy, Debug, PartialEq, Eq, Structural)]
pub struct Font {
    pub id: usize,
}

/// One loaded font, with the file and the size it was loaded from.
pub struct CachedFont {
    pub path: String,
    pub size: i32,
    pub font: Font,
}

/// The loaded fonts, each under the path of its file and its size. A font is
/// put in when it is first loaded and never taken out.
///
/// The cache is a list that is searched from its newest entry, which makes
/// it a map from path and size to font: one font under each key, the last
/// that was put in. It is not a hash map, because vstd gives the model of a
/// hash map for whole-number keys only, and a key here holds a path.
pub struct FontCache {
    entries: Vec<CachedFont>,
}

/// The font that the newest of `entries` with the given path and size holds.
pub open spec fn newest_font(entries: Seq<CachedFont>, path: Seq<char>, size: i32) -> Option<Font>
    decreases entries.len(),
{
    if entries.len() == 0 {
        None
    } else if entries.last().path@ == path && entries.last().size == size {
        Some(entries.last().font)
    } else {
        newest_font(entries.drop_last(), path, size)
    }
}

impl FontCache {
    /// The font that is cached under `path` and `size`, if there is one.
    pub closed spec fn spec_get(&self, path: Seq<char>, size: i32) -> Option<Font> {
        newest_font(self.entries@, path, size)
    }

    /// A cache that holds no font.
    pub fn new() -> (cache: FontCache)
        ensures
            forall|path: Seq<char>, size: i32| cache.spec_get(path, size) is None,
    {
        FontCache { entries: Vec::new() }
    }

    /// The font that is cached under `path` and `size`, if there is one.
    pub fn get(&self, path: &str, size: i32) -> (font: Option<Font>)
        ensures
            font == self.spec_get(path@, size),
    {
        let wanted: String = path.to_owned();
        let mut i: usize = self.entries.len();
        proof {
            assert(self.entries@.take(i as int) == self.entries@);
        }
        while i > 0
            invariant
                i <= self.entries.len(),
                wanted@ == path@,
                newest_font(self.entries@, path@, size) == newest_font(
                    self.entries@.take(i as int),
                    path@,
                    size,
                ),
            decreases i,
        {
            proof {
                assert(self.entries@.take(i as int).drop_last() == self.entries@.take(i - 1));
            }
            i -= 1;
            let entry = &self.entries[i];
            if entry.size == size && entry.path == wanted {
                return Some(entry.font);
            }
        }
        None
    }

    /// Puts `font` in under `path` and `size`, in place of what was cached
    /// under them. What is cached under another path or size stays.
    pub fn insert(&mut self, path: &str, size: i32, font: Font)
        ensures
            final(self).spec_get(path@, size) == Some(font),
            forall|other: Seq<char>, other_size: i32|
                other != path@ || other_size != size ==> #[trigger] final(self).spec_get(
                    other,
                    other_size,
                ) == old(self).spec_get(other, other_size),
    {
        let ghost before = self.entries@;
        self.entries.push(CachedFont { path: path.to_owned(), size, font });
        proof {
            assert(self.entries@.drop_last() == before);
        }
    }
}

} // verus!
