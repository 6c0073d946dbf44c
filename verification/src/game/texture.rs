//! From pixel rectangles of a texture atlas to normalised coordinates.

use crate::shapes::Ratio;
use crate::shapes::Size;
use crate::shapes::UvRect;
use vstd::prelude::*;

verus! {

/// Knows the pixel dimensions of one texture atlas.
#[derive(Clone, Copy, Debug, PartialEq, Eq, Structural)]
pub struct TextureHelper {
    pub size: Size,
}

impl TextureHelper {
    /// The normalised rectangle that covers the pixels from `(x, y)` to
    /// `(x + width, y + height)`: each corner coordinate over the atlas
    /// dimension along its axis.
    pub open spec fn spec_texture_coord(&self, x: i64, y: i64, width: i64, height: i64) -> UvRect {
        UvRect {
            u0: Ratio { num: x, den: self.size.width },
            v0: Ratio { num: y, den: self.size.height },
            u1: Ratio { num: (x + width) as i64, den: self.size.width },
            v1: Ratio { num: (y + height) as i64, den: self.size.height },
        }
    }

    /// A helper for an atlas of `width` by `height` pixels.
    pub fn new(width: i64, height: i64) -> (helper: TextureHelper)
        ensures
            helper.size == (Size { width, height }),
    {
        TextureHelper { size: Size { width, height } }
    }

    /// Maps a pixel rectangle to normalised coordinates. Nothing is checked
    /// against the atlas bounds; the far corner only has to be representable.
    pub fn texture_coord(&self, x: i64, y: i64, width: i64, height: i64) -> (coord: UvRect)
        requires
            i64::MIN <= x + width <= i64::MAX,
            i64::MIN <= y + height <= i64::MAX,
        ensures
            coord == self.spec_texture_coord(x, y, width, height),
            coord.u1.num == x + width,
            coord.v1.num == y + height,
    {
        UvRect {
            u0: Ratio { num: x, den: self.size.width },
            v0: Ratio { num: y, den: self.size.height },
            u1: Ratio { num: x + width, den: self.size.width },
            v1: Ratio { num: y + height, den: self.size.height },
        }
    }
}

} // verus!
