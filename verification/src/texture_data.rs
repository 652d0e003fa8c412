//! A passive holder for decoded texture data.

use vstd::prelude::*;

verus! {

/// Width and height of a decoded texture, with a single fixed-point
/// scalar standing in for its pixel buffer. No consistency between the
/// buffer and the dimensions is enforced.
#[derive(Clone, Copy, PartialEq, Eq, Structural, Debug)]
pub struct TextureData {
    pub width: i32,
    pub height: i32,
    pub buffer: i64,
}

impl TextureData {
    /// Bundles a buffer scalar with the texture's dimensions.
    pub fn new(buffer: i64, width: i32, height: i32) -> (t: TextureData)
        ensures
            t.buffer == buffer,
            t.width == width,
            t.height == height,
    {
        TextureData { width, height, buffer }
    }

    /// The width in pixels.
    pub fn get_width(&self) -> (r: i32)
        ensures
            r == self.width,
    {
        self.width
    }

    /// The height in pixels.
    pub fn get_height(&self) -> (r: i32)
        ensures
            r == self.height,
    {
        self.height
    }

    /// The scalar standing in for the pixel buffer.
    pub fn get_buffer(&self) -> (r: i64)
        ensures
            r == self.buffer,
    {
        self.buffer
    }
}

} // verus!
