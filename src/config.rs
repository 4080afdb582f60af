use vstd::prelude::*;
use crate::canvas::{Canvas, CanvasError};

verus! {

/// What a challenge looks like: how many characters, the canvas size, and the
/// text and background colours as RGB triples.
pub struct Config {
    pub length: u32,
    pub width: u32,
    pub height: u32,
    pub color: [u8; 3],
    pub background_color: [u8; 3],
}

impl Config {
    /// Length, width and height are all positive.
    pub open spec fn valid(&self) -> bool {
        self.length > 0 && self.width > 0 && self.height > 0
    }

    /// The glyph size: the largest that lets `length` glyphs share the width
    /// and still fit the height.
    pub open spec fn spec_font_size(&self) -> nat
        recommends
            self.length > 0,
    {
        let per_glyph = self.width as nat / self.length as nat;
        if per_glyph <= self.height as nat {
            per_glyph
        } else {
            self.height as nat
        }
    }

    pub fn font_size(&self) -> (r: u32)
        requires
            self.length > 0,
        ensures
            r as nat == self.spec_font_size(),
    {
        let per_glyph = self.width / self.length;
        if per_glyph <= self.height {
            per_glyph
        } else {
            self.height
        }
    }
}

impl Config {
    /// The background: a canvas of the configured size in the background
    /// colour, fully opaque.
    pub fn blank_canvas(&self) -> (r: Canvas)
        requires
            4 * (self.width as int * self.height as int) <= usize::MAX,
        ensures
            r.wf(),
            r.width == self.width,
            r.height == self.height,
            forall|i: int|
                0 <= i < r.pixels@.len() ==> #[trigger] r.pixels@[i] == (if i % 4 == 3 {
                    255u8
                } else {
                    self.background_color[i % 4]
                }),
    {
        let bg = self.background_color;
        Canvas::filled(self.width, self.height, [bg[0], bg[1], bg[2], 255])
    }

    /// A glyph's coverage mask in the text colour.
    pub fn glyph_bitmap(&self, mask: &Vec<u8>, width: u32, height: u32) -> (r: Result<
        Canvas,
        CanvasError,
    >)
        requires
            4 * (width as int * height as int) <= usize::MAX,
        ensures
            r is Err <==> mask@.len() != width as int * height as int,
            r matches Err(e) ==> e == CanvasError::BufferSize,
            r matches Ok(c) ==> c.wf() && c.width == width && c.height == height,
            r matches Ok(c) ==> forall|p: int, k: int|
                0 <= p < mask@.len() && 0 <= k < 4 ==> #[trigger] c.pixels@[4 * p + k] == (if k
                    == 3 {
                    mask@[p]
                } else {
                    self.color[k]
                }),
    {
        Canvas::from_mask(mask, width, height, self.color)
    }
}

impl Default for Config {
    /// Four characters on a 240 by 80 canvas, black on white.
    fn default() -> (r: Self)
        ensures
            r.length == 4,
            r.width == 240,
            r.height == 80,
            r.color == [0u8, 0u8, 0u8],
            r.background_color == [255u8, 255u8, 255u8],
    {
        Config {
            length: 4,
            width: 240,
            height: 80,
            color: [0, 0, 0],
            background_color: [255, 255, 255],
        }
    }
}

} // verus!
