use vstd::prelude::*;
use crate::canvas::{overlay_byte, Canvas};

verus! {

/// Half of `d`, rounded toward zero.
pub open spec fn half_toward_zero(d: int) -> int {
    if d >= 0 {
        d / 2
    } else {
        -((-d) / 2)
    }
}

/// Offset that centres a span of length `inner` in one of length `outer`,
/// rounded toward zero; negative where `inner` is the longer.
pub fn centering_offset(outer: u32, inner: u32) -> (r: i64)
    ensures
        r == half_toward_zero(outer as int - inner as int),
{
    if outer >= inner {
        ((outer - inner) / 2) as i64
    } else {
        -(((inner - outer) / 2) as i64)
    }
}

/// Where the top-left corner of a rotated glyph goes: its box is widened
/// symmetrically around the unrotated glyph that starts at the cursor
/// `x_offset`, and centred on the canvas height.
pub fn glyph_origin(x_offset: i64, rotated_width: u32, rotated_height: u32, glyph_width: u32, canvas_height: u32) -> (r: (i64, i64))
    requires
        i64::MIN + 0x8000_0000 <= x_offset <= i64::MAX - 0x8000_0000,
    ensures
        r.0 == x_offset - half_toward_zero(rotated_width as int - glyph_width as int),
        r.1 == half_toward_zero(canvas_height as int - rotated_height as int),
{
    let dx = centering_offset(rotated_width, glyph_width);
    let dy = centering_offset(canvas_height, rotated_height);
    (x_offset - dx, dy)
}

/// A `dw`-wide canvas `dst` after `src` is laid over it at `(x, y)`.
pub open spec fn overlaid(dst: Seq<u8>, dw: int, src: Canvas, x: int, y: int) -> Seq<u8> {
    Seq::new(
        dst.len(),
        |i: int|
            overlay_byte(dst, dw, src.pixels@, src.width as int, src.height as int, x, y, i),
    )
}

/// A `width` by `height` canvas `start` after the first `n` rotated glyphs
/// are placed in order, glyph `k` with its unrotated width `widths[k]` and
/// its cursor `cursors[k]`.
pub open spec fn glyphs_placed(
    start: Seq<u8>,
    width: int,
    height: int,
    glyphs: Seq<Canvas>,
    cursors: Seq<i64>,
    widths: Seq<u32>,
    n: nat,
) -> Seq<u8>
    decreases n,
{
    if n == 0 {
        start
    } else {
        let k = n - 1;
        let g = glyphs[k];
        overlaid(
            glyphs_placed(start, width, height, glyphs, cursors, widths, (n - 1) as nat),
            width,
            g,
            cursors[k] - half_toward_zero(g.width as int - widths[k] as int),
            half_toward_zero(height - g.height as int),
        )
    }
}

impl Canvas {
    /// A transparent `width` by `height` canvas with `glyph` centred in it.
    pub fn expand_centered(glyph: &Canvas, width: u32, height: u32) -> (r: Canvas)
        requires
            glyph.wf(),
            4 * (width as int * height as int) <= usize::MAX,
        ensures
            r.wf(),
            r.width == width,
            r.height == height,
            forall|i: int|
                0 <= i < r.pixels@.len() ==> #[trigger] r.pixels@[i] == overlay_byte(
                    Seq::new(r.pixels@.len(), |j: int| 0u8),
                    width as int,
                    glyph.pixels@,
                    glyph.width as int,
                    glyph.height as int,
                    half_toward_zero(width as int - glyph.width as int),
                    half_toward_zero(height as int - glyph.height as int),
                    i,
                ),
    {
        let mut r = Canvas::transparent(width, height);
        assert(r.pixels@ =~= Seq::new(r.pixels@.len(), |j: int| 0u8));
        let x = centering_offset(width, glyph.width);
        let y = centering_offset(height, glyph.height);
        r.overlay(glyph, x, y);
        r
    }

    /// Composites a rotated glyph bitmap whose unrotated glyph is
    /// `glyph_width` wide and starts at the cursor `x_offset`.
    pub fn place_glyph(&mut self, rotated: &Canvas, x_offset: i64, glyph_width: u32)
        requires
            old(self).wf(),
            rotated.wf(),
            i64::MIN + 0x8000_0000 <= x_offset <= i64::MAX - 0x8000_0000,
        ensures
            final(self).wf(),
            final(self).width == old(self).width,
            final(self).height == old(self).height,
            forall|i: int|
                0 <= i < old(self).pixels@.len() ==> #[trigger] final(self).pixels@[i]
                    == overlay_byte(
                    old(self).pixels@,
                    old(self).width as int,
                    rotated.pixels@,
                    rotated.width as int,
                    rotated.height as int,
                    x_offset - half_toward_zero(rotated.width as int - glyph_width as int),
                    half_toward_zero(old(self).height as int - rotated.height as int),
                    i,
                ),
    {
        let (x, y) = glyph_origin(x_offset, rotated.width, rotated.height, glyph_width, self.height);
        self.overlay(rotated, x, y);
    }

    /// Places the rotated glyphs left to right, in order, each at its cursor.
    pub fn place_glyphs(&mut self, glyphs: &Vec<Canvas>, cursors: &Vec<i64>, widths: &Vec<u32>)
        requires
            old(self).wf(),
            glyphs@.len() == cursors@.len(),
            glyphs@.len() == widths@.len(),
            forall|k: int| 0 <= k < glyphs@.len() ==> (#[trigger] glyphs@[k]).wf(),
            forall|k: int|
                0 <= k < cursors@.len() ==> i64::MIN + 0x8000_0000 <= #[trigger] cursors@[k]
                    <= i64::MAX - 0x8000_0000,
        ensures
            final(self).wf(),
            final(self).width == old(self).width,
            final(self).height == old(self).height,
            final(self).pixels@ == glyphs_placed(
                old(self).pixels@,
                old(self).width as int,
                old(self).height as int,
                glyphs@,
                cursors@,
                widths@,
                glyphs@.len(),
            ),
    {
        let ghost start = self.pixels@;
        let mut k: usize = 0;
        while k < glyphs.len()
            invariant
                self.wf(),
                self.width == old(self).width,
                self.height == old(self).height,
                start == old(self).pixels@,
                k <= glyphs@.len(),
                glyphs@.len() == cursors@.len(),
                glyphs@.len() == widths@.len(),
                forall|j: int| 0 <= j < glyphs@.len() ==> (#[trigger] glyphs@[j]).wf(),
                forall|j: int|
                    0 <= j < cursors@.len() ==> i64::MIN + 0x8000_0000 <= #[trigger] cursors@[j]
                        <= i64::MAX - 0x8000_0000,
                self.pixels@ == glyphs_placed(
                    start,
                    self.width as int,
                    self.height as int,
                    glyphs@,
                    cursors@,
                    widths@,
                    k as nat,
                ),
            decreases glyphs@.len() - k,
        {
            let ghost before = self.pixels@;
            self.place_glyph(&glyphs[k], cursors[k], widths[k]);
            proof {
                let g = glyphs@[k as int];
                assert(self.pixels@ =~= overlaid(
                    before,
                    self.width as int,
                    g,
                    cursors@[k as int] - half_toward_zero(g.width as int - widths@[k as int] as int),
                    half_toward_zero(self.height as int - g.height as int),
                ));
            }
            k = k + 1;
        }
    }
}

} // verus!
