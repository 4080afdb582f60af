use vstd::prelude::*;
use image::{imageops, RgbaImage};

verus! {

/// Why a canvas could not be built or encoded.
#[derive(Debug, Clone, Copy, PartialEq, Eq, Structural)]
pub enum CanvasError {
    /// A raw buffer's length does not match the declared width and height.
    BufferSize,
    /// The image encoder failed.
    Encoding,
}

/// An RGBA raster, row by row, four bytes per pixel in the order red, green,
/// blue, alpha.
pub struct Canvas {
    pub width: u32,
    pub height: u32,
    pub pixels: Vec<u8>,
}

/// The four bytes of pixel `p` in a row-major RGBA buffer.
pub open spec fn pixel_of(bytes: Seq<u8>, p: int) -> Seq<u8> {
    bytes.subrange(4 * p, 4 * p + 4)
}

/// What image's `Rgba::blend` makes of a background and a foreground pixel
/// whose alpha is neither zero nor full.
pub uninterp spec fn blend_of(bg: Seq<u8>, fg: Seq<u8>) -> Seq<u8>;

/// "Over" compositing of one pixel: a transparent foreground keeps the
/// background, an opaque one replaces it, any other is `mixed`.
pub open spec fn blended(bg: Seq<u8>, fg: Seq<u8>, mixed: Seq<u8>) -> Seq<u8> {
    if fg[3] == 0 {
        bg
    } else if fg[3] == 255 {
        fg
    } else {
        mixed
    }
}

/// Whether pixel `p` of a `dw`-wide canvas lies under a `sw` by `sh` bitmap
/// placed with its top-left corner at `(x, y)`.
pub open spec fn covered(dw: int, sw: int, sh: int, x: int, y: int, p: int) -> bool {
    0 <= p % dw - x < sw && 0 <= p / dw - y < sh
}

/// The pixel of that bitmap which lies over pixel `p`.
pub open spec fn covering(dw: int, sw: int, x: int, y: int, p: int) -> int {
    (p / dw - y) * sw + (p % dw - x)
}

/// Byte `i` of a `dw`-wide canvas `dst` after the `sw` by `sh` bitmap `src`
/// is laid over it with its top-left corner at `(x, y)`; what falls outside
/// the canvas is clipped.
pub open spec fn overlay_byte(
    dst: Seq<u8>,
    dw: int,
    src: Seq<u8>,
    sw: int,
    sh: int,
    x: int,
    y: int,
    i: int,
) -> u8 {
    let p = i / 4;
    if covered(dw, sw, sh, x, y, p) {
        let bg = pixel_of(dst, p);
        let fg = pixel_of(src, covering(dw, sw, x, y, p));
        blended(bg, fg, blend_of(bg, fg))[i % 4]
    } else {
        dst[i]
    }
}

/// A colour channel `c` premultiplied by alpha `a`, divided back out,
/// rounded to nearest; zero where the alpha is.
pub open spec fn unpremultiplied(c: u8, a: u8) -> u8 {
    if a == 0 {
        0
    } else {
        let v = (c as int * 255 + a as int / 2) / a as int;
        if v > 255 {
            255
        } else {
            v as u8
        }
    }
}

fn unpremultiply(c: u8, a: u8) -> (r: u8)
    ensures
        r == unpremultiplied(c, a),
{
    if a == 0 {
        0
    } else {
        let v = (c as u32 * 255 + a as u32 / 2) / a as u32;
        if v > 255 {
            255
        } else {
            v as u8
        }
    }
}

/// Channel `k` (red, green, blue, alpha) of a pixel packed as premultiplied
/// `0xAARRGGBB`, with the colour channels no longer premultiplied.
pub open spec fn argb_channel(c: u32, k: int) -> u8 {
    let a = (c >> 24 & 0xff) as u8;
    if k == 0 {
        unpremultiplied((c >> 16 & 0xff) as u8, a)
    } else if k == 1 {
        unpremultiplied((c >> 8 & 0xff) as u8, a)
    } else if k == 2 {
        unpremultiplied((c & 0xff) as u8, a)
    } else {
        a
    }
}

/// A buffer of premultiplied `0xAARRGGBB` pixels as RGBA bytes.
pub open spec fn unpacked(packed: Seq<u32>) -> Seq<u8> {
    Seq::new(4 * packed.len(), |i: int| argb_channel(packed[i / 4], i % 4))
}

/// A `width` by `height` canvas `start` after the first `n` packed layers
/// are laid over it in order, each covering the whole canvas.
pub open spec fn layers_merged(start: Seq<u8>, width: int, height: int, layers: Seq<Vec<u32>>, n: nat) -> Seq<u8>
    decreases n,
{
    if n == 0 {
        start
    } else {
        let prev = layers_merged(start, width, height, layers, (n - 1) as nat);
        Seq::new(
            prev.len(),
            |i: int| overlay_byte(prev, width, unpacked(layers[n - 1]@), width, height, 0, 0, i),
        )
    }
}

/// Relies on image's `imageops::overlay` on RGBA buffers: it blends, with
/// `Rgba::blend`, exactly the pixels of `dst` that the placed `src` covers,
/// and `blend` returns early on a transparent foreground and copies an opaque
/// one.
#[verifier::external_body]
fn overlay_raw(dst: &mut Canvas, src: &Canvas, x: i64, y: i64)
    requires
        old(dst).wf(),
        src.wf(),
    ensures
        final(dst).width == old(dst).width,
        final(dst).height == old(dst).height,
        final(dst).pixels@.len() == old(dst).pixels@.len(),
        forall|i: int|
            0 <= i < old(dst).pixels@.len() && !covered(
                old(dst).width as int,
                src.width as int,
                src.height as int,
                x as int,
                y as int,
                i / 4,
            ) ==> #[trigger] final(dst).pixels@[i] == old(dst).pixels@[i],
        forall|i: int|
            0 <= i < old(dst).pixels@.len() && covered(
                old(dst).width as int,
                src.width as int,
                src.height as int,
                x as int,
                y as int,
                i / 4,
            ) ==> #[trigger] final(dst).pixels@[i] == blended(
                pixel_of(old(dst).pixels@, i / 4),
                pixel_of(src.pixels@, covering(old(dst).width as int, src.width as int, x as int, y as int, i / 4)),
                blend_of(
                    pixel_of(old(dst).pixels@, i / 4),
                    pixel_of(src.pixels@, covering(old(dst).width as int, src.width as int, x as int, y as int, i / 4)),
                ),
            )[i % 4],
{
    let bytes = std::mem::take(&mut dst.pixels);
    let mut bottom = RgbaImage::from_raw(dst.width, dst.height, bytes).unwrap();
    let top = RgbaImage::from_raw(src.width, src.height, src.pixels.clone()).unwrap();
    imageops::overlay(&mut bottom, &top, x, y);
    dst.pixels = bottom.into_raw();
}

impl Canvas {
    /// The buffer holds exactly four bytes for each pixel.
    pub open spec fn wf(&self) -> bool {
        self.pixels@.len() == 4 * (self.width as int * self.height as int)
    }

    /// A `width` by `height` canvas whose every pixel is `rgba`.
    pub fn filled(width: u32, height: u32, rgba: [u8; 4]) -> (r: Canvas)
        requires
            4 * (width as int * height as int) <= usize::MAX,
        ensures
            r.wf(),
            r.width == width,
            r.height == height,
            forall|i: int| 0 <= i < r.pixels@.len() ==> #[trigger] r.pixels@[i] == rgba[i % 4],
    {
        let n = width as usize * height as usize;
        let mut pixels: Vec<u8> = Vec::new();
        let mut p: usize = 0;
        while p < n
            invariant
                n == width as int * height as int,
                4 * n <= usize::MAX,
                p <= n,
                pixels@.len() == 4 * p,
                forall|i: int| 0 <= i < pixels@.len() ==> #[trigger] pixels@[i] == rgba[i % 4],
            decreases n - p,
        {
            pixels.push(rgba[0]);
            pixels.push(rgba[1]);
            pixels.push(rgba[2]);
            pixels.push(rgba[3]);
            p = p + 1;
        }
        Canvas { width, height, pixels }
    }

    /// A fully transparent canvas.
    pub fn transparent(width: u32, height: u32) -> (r: Canvas)
        requires
            4 * (width as int * height as int) <= usize::MAX,
        ensures
            r.wf(),
            r.width == width,
            r.height == height,
            forall|i: int| 0 <= i < r.pixels@.len() ==> #[trigger] r.pixels@[i] == 0,
    {
        Canvas::filled(width, height, [0, 0, 0, 0])
    }

    /// Takes a raw RGBA buffer, which must hold four bytes per pixel.
    pub fn from_rgba(width: u32, height: u32, bytes: Vec<u8>) -> (r: Result<Canvas, CanvasError>)
        ensures
            r is Err <==> bytes@.len() != 4 * (width as int * height as int),
            r matches Err(e) ==> e == CanvasError::BufferSize,
            r matches Ok(c) ==> c.wf() && c.width == width && c.height == height && c.pixels@
                == bytes@,
    {
        assert(width as int * height as int <= u32::MAX as int * u32::MAX as int) by (nonlinear_arith);
        let n = width as u64 * height as u64;
        let len = bytes.len();
        if n > usize::MAX as u64 / 4 {
            Err(CanvasError::BufferSize)
        } else if len != 4 * n as usize {
            Err(CanvasError::BufferSize)
        } else {
            Ok(Canvas { width, height, pixels: bytes })
        }
    }

    /// A `width` by `height` bitmap in one colour whose alpha is the coverage
    /// `mask`, one byte per pixel.
    pub fn from_mask(mask: &Vec<u8>, width: u32, height: u32, color: [u8; 3]) -> (r: Result<
        Canvas,
        CanvasError,
    >)
        requires
            4 * (width as int * height as int) <= usize::MAX,
        ensures
            r is Err <==> mask@.len() != width as int * height as int,
            r matches Err(e) ==> e == CanvasError::BufferSize,
            r matches Ok(c) ==> c.wf() && c.width == width && c.height == height,
            r matches Ok(c) ==> forall|p: int, k: int|
                0 <= p < mask@.len() && 0 <= k < 4 ==> #[trigger] c.pixels@[4 * p + k] == (if k
                    == 3 {
                    mask@[p]
                } else {
                    color[k]
                }),
    {
        assert(width as int * height as int <= u32::MAX as int * u32::MAX as int) by (nonlinear_arith);
        let n = width as u64 * height as u64;
        let len = mask.len();
        if len as u64 != n || len > usize::MAX / 4 {
            return Err(CanvasError::BufferSize);
        }
        let mut pixels: Vec<u8> = Vec::new();
        let mut p: usize = 0;
        while p < len
            invariant
                len == mask@.len(),
                4 * len <= usize::MAX,
                p <= len,
                pixels@.len() == 4 * p,
                forall|q: int, k: int|
                    0 <= q < p && 0 <= k < 4 ==> #[trigger] pixels@[4 * q + k] == (if k == 3 {
                        mask@[q]
                    } else {
                        color[k]
                    }),
            decreases len - p,
        {
            pixels.push(color[0]);
            pixels.push(color[1]);
            pixels.push(color[2]);
            pixels.push(mask[p]);
            p = p + 1;
        }
        Ok(Canvas { width, height, pixels })
    }

    /// Takes a buffer of premultiplied pixels packed as `0xAARRGGBB`, one
    /// `u32` each.
    pub fn from_packed(width: u32, height: u32, packed: &Vec<u32>) -> (r: Result<Canvas, CanvasError>)
        requires
            4 * (width as int * height as int) <= usize::MAX,
        ensures
            r is Err <==> packed@.len() != width as int * height as int,
            r matches Err(e) ==> e == CanvasError::BufferSize,
            r matches Ok(c) ==> c.wf() && c.width == width && c.height == height && c.pixels@
                == unpacked(packed@),
    {
        assert(width as int * height as int <= u32::MAX as int * u32::MAX as int) by (nonlinear_arith);
        let n = width as u64 * height as u64;
        let len = packed.len();
        if len as u64 != n || len > usize::MAX / 4 {
            return Err(CanvasError::BufferSize);
        }
        let mut pixels: Vec<u8> = Vec::new();
        let mut p: usize = 0;
        while p < len
            invariant
                len == packed@.len(),
                4 * len <= usize::MAX,
                p <= len,
                pixels@.len() == 4 * p,
                forall|q: int, k: int|
                    0 <= q < p && 0 <= k < 4 ==> #[trigger] pixels@[4 * q + k] == argb_channel(
                        packed@[q],
                        k,
                    ),
            decreases len - p,
        {
            let c = packed[p];
            let a = (c >> 24 & 0xff) as u8;
            pixels.push(unpremultiply((c >> 16 & 0xff) as u8, a));
            pixels.push(unpremultiply((c >> 8 & 0xff) as u8, a));
            pixels.push(unpremultiply((c & 0xff) as u8, a));
            pixels.push(a);
            p = p + 1;
        }
        proof {
            assert forall|i: int| 0 <= i < pixels@.len() implies pixels@[i] == #[trigger] unpacked(
                packed@,
            )[i] by {
                assert(i == 4 * (i / 4) + i % 4);
            }
            assert(pixels@ =~= unpacked(packed@));
        }
        Ok(Canvas { width, height, pixels })
    }

    /// Lays a full-size buffer of premultiplied `0xAARRGGBB` pixels over this
    /// canvas.
    pub fn merge_packed(&mut self, packed: &Vec<u32>) -> (r: Result<(), CanvasError>)
        requires
            old(self).wf(),
        ensures
            final(self).wf(),
            final(self).width == old(self).width,
            final(self).height == old(self).height,
            r is Err <==> packed@.len() != old(self).width as int * old(self).height as int,
            r matches Err(e) ==> e == CanvasError::BufferSize && *final(self) == *old(self),
            r is Ok ==> forall|i: int|
                0 <= i < old(self).pixels@.len() ==> #[trigger] final(self).pixels@[i]
                    == overlay_byte(
                    old(self).pixels@,
                    old(self).width as int,
                    unpacked(packed@),
                    old(self).width as int,
                    old(self).height as int,
                    0,
                    0,
                    i,
                ),
    {
        // The buffer's length bounds the canvas size.
        let len = self.pixels.len();
        assert(len == 4 * (self.width as int * self.height as int));
        match Canvas::from_packed(self.width, self.height, packed) {
            Ok(layer) => {
                self.overlay(&layer, 0, 0);
                Ok(())
            },
            Err(e) => Err(e),
        }
    }

    /// Lays full-size buffers of premultiplied `0xAARRGGBB` pixels over this canvas in
    /// order, so that later layers sit on top of earlier ones. Fails, leaving
    /// the canvas as it was, where any layer has the wrong length.
    pub fn merge_layers(&mut self, layers: &Vec<Vec<u32>>) -> (r: Result<(), CanvasError>)
        requires
            old(self).wf(),
        ensures
            final(self).wf(),
            final(self).width == old(self).width,
            final(self).height == old(self).height,
            r is Err <==> exists|k: int|
                0 <= k < layers@.len() && (#[trigger] layers@[k])@.len() != old(self).width as int
                    * old(self).height as int,
            r matches Err(e) ==> e == CanvasError::BufferSize && *final(self) == *old(self),
            r is Ok ==> final(self).pixels@ == layers_merged(
                old(self).pixels@,
                old(self).width as int,
                old(self).height as int,
                layers@,
                layers@.len(),
            ),
    {
        let n = self.pixels.len() / 4;
        let mut k: usize = 0;
        while k < layers.len()
            invariant
                *self == *old(self),
                self.wf(),
                k <= layers@.len(),
                n == old(self).width as int * old(self).height as int,
                forall|j: int| 0 <= j < k ==> (#[trigger] layers@[j])@.len() == n,
            decreases layers@.len() - k,
        {
            if layers[k].len() != n {
                return Err(CanvasError::BufferSize);
            }
            k = k + 1;
        }
        let ghost start = self.pixels@;
        let mut k: usize = 0;
        while k < layers.len()
            invariant
                self.wf(),
                self.width == old(self).width,
                self.height == old(self).height,
                start == old(self).pixels@,
                k <= layers@.len(),
                n == self.width as int * self.height as int,
                forall|j: int| 0 <= j < layers@.len() ==> (#[trigger] layers@[j])@.len() == n,
                self.pixels@ == layers_merged(
                    start,
                    self.width as int,
                    self.height as int,
                    layers@,
                    k as nat,
                ),
            decreases layers@.len() - k,
        {
            let ghost before = self.pixels@;
            let merged = self.merge_packed(&layers[k]);
            proof {
                assert(merged is Ok);
                assert(self.pixels@ =~= Seq::new(
                    before.len(),
                    |i: int|
                        overlay_byte(
                            before,
                            self.width as int,
                            unpacked(layers@[k as int]@),
                            self.width as int,
                            self.height as int,
                            0,
                            0,
                            i,
                        ),
                ));
            }
            k = k + 1;
        }
        Ok(())
    }

    /// Lays `src` over this canvas with its top-left corner at `(x, y)`.
    pub fn overlay(&mut self, src: &Canvas, x: i64, y: i64)
        requires
            old(self).wf(),
            src.wf(),
        ensures
            final(self).wf(),
            final(self).width == old(self).width,
            final(self).height == old(self).height,
            final(self).pixels@.len() == old(self).pixels@.len(),
            forall|i: int|
                0 <= i < old(self).pixels@.len() ==> #[trigger] final(self).pixels@[i]
                    == overlay_byte(
                    old(self).pixels@,
                    old(self).width as int,
                    src.pixels@,
                    src.width as int,
                    src.height as int,
                    x as int,
                    y as int,
                    i,
                ),
    {
        overlay_raw(self, src, x, y);
    }
}

/// Laying a bitmap whose every pixel is fully transparent over a canvas, at
/// any position, leaves the canvas as it was.
pub proof fn lemma_transparent_overlay_keeps_canvas(dst: Canvas, src: Canvas, x: int, y: int)
    requires
        dst.wf(),
        src.wf(),
        forall|p: int|
            0 <= p < src.width as int * src.height as int ==> #[trigger] src.pixels@[4 * p + 3]
                == 0,
    ensures
        forall|i: int|
            0 <= i < dst.pixels@.len() ==> #[trigger] overlay_byte(
                dst.pixels@,
                dst.width as int,
                src.pixels@,
                src.width as int,
                src.height as int,
                x,
                y,
                i,
            ) == dst.pixels@[i],
{
    assert forall|i: int| 0 <= i < dst.pixels@.len() implies #[trigger] overlay_byte(
        dst.pixels@,
        dst.width as int,
        src.pixels@,
        src.width as int,
        src.height as int,
        x,
        y,
        i,
    ) == dst.pixels@[i] by {
        let dw = dst.width as int;
        let sw = src.width as int;
        let sh = src.height as int;
        let p = i / 4;
        let sx = p % dw - x;
        let sy = p / dw - y;
        if covered(dw, sw, sh, x, y, p) {
            let q = covering(dw, sw, x, y, p);
            assert(0 <= q < sw * sh) by (nonlinear_arith)
                requires
                    0 <= sx < sw,
                    0 <= sy < sh,
                    q == sy * sw + sx,
            ;
            assert(src.pixels@[4 * q + 3] == 0);
            assert(pixel_of(src.pixels@, q)[3] == 0);
            assert(4 * p + i % 4 == i);
        }
    }
}

/// A bitmap placed wholly outside a canvas, to any side, is clipped away and
/// leaves the canvas as it was.
pub proof fn lemma_outside_overlay_keeps_canvas(dst: Canvas, src: Canvas, x: int, y: int)
    requires
        dst.wf(),
        src.wf(),
        x >= dst.width || y >= dst.height || x + src.width <= 0 || y + src.height <= 0,
    ensures
        forall|i: int|
            0 <= i < dst.pixels@.len() ==> #[trigger] overlay_byte(
                dst.pixels@,
                dst.width as int,
                src.pixels@,
                src.width as int,
                src.height as int,
                x,
                y,
                i,
            ) == dst.pixels@[i],
{
    assert forall|i: int| 0 <= i < dst.pixels@.len() implies #[trigger] overlay_byte(
        dst.pixels@,
        dst.width as int,
        src.pixels@,
        src.width as int,
        src.height as int,
        x,
        y,
        i,
    ) == dst.pixels@[i] by {
        let dw = dst.width as int;
        let dh = dst.height as int;
        let p = i / 4;
        let n = dw * dh;
        assert(i < 4 * n);
        assert(p < n);
        assert(dw > 0) by (nonlinear_arith)
            requires
                n == dw * dh,
                0 <= p < n,
                dh >= 0,
        ;
        assert(0 <= p % dw < dw);
        assert(0 <= p / dw < dh) by (nonlinear_arith)
            requires
                0 <= p < dw * dh,
                dw > 0,
        ;
    }
}

} // verus!
