//! Generation of text-challenge images: random unambiguous text, glyph
//! placement, alpha compositing onto an RGBA canvas, noise strokes and
//! encoding of the result.

mod canvas;
mod charset;
mod config;
mod encode;
mod layout;
mod noise;

pub use canvas::{
    argb_channel, blend_of, blended, covered, covering, layers_merged, lemma_outside_overlay_keeps_canvas,
    lemma_transparent_overlay_keeps_canvas, overlay_byte, pixel_of, unpacked, unpremultiplied, Canvas,
    CanvasError,
};
pub use charset::{alphabet, is_symbol, sample_text, text_from_draws, SYMBOL_COUNT};
pub use config::Config;
pub use encode::{
    base64_decoded, base64_image, base64_of, base64_symbols, base64_value, lemma_base64_length,
    lemma_base64_round_trip, png_of, png_signature,
};
pub use layout::{centering_offset, glyph_origin, glyphs_placed, half_toward_zero, overlaid};
pub use noise::{
    control_x_end, noise_strokes, random_rgb, rgb_from_draws, CurveStroke, LineStroke, Stroke,
    CURVE_STROKES, LINE_STROKES,
};
