use vstd::prelude::*;
use rand::Rng;

verus! {

/// Relies on rand's `Rng::random_range` over `low..high` with the
/// thread-local generator: a value in the range, which must not be empty.
#[verifier::external_body]
fn random_in(low: u32, high: u32) -> (r: u32)
    requires
        low < high,
    ensures
        low <= r < high,
{
    rand::rng().random_range(low..high)
}

/// The colour whose channels are three draws below 256.
pub fn rgb_from_draws(red: u32, green: u32, blue: u32) -> (r: [u8; 3])
    requires
        red < 256,
        green < 256,
        blue < 256,
    ensures
        r == [red as u8, green as u8, blue as u8],
{
    [red as u8, green as u8, blue as u8]
}

/// A colour drawn uniformly from all RGB triples.
pub fn random_rgb() -> (r: [u8; 3]) {
    let red = random_in(0, 256);
    let green = random_in(0, 256);
    let blue = random_in(0, 256);
    rgb_from_draws(red, green, blue)
}

/// A straight noise stroke from `(x1, y1)` to `(x2, y2)`.
#[derive(Debug, Clone, Copy)]
pub struct LineStroke {
    pub x1: u32,
    pub y1: u32,
    pub x2: u32,
    pub y2: u32,
    pub color: [u8; 3],
    pub alpha: u8,
}

/// A curved noise stroke across the whole width, from `(0, start_y)` to
/// `(end_x, end_y)`, whose two control points are both `(control_x, control_y)`.
#[derive(Debug, Clone, Copy)]
pub struct CurveStroke {
    pub start_y: u32,
    pub end_x: u32,
    pub end_y: u32,
    pub control_x: u32,
    pub control_y: u32,
    pub color: [u8; 3],
    pub alpha: u8,
}

/// Number of straight strokes on a challenge image.
pub const LINE_STROKES: usize = 5;

/// Number of curved strokes on a challenge image.
pub const CURVE_STROKES: usize = 2;

/// One noise stroke.
#[derive(Debug, Clone, Copy)]
pub enum Stroke {
    Line(LineStroke),
    Curve(CurveStroke),
}

/// End (exclusive) of the range of a curve's control x: three quarters of
/// the width, kept past the start of the range on a narrow canvas.
pub open spec fn control_x_end(width: u32) -> int {
    if width / 4 * 3 > width / 4 {
        width / 4 * 3
    } else {
        width / 4 + 1
    }
}

impl LineStroke {
    /// The opaque line that the draws `d` (any values) pick on a `width` by
    /// `height` canvas, each reduced into its coordinate's range.
    pub fn from_draws(width: u32, height: u32, d: [u32; 4], color: [u8; 3]) -> (r: LineStroke)
        requires
            width > 0,
            height > 0,
        ensures
            r.x1 == d[0] % width,
            r.y1 == d[1] % height,
            r.x2 == d[2] % width,
            r.y2 == d[3] % height,
            r.color == color,
            r.alpha == 255,
    {
        LineStroke {
            x1: d[0] % width,
            y1: d[1] % height,
            x2: d[2] % width,
            y2: d[3] % height,
            color,
            alpha: 255,
        }
    }

    /// An opaque line between two points drawn uniformly from a `width` by
    /// `height` canvas, in a random colour.
    pub fn random(width: u32, height: u32) -> (r: LineStroke)
        requires
            width > 0,
            height > 0,
        ensures
            r.x1 < width,
            r.y1 < height,
            r.x2 < width,
            r.y2 < height,
            r.alpha == 255,
    {
        let x1 = random_in(0, width);
        let y1 = random_in(0, height);
        let x2 = random_in(0, width);
        let y2 = random_in(0, height);
        LineStroke::from_draws(width, height, [x1, y1, x2, y2], random_rgb())
    }
}

impl CurveStroke {
    /// The half-transparent curve that the draws `d` (any values) pick on a
    /// `width` by `height` canvas: end heights, then the control point, whose
    /// x falls in the middle half of the width.
    pub fn from_draws(width: u32, height: u32, d: [u32; 4], color: [u8; 3]) -> (r: CurveStroke)
        requires
            width > 0,
            height > 0,
        ensures
            r.start_y == d[0] % height,
            r.end_y == d[1] % height,
            r.control_x == width / 4 + d[2] as int % (control_x_end(width) - width / 4),
            r.control_y == d[3] % height,
            r.end_x == width,
            r.color == color,
            r.alpha == 128,
    {
        let low = width / 4;
        let high = if width / 4 * 3 > low {
            width / 4 * 3
        } else {
            low + 1
        };
        CurveStroke {
            start_y: d[0] % height,
            end_x: width,
            end_y: d[1] % height,
            control_x: low + d[2] % (high - low),
            control_y: d[3] % height,
            color,
            alpha: 128,
        }
    }

    /// A half-transparent curve from the left edge to the right edge of a
    /// `width` by `height` canvas, bulging toward a control point in the
    /// middle half of the width, in a random colour.
    pub fn random(width: u32, height: u32) -> (r: CurveStroke)
        requires
            width > 0,
            height > 0,
        ensures
            r.start_y < height,
            r.end_x == width,
            r.end_y < height,
            width / 4 <= r.control_x < control_x_end(width),
            r.control_y < height,
            r.alpha == 128,
    {
        let low = width / 4;
        let high = if width / 4 * 3 > low {
            width / 4 * 3
        } else {
            low + 1
        };
        let start_y = random_in(0, height);
        let end_y = random_in(0, height);
        let control_x = random_in(low, high);
        let control_y = random_in(0, height);
        CurveStroke::from_draws(width, height, [start_y, end_y, control_x - low, control_y], random_rgb())
    }
}

/// The noise for a `width` by `height` canvas, in drawing order: the
/// straight strokes first, then the curves.
pub fn noise_strokes(width: u32, height: u32) -> (r: Vec<Stroke>)
    requires
        width > 0,
        height > 0,
    ensures
        r@.len() == LINE_STROKES + CURVE_STROKES,
        forall|k: int| 0 <= k < LINE_STROKES ==> (#[trigger] r@[k]) is Line,
        forall|k: int| LINE_STROKES <= k < r@.len() ==> (#[trigger] r@[k]) is Curve,
{
    let mut r: Vec<Stroke> = Vec::new();
    let mut k: usize = 0;
    while k < LINE_STROKES
        invariant
            k <= LINE_STROKES,
            width > 0,
            height > 0,
            r@.len() == k,
            forall|j: int| 0 <= j < k ==> (#[trigger] r@[j]) is Line,
        decreases LINE_STROKES - k,
    {
        r.push(Stroke::Line(LineStroke::random(width, height)));
        k = k + 1;
    }
    let mut k: usize = 0;
    while k < CURVE_STROKES
        invariant
            k <= CURVE_STROKES,
            width > 0,
            height > 0,
            r@.len() == LINE_STROKES + k,
            forall|j: int| 0 <= j < LINE_STROKES ==> (#[trigger] r@[j]) is Line,
            forall|j: int| LINE_STROKES <= j < r@.len() ==> (#[trigger] r@[j]) is Curve,
        decreases CURVE_STROKES - k,
    {
        r.push(Stroke::Curve(CurveStroke::random(width, height)));
        k = k + 1;
    }
    r
}

} // verus!
