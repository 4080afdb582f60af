use captcha::{centering_offset, glyph_origin, Canvas, Config};

#[test]
fn centering_rounds_toward_zero() {
    assert_eq!(centering_offset(10, 4), 3);
    assert_eq!(centering_offset(11, 4), 3);
    assert_eq!(centering_offset(4, 11), -3);
    assert_eq!(centering_offset(7, 7), 0);
}

#[test]
fn glyph_origin_recentres_rotated_box() {
    assert_eq!(glyph_origin(30, 20, 24, 14, 80), (27, 28));
    assert_eq!(glyph_origin(-5, 15, 90, 10, 80), (-7, -5));
}

#[test]
fn expand_centered_places_glyph_in_middle() {
    let glyph = Canvas::filled(2, 2, [5, 6, 7, 255]);
    let e = Canvas::expand_centered(&glyph, 4, 5);
    assert_eq!((e.width, e.height), (4, 5));
    let at = |x: u32, y: u32| e.pixels[4 * (y * 4 + x) as usize + 3];
    assert_eq!(at(1, 1), 255);
    assert_eq!(at(2, 2), 255);
    assert_eq!(at(0, 1), 0);
    assert_eq!(at(1, 3), 0);
}

#[test]
fn overlapping_glyphs_with_negative_cursor_still_place() {
    let config = Config { length: 6, width: 60, height: 80, color: [0; 3], background_color: [255; 3] };
    let mut canvas = config.blank_canvas();
    let glyph = config.glyph_bitmap(&vec![255; 12 * 14], 12, 14).unwrap();
    let mut x: i64 = -4;
    for _ in 0..6 {
        canvas.place_glyph(&glyph, x, 12);
        x += 7;
    }
    assert_eq!((canvas.width, canvas.height), (60, 80));
    let i = 4 * (40 * 60 + 3) as usize;
    assert_eq!(&canvas.pixels[i..i + 4], &[0, 0, 0, 255]);
}

#[test]
fn place_glyphs_draws_in_order_later_on_top() {
    let mut canvas = Canvas::filled(10, 4, [255, 255, 255, 255]);
    let red = Canvas::filled(4, 4, [255, 0, 0, 255]);
    let blue = Canvas::filled(4, 4, [0, 0, 255, 255]);
    canvas.place_glyphs(&vec![red, blue], &vec![1, 3], &vec![4, 4]);
    assert_eq!((canvas.width, canvas.height), (10, 4));
    let at = |x: u32| {
        let i = 4 * (2 * 10 + x) as usize;
        [canvas.pixels[i], canvas.pixels[i + 1], canvas.pixels[i + 2], canvas.pixels[i + 3]]
    };
    assert_eq!(at(0), [255, 255, 255, 255]);
    assert_eq!(at(2), [255, 0, 0, 255]);
    assert_eq!(at(4), [0, 0, 255, 255]);
    assert_eq!(at(6), [0, 0, 255, 255]);
    assert_eq!(at(7), [255, 255, 255, 255]);
}
