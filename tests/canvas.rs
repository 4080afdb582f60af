use captcha::{Canvas, CanvasError, Config};

fn pixel(c: &Canvas, x: u32, y: u32) -> [u8; 4] {
    let i = 4 * (y * c.width + x) as usize;
    [c.pixels[i], c.pixels[i + 1], c.pixels[i + 2], c.pixels[i + 3]]
}

#[test]
fn default_config_values() {
    let c = Config::default();
    assert_eq!(c.length, 4);
    assert_eq!(c.width, 240);
    assert_eq!(c.height, 80);
    assert_eq!(c.color, [0, 0, 0]);
    assert_eq!(c.background_color, [255, 255, 255]);
}

#[test]
fn font_size_is_width_share_or_height() {
    assert_eq!(Config::default().font_size(), 60);
    let tall = Config { length: 6, width: 60, height: 80, color: [0; 3], background_color: [255; 3] };
    assert_eq!(tall.font_size(), 10);
    let flat = Config { length: 2, width: 300, height: 40, color: [0; 3], background_color: [255; 3] };
    assert_eq!(flat.font_size(), 40);
}

#[test]
fn blank_canvas_is_opaque_background() {
    let c = Config { length: 4, width: 5, height: 3, color: [0; 3], background_color: [10, 20, 30] };
    let canvas = c.blank_canvas();
    assert_eq!((canvas.width, canvas.height), (5, 3));
    assert_eq!(canvas.pixels.len(), 60);
    for y in 0..3 {
        for x in 0..5 {
            assert_eq!(pixel(&canvas, x, y), [10, 20, 30, 255]);
        }
    }
}

#[test]
fn glyph_bitmap_uses_mask_as_alpha() {
    let c = Config { length: 4, width: 240, height: 80, color: [1, 2, 3], background_color: [255; 3] };
    let g = c.glyph_bitmap(&vec![0, 128, 255, 7, 9, 11], 3, 2).unwrap();
    assert_eq!((g.width, g.height), (3, 2));
    assert_eq!(pixel(&g, 1, 0), [1, 2, 3, 128]);
    assert_eq!(pixel(&g, 2, 1), [1, 2, 3, 11]);
}

#[test]
fn glyph_bitmap_rejects_wrong_mask_length() {
    let c = Config::default();
    assert_eq!(c.glyph_bitmap(&vec![0; 5], 3, 2).err(), Some(CanvasError::BufferSize));
}

#[test]
fn from_rgba_checks_length() {
    assert!(Canvas::from_rgba(2, 2, vec![0; 16]).is_ok());
    assert_eq!(Canvas::from_rgba(2, 2, vec![0; 15]).err(), Some(CanvasError::BufferSize));
}

#[test]
fn from_packed_reorders_and_unpremultiplies_channels() {
    let c = Canvas::from_packed(3, 1, &vec![0x80112233, 0xff000000, 0xff0a0b0c]).unwrap();
    assert_eq!(c.pixels, vec![34, 68, 102, 0x80, 0, 0, 0, 0xff, 0x0a, 0x0b, 0x0c, 0xff]);
    assert_eq!(Canvas::from_packed(2, 2, &vec![0; 3]).err(), Some(CanvasError::BufferSize));
}

#[test]
fn transparent_overlay_changes_nothing() {
    let mut dst = Canvas::filled(6, 4, [9, 8, 7, 255]);
    dst.pixels[5] = 77;
    let before = dst.pixels.clone();
    let src = Canvas::from_mask(&vec![0; 9], 3, 3, [200, 100, 50]).unwrap();
    for &(x, y) in &[(0i64, 0i64), (-2, -1), (4, 3), (5, -2), (100, 100), (-100, 2)] {
        dst.overlay(&src, x, y);
        assert_eq!(dst.pixels, before);
    }
}

#[test]
fn opaque_overlay_copies_and_clips() {
    let mut dst = Canvas::filled(4, 3, [0, 0, 0, 255]);
    let src = Canvas::filled(2, 2, [255, 0, 0, 255]);
    dst.overlay(&src, -1, 2);
    assert_eq!((dst.width, dst.height), (4, 3));
    assert_eq!(pixel(&dst, 0, 2), [255, 0, 0, 255]);
    assert_eq!(pixel(&dst, 1, 2), [0, 0, 0, 255]);
    assert_eq!(pixel(&dst, 0, 1), [0, 0, 0, 255]);
}

#[test]
fn half_transparent_overlay_blends() {
    let mut dst = Canvas::filled(1, 1, [0, 0, 0, 255]);
    let src = Canvas::filled(1, 1, [255, 255, 255, 128]);
    dst.overlay(&src, 0, 0);
    let p = pixel(&dst, 0, 0);
    assert!(p[0] > 100 && p[0] < 160, "{:?}", p);
    assert!(p[3] >= 254);
}

#[test]
fn merge_packed_lays_stroke_layer_over_canvas() {
    let mut dst = Canvas::filled(2, 1, [1, 1, 1, 255]);
    dst.merge_packed(&vec![0x00000000, 0xff0a0b0c]).unwrap();
    assert_eq!(dst.pixels, vec![1, 1, 1, 255, 0x0a, 0x0b, 0x0c, 255]);
    assert_eq!(dst.merge_packed(&vec![0; 3]).err(), Some(CanvasError::BufferSize));
    assert_eq!(dst.pixels, vec![1, 1, 1, 255, 0x0a, 0x0b, 0x0c, 255]);
}

#[test]
fn overlay_wholly_outside_is_clipped_away() {
    let mut dst = Canvas::filled(4, 3, [3, 4, 5, 255]);
    let before = dst.pixels.clone();
    let src = Canvas::filled(2, 2, [255, 0, 0, 255]);
    for &(x, y) in &[(4i64, 0i64), (0, 3), (-2, 1), (1, -2), (i64::MAX, i64::MIN)] {
        dst.overlay(&src, x, y);
        assert_eq!(dst.pixels, before);
    }
}

#[test]
fn merge_layers_stacks_later_layers_on_top() {
    let mut dst = Canvas::filled(2, 1, [0, 0, 0, 255]);
    let first = vec![0xff110000, 0xff220000];
    let second = vec![0x00000000, 0xff003300];
    dst.merge_layers(&vec![first, second]).unwrap();
    assert_eq!(dst.pixels, vec![0x11, 0, 0, 255, 0, 0x33, 0, 255]);
}

#[test]
fn merge_layers_rejects_a_short_layer_and_keeps_canvas() {
    let mut dst = Canvas::filled(2, 1, [0, 0, 0, 255]);
    let before = dst.pixels.clone();
    let r = dst.merge_layers(&vec![vec![0xffffffff, 0xffffffff], vec![0]]);
    assert_eq!(r.err(), Some(CanvasError::BufferSize));
    assert_eq!(dst.pixels, before);
}

#[test]
fn half_transparent_stroke_keeps_its_colour() {
    let mut dst = Canvas::filled(1, 1, [255, 255, 255, 255]);
    dst.merge_packed(&vec![0x80800000]).unwrap();
    let p = &dst.pixels;
    assert!(p[0] >= 254, "{:?}", p);
    assert!(p[1] > 120 && p[1] < 135, "{:?}", p);
}
