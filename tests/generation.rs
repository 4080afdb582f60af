use base64::Engine;
use captcha::{
    base64_image, noise_strokes, random_rgb, rgb_from_draws, sample_text, text_from_draws, Canvas,
    CanvasError, Config, CurveStroke, LineStroke, Stroke,
};

const ALPHABET: &str = "23456789ABCDEFGHJKLMNPQRSTUVWXYZabcdefghijkmnpqrstuvwxyz";

#[test]
fn sampled_text_has_length_and_alphabet() {
    for length in [0u32, 1, 4, 6, 50] {
        let text = sample_text(length);
        assert_eq!(text.chars().count(), length as usize);
        assert!(text.chars().all(|c| ALPHABET.contains(c)), "{}", text);
    }
}

#[test]
fn sampled_text_avoids_ambiguous_characters() {
    let text = sample_text(2000);
    for c in ['0', '1', 'I', 'O', 'l', 'o'] {
        assert!(!text.contains(c));
    }
}

#[test]
fn png_round_trip_keeps_pixels() {
    let mut canvas = Canvas::filled(7, 5, [12, 34, 56, 255]);
    canvas.pixels[4 * 9] = 200;
    canvas.pixels[4 * 9 + 3] = 17;
    let bytes = canvas.encode_png().unwrap();
    let decoded = image::load_from_memory(&bytes).unwrap().to_rgba8();
    assert_eq!((decoded.width(), decoded.height()), (7, 5));
    assert_eq!(decoded.into_raw(), canvas.pixels);
}

#[test]
fn default_canvas_encodes_as_png_of_configured_size() {
    let config = Config::default();
    let text = sample_text(config.length);
    assert_eq!(text.chars().count(), 4);
    let canvas = config.blank_canvas();
    let bytes = canvas.encode_png().unwrap();
    assert_eq!(&bytes[0..8], &[0x89, b'P', b'N', b'G', 0x0d, 0x0a, 0x1a, 0x0a]);
    let decoded = image::load_from_memory(&bytes).unwrap();
    assert_eq!((decoded.width(), decoded.height()), (240, 80));
}

#[test]
fn base64_round_trip_gives_same_bytes() {
    let bytes = Config::default().blank_canvas().encode_png().unwrap();
    let text = base64_image(&bytes);
    assert_eq!(text.len(), 4 * ((bytes.len() + 2) / 3));
    let back = base64::engine::general_purpose::STANDARD.decode(text.as_bytes()).unwrap();
    assert_eq!(back, bytes);
}

#[test]
fn base64_of_known_bytes() {
    assert_eq!(base64_image(&b"Man".to_vec()), "TWFu");
    assert_eq!(base64_image(&vec![0xff, 0x00]), "/wA=");
    assert_eq!(base64_image(&vec![]), "");
}

#[test]
fn line_strokes_stay_on_canvas() {
    for _ in 0..200 {
        let s = LineStroke::random(240, 80);
        assert!(s.x1 < 240 && s.x2 < 240 && s.y1 < 80 && s.y2 < 80);
        assert_eq!(s.alpha, 255);
    }
    let tiny = LineStroke::random(1, 1);
    assert_eq!((tiny.x1, tiny.y1, tiny.x2, tiny.y2), (0, 0, 0, 0));
}

#[test]
fn curve_strokes_span_width_with_middle_control() {
    for _ in 0..200 {
        let s = CurveStroke::random(240, 80);
        assert_eq!(s.end_x, 240);
        assert!(s.start_y < 80 && s.end_y < 80 && s.control_y < 80);
        assert!(s.control_x >= 60 && s.control_x < 180);
        assert_eq!(s.alpha, 128);
    }
    let narrow = CurveStroke::random(4, 1);
    assert!(narrow.control_x >= 1 && narrow.control_x < 3);
    assert_eq!((narrow.start_y, narrow.end_y), (0, 0));
}

#[test]
fn curves_fit_canvases_narrower_than_four() {
    for (width, control) in [(1u32, 0u32), (2, 0), (3, 0)] {
        let s = CurveStroke::random(width, 2);
        assert_eq!(s.end_x, width);
        assert_eq!(s.control_x, control);
    }
}

#[test]
fn curve_from_draws_reduces_each_draw() {
    let s = CurveStroke::from_draws(240, 80, [81, 7, 130, 1000], [1, 2, 3]);
    assert_eq!((s.start_y, s.end_y, s.control_x, s.control_y), (1, 7, 70, 40));
    assert_eq!((s.end_x, s.alpha, s.color), (240, 128, [1, 2, 3]));
}

#[test]
fn line_from_draws_reduces_each_draw() {
    let s = LineStroke::from_draws(240, 80, [250, 79, 3, 160], [9, 8, 7]);
    assert_eq!((s.x1, s.y1, s.x2, s.y2), (10, 79, 3, 0));
    assert_eq!((s.alpha, s.color), (255, [9, 8, 7]));
}

#[test]
fn noise_is_five_lines_then_two_curves() {
    let strokes = noise_strokes(240, 80);
    assert_eq!(strokes.len(), 7);
    assert!(strokes[..5].iter().all(|s| matches!(s, Stroke::Line(_))));
    assert!(strokes[5..].iter().all(|s| matches!(s, Stroke::Curve(_))));
    assert_eq!(noise_strokes(1, 1).len(), 7);
}

#[test]
fn colour_from_draws() {
    assert_eq!(rgb_from_draws(0, 128, 255), [0, 128, 255]);
}

#[test]
fn text_from_draws_counts_round_the_alphabet() {
    assert_eq!(text_from_draws(&vec![0, 1, 8, 55, 56, 57, 32]), "23Az23a");
    assert_eq!(text_from_draws(&vec![]), "");
}

#[test]
fn empty_canvas_does_not_encode() {
    let canvas = Canvas::filled(0, 5, [0, 0, 0, 255]);
    assert_eq!(canvas.encode_png().err(), Some(CanvasError::Encoding));
}

#[test]
fn random_colours_vary() {
    let first = random_rgb();
    assert!((0..50).any(|_| random_rgb() != first));
}
