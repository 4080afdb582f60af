use vstd::prelude::*;
use base64::Engine;
use image::RgbaImage;
use crate::canvas::{Canvas, CanvasError};

verus! {

#[verifier::external_type_specification]
#[verifier::external_body]
pub struct ExImageError(image::ImageError);

/// The PNG file that image's encoder writes for an RGBA buffer.
pub uninterp spec fn png_of(width: u32, height: u32, pixels: Seq<u8>) -> Seq<u8>;

/// The 64 symbols of standard base64, in order of value.
pub open spec fn base64_symbols() -> Seq<char> {
    seq![
        'A', 'B', 'C', 'D', 'E', 'F', 'G', 'H', 'I', 'J', 'K', 'L', 'M',
        'N', 'O', 'P', 'Q', 'R', 'S', 'T', 'U', 'V', 'W', 'X', 'Y', 'Z',
        'a', 'b', 'c', 'd', 'e', 'f', 'g', 'h', 'i', 'j', 'k', 'l', 'm',
        'n', 'o', 'p', 'q', 'r', 's', 't', 'u', 'v', 'w', 'x', 'y', 'z',
        '0', '1', '2', '3', '4', '5', '6', '7', '8', '9', '+', '/',
    ]
}

/// Standard base64 with `=` padding: each group of three bytes, read as 24
/// bits, becomes four symbols of six bits each; a last group of one or two
/// bytes is filled with zero bits and padded to four characters.
pub open spec fn base64_of(b: Seq<u8>) -> Seq<char>
    decreases b.len(),
{
    let t = base64_symbols();
    let b0 = if b.len() > 0 { b[0] as int } else { 0 };
    let b1 = if b.len() > 1 { b[1] as int } else { 0 };
    let b2 = if b.len() > 2 { b[2] as int } else { 0 };
    if b.len() == 0 {
        seq![]
    } else if b.len() == 1 {
        seq![t[b0 / 4], t[(b0 % 4) * 16], '=', '=']
    } else if b.len() == 2 {
        seq![t[b0 / 4], t[(b0 % 4) * 16 + b1 / 16], t[(b1 % 16) * 4], '=']
    } else {
        seq![t[b0 / 4], t[(b0 % 4) * 16 + b1 / 16], t[(b1 % 16) * 4 + b2 / 64], t[b2 % 64]]
            + base64_of(b.subrange(3, b.len() as int))
    }
}

/// Base64 text has four characters for every started group of three bytes.
pub proof fn lemma_base64_length(b: Seq<u8>)
    ensures
        base64_of(b).len() == 4 * ((b.len() + 2) / 3),
    decreases b.len(),
{
    if b.len() >= 3 {
        lemma_base64_length(b.subrange(3, b.len() as int));
    }
}

/// The eight bytes every PNG file starts with.
pub open spec fn png_signature() -> Seq<u8> {
    seq![137u8, 80u8, 78u8, 71u8, 13u8, 10u8, 26u8, 10u8]
}

/// The six-bit value of a standard base64 symbol.
pub open spec fn base64_value(c: char) -> int {
    if 'A' <= c && c <= 'Z' {
        c as int - 'A' as int
    } else if 'a' <= c && c <= 'z' {
        c as int - 'a' as int + 26
    } else if '0' <= c && c <= '9' {
        c as int - '0' as int + 52
    } else if c == '+' {
        62
    } else {
        63
    }
}

/// Decoding of padded standard base64, four characters at a time.
pub open spec fn base64_decoded(s: Seq<char>) -> Seq<u8>
    decreases s.len(),
{
    if s.len() < 4 {
        seq![]
    } else {
        let v0 = base64_value(s[0]);
        let v1 = base64_value(s[1]);
        let v2 = base64_value(s[2]);
        let v3 = base64_value(s[3]);
        let group = if s[2] == '=' {
            seq![(v0 * 4 + v1 / 16) as u8]
        } else if s[3] == '=' {
            seq![(v0 * 4 + v1 / 16) as u8, ((v1 % 16) * 16 + v2 / 4) as u8]
        } else {
            seq![
                (v0 * 4 + v1 / 16) as u8,
                ((v1 % 16) * 16 + v2 / 4) as u8,
                ((v2 % 4) * 64 + v3) as u8,
            ]
        };
        group + base64_decoded(s.subrange(4, s.len() as int))
    }
}

proof fn lemma_base64_symbol(v: int)
    requires
        0 <= v < 64,
    ensures
        base64_value(base64_symbols()[v]) == v,
        base64_symbols()[v] != '=',
{
}

/// Decoding base64 text gives back the bytes it encodes.
pub proof fn lemma_base64_round_trip(b: Seq<u8>)
    ensures
        base64_decoded(base64_of(b)) == b,
    decreases b.len(),
{
    let t = base64_symbols();
    let e = base64_of(b);
    if b.len() == 0 {
        assert(base64_decoded(e) =~= b);
    } else {
        let b0 = b[0] as int;
        let b1 = if b.len() > 1 { b[1] as int } else { 0 };
        let b2 = if b.len() > 2 { b[2] as int } else { 0 };
        let i0 = b0 / 4;
        let i1 = (b0 % 4) * 16 + b1 / 16;
        let i2 = (b1 % 16) * 4 + b2 / 64;
        let i3 = b2 % 64;
        lemma_base64_symbol(i0);
        lemma_base64_symbol(i1);
        lemma_base64_symbol((b1 % 16) * 4);
        lemma_base64_symbol(i2);
        lemma_base64_symbol(i3);
        lemma_base64_symbol((b0 % 4) * 16);
        assert(i0 * 4 + i1 / 16 == b0);
        assert(((b1 % 16) * 4) / 4 == b1 % 16);
        assert((i1 % 16) * 16 + i2 / 4 == b1);
        assert((i2 % 4) * 64 + i3 == b2);
        let rest = b.subrange(3, b.len() as int);
        if b.len() >= 3 {
            lemma_base64_round_trip(rest);
            assert(e.subrange(4, e.len() as int) =~= base64_of(rest));
            assert(base64_decoded(e) =~= b);
        } else {
            assert(e.subrange(4, e.len() as int) =~= Seq::<char>::empty());
            assert(base64_decoded(e.subrange(4, e.len() as int)) =~= Seq::<u8>::empty());
            assert(base64_decoded(e) =~= b);
        }
    }
}

/// Relies on image's `ImageBuffer::write_to` with `ImageFormat::Png`, into
/// memory: png's encoder refuses only a zero width or height, and writes the
/// PNG signature first; on success the bytes are the PNG encoding of the
/// buffer.
#[verifier::external_body]
fn write_png(canvas: &Canvas) -> (r: Result<Vec<u8>, image::ImageError>)
    requires
        canvas.wf(),
    ensures
        canvas.width > 0 && canvas.height > 0 ==> r is Ok,
        r matches Ok(bytes) ==> bytes@ == png_of(canvas.width, canvas.height, canvas.pixels@),
        r matches Ok(bytes) ==> bytes@.len() >= 8 && bytes@.subrange(0, 8) == png_signature(),
{
    let img = RgbaImage::from_raw(canvas.width, canvas.height, canvas.pixels.clone()).unwrap();
    let mut buffer = std::io::Cursor::new(Vec::new());
    match img.write_to(&mut buffer, image::ImageFormat::Png) {
        Ok(()) => Ok(buffer.into_inner()),
        Err(e) => Err(e),
    }
}

/// Relies on base64's `STANDARD` engine `encode`: the standard alphabet,
/// with padding.
#[verifier::external_body]
fn standard_base64(bytes: &Vec<u8>) -> (r: String)
    ensures
        r@ == base64_of(bytes@),
{
    base64::engine::general_purpose::STANDARD.encode(bytes)
}

impl Canvas {
    /// The canvas as a PNG file; only an empty canvas fails.
    pub fn encode_png(&self) -> (r: Result<Vec<u8>, CanvasError>)
        requires
            self.wf(),
        ensures
            self.width > 0 && self.height > 0 ==> r is Ok,
            r matches Ok(bytes) ==> bytes@ == png_of(self.width, self.height, self.pixels@),
            r matches Ok(bytes) ==> bytes@.len() >= 8 && bytes@.subrange(0, 8) == png_signature(),
            r matches Err(e) ==> e == CanvasError::Encoding,
    {
        match write_png(self) {
            Ok(bytes) => Ok(bytes),
            Err(_) => Err(CanvasError::Encoding),
        }
    }
}

/// Encoded image bytes as printable base64 text.
pub fn base64_image(image: &Vec<u8>) -> (r: String)
    ensures
        r@ == base64_of(image@),
        r@.len() == 4 * ((image@.len() + 2) / 3),
        base64_decoded(r@) == image@,
{
    proof {
        lemma_base64_length(image@);
        lemma_base64_round_trip(image@);
    }
    standard_base64(image)
}

} // verus!
