// Grey-scale PNG encoding (the `image` crate) and base64 text (the `base64`
// crate), shared by the QR code, barcode and raster renderers.
use crate::print_job::opt_view;
use base64::Engine;
use vstd::prelude::*;

verus! {

/// What the `image` crate's PNG encoder writes for a grey-scale image of the
/// given size and row-major pixels: the bytes written, and the text of the
/// error it reported, if any.
pub uninterp spec fn gray_png_output(width: u32, height: u32, pixels: Seq<u8>) -> (
    Seq<u8>,
    Option<Seq<char>>,
);

/// The eight bytes every PNG file starts with.
pub open spec fn png_signature() -> Seq<u8> {
    seq![137u8, 80u8, 78u8, 71u8, 13u8, 10u8, 26u8, 10u8]
}

/// Encodes a grey-scale image as PNG: `image::GrayImage::from_raw` on the
/// pixels, then `DynamicImage::write_to` with `ImageFormat::Png` into an
/// in-memory buffer. Returns the bytes written and the error's text if the
/// encoder failed. The bytes are named, not stated: the encoder is the
/// `image` crate's. Beside the name, what the `png` crate's source shows:
/// its first write is the PNG signature, so an image written without error
/// starts with it. Whether the encoder succeeds is not stated.
#[verifier::external_body]
pub(crate) fn encode_gray_png(width: u32, height: u32, pixels: Vec<u8>) -> (r: (Vec<u8>, Option<String>))
    requires
        pixels@.len() == width as int * height as int,
    ensures
        (r.0@, opt_view(r.1)) == gray_png_output(width, height, pixels@),
        r.1 is None ==> r.0@.len() >= 8 && r.0@.take(8) == png_signature(),
{
    // `from_raw` accepts a buffer of exactly `width * height` bytes.
    let img = image::GrayImage::from_raw(width, height, pixels).unwrap();
    let mut buf: Vec<u8> = Vec::new();
    let res = image::DynamicImage::ImageLuma8(img).write_to(
        &mut std::io::Cursor::new(&mut buf),
        image::ImageFormat::Png,
    );
    let err = match res {
        Ok(()) => None,
        Err(e) => Some(e.to_string()),
    };
    (buf, err)
}

/// The base64 digit of a six-bit value: `A`-`Z`, `a`-`z`, `0`-`9`, `+`, `/`.
pub open spec fn b64_digit(v: int) -> char {
    if v < 26 {
        (65 + v) as char
    } else if v < 52 {
        (97 + v - 26) as char
    } else if v < 62 {
        (48 + v - 52) as char
    } else if v == 62 {
        '+'
    } else {
        '/'
    }
}

/// The standard base64 text of a byte sequence (RFC 4648, with padding):
/// each group of three bytes becomes four digits of six bits each; a last
/// group of one or two bytes is padded with `=`.
pub open spec fn base64_text(bytes: Seq<u8>) -> Seq<char>
    decreases bytes.len(),
{
    if bytes.len() == 0 {
        seq![]
    } else if bytes.len() == 1 {
        let a = bytes[0] as int;
        seq![b64_digit(a / 4), b64_digit((a % 4) * 16), '=', '=']
    } else if bytes.len() == 2 {
        let a = bytes[0] as int;
        let b = bytes[1] as int;
        seq![b64_digit(a / 4), b64_digit((a % 4) * 16 + b / 16), b64_digit((b % 16) * 4), '=']
    } else {
        let a = bytes[0] as int;
        let b = bytes[1] as int;
        let c = bytes[2] as int;
        seq![
            b64_digit(a / 4),
            b64_digit((a % 4) * 16 + b / 16),
            b64_digit((b % 16) * 4 + c / 64),
            b64_digit(c % 64),
        ] + base64_text(bytes.skip(3))
    }
}

/// `base64::engine::general_purpose::STANDARD.encode`: the standard alphabet
/// with padding, as the crate documents it.
#[verifier::external_body]
pub(crate) fn base64_encode(bytes: &[u8]) -> (s: String)
    ensures
        s@ == base64_text(bytes@),
{
    base64::engine::general_purpose::STANDARD.encode(bytes)
}

} // verus!
