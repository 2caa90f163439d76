// Barcode rendering: the `rxing` crate lays out the bars, this module turns
// the bit matrix into grey pixels, and the image is returned as base64 PNG.
// Supports CODE128, CODE39, EAN13, EAN8, UPC-A, UPC-E, ITF, Codabar, Code93,
// PDF417 and QR.
use crate::imaging::{base64_encode, base64_text, encode_gray_png, gray_png_output};
use crate::print_job::BarcodeType;
use crate::text::{concat_str, hex_text, push_hex};
use vstd::arithmetic::div_mod::lemma_fundamental_div_mod_converse;
use rxing::Writer;
use vstd::prelude::*;
use vstd::string::StringExecFns;

verus! {

#[verifier::external_type_specification]
#[verifier::external_body]
pub struct ExBitMatrix(rxing::common::BitMatrix);

/// The rows of a bit matrix, top to bottom; `true` is a black module.
pub uninterp spec fn bit_matrix_rows(m: rxing::common::BitMatrix) -> Seq<Seq<bool>>;

/// What `rxing::MultiFormatWriter::encode_with_hints` makes of the data for
/// the `BarcodeFormat` named `format` at the requested 400 x 120 size with no
/// hints: the rows of the bit matrix, or the `Debug` text of its error.
pub uninterp spec fn barcode_encoding(data: Seq<char>, format: Seq<char>) -> Result<
    Seq<Seq<bool>>,
    Seq<char>,
>;

/// Every row of a matrix has the width of the first, and there is at least
/// one row and one column.
pub open spec fn is_grid(rows: Seq<Seq<bool>>) -> bool {
    &&& rows.len() >= 1
    &&& rows[0].len() >= 1
    &&& forall|i: int| 0 <= i < rows.len() ==> #[trigger] rows[i].len() == rows[0].len()
}

/// The formats whose writers in `rxing` slice the text at byte positions
/// counted in characters, and so panic on text that is not ASCII: UPC-E
/// (`convertUPCEtoUPCA` takes bytes 1 to 7) and Codabar (it takes the bytes
/// between the guard characters).
pub open spec fn format_needs_ascii(format: Seq<char>) -> bool {
    format == "upc e"@ || format == "codabar"@
}

/// `MultiFormatWriter.encode_with_hints(data, &BarcodeFormat::from(format),
/// 400, 120, &HashMap::new())`. Beside the name, what the crate's source
/// shows of a matrix it returns: `BitMatrix::new` refuses a zero width or
/// height, and every row has the matrix's width. Text that is not ASCII is
/// kept from the UPC-E and Codabar writers, which panic on it.
#[verifier::external_body]
fn encode_barcode(data: &str, format: &str) -> (r: Result<rxing::common::BitMatrix, String>)
    requires
        format_needs_ascii(format@) ==> vstd::utf8::is_ascii_chars(data@),
    ensures
        match r {
            Ok(m) => barcode_encoding(data@, format@) == Ok::<Seq<Seq<bool>>, Seq<char>>(
                bit_matrix_rows(m),
            ),
            Err(e) => barcode_encoding(data@, format@) == Err::<Seq<Seq<bool>>, Seq<char>>(e@),
        },
        r matches Ok(m) ==> is_grid(bit_matrix_rows(m)),
{
    let format = rxing::BarcodeFormat::from(format);
    let hints: rxing::EncodingHintDictionary = std::collections::HashMap::new();
    match rxing::MultiFormatWriter.encode_with_hints(data, &format, 400, 120, &hints) {
        Ok(m) => Ok(m),
        Err(e) => Err(format!("{:?}", e)),
    }
}

/// The name under which `rxing::BarcodeFormat::from` knows a barcode type.
pub open spec fn format_name(t: BarcodeType) -> Seq<char> {
    match t {
        BarcodeType::UpcA => "upc a"@,
        BarcodeType::UpcE => "upc e"@,
        BarcodeType::Ean13 => "ean 13"@,
        BarcodeType::Ean8 => "ean 8"@,
        BarcodeType::Code39 => "code 39"@,
        BarcodeType::Itf => "itf"@,
        BarcodeType::Codabar => "codabar"@,
        BarcodeType::Code93 => "code 93"@,
        BarcodeType::Code128 => "code 128"@,
        BarcodeType::Pdf417 => "pdf 417"@,
        BarcodeType::QrCode => "qrcode"@,
        BarcodeType::Unknown(_) => seq![],
    }
}

/// The rxing format of a barcode type, or an error for an unknown type.
fn btype_to_format(btype: &BarcodeType) -> (r: Result<&'static str, String>)
    ensures
        match *btype {
            BarcodeType::Unknown(n) => r matches Err(e) && e@ == "Unknown barcode type 0x"@
                + hex_text(n as nat, 2),
            _ => r matches Ok(f) && f@ == format_name(*btype),
        },
{
    match btype {
        BarcodeType::UpcA => Ok("upc a"),
        BarcodeType::UpcE => Ok("upc e"),
        BarcodeType::Ean13 => Ok("ean 13"),
        BarcodeType::Ean8 => Ok("ean 8"),
        BarcodeType::Code39 => Ok("code 39"),
        BarcodeType::Itf => Ok("itf"),
        BarcodeType::Codabar => Ok("codabar"),
        BarcodeType::Code93 => Ok("code 93"),
        BarcodeType::Code128 => Ok("code 128"),
        BarcodeType::Pdf417 => Ok("pdf 417"),
        BarcodeType::QrCode => Ok("qrcode"),
        BarcodeType::Unknown(n) => {
            let mut msg = String::from_str("Unknown barcode type 0x");
            push_hex(&mut msg, *n as u64, 2);
            Err(msg)
        },
    }
}

/// `BitMatrix::width`: the length of its rows.
#[verifier::external_body]
fn matrix_width(m: &rxing::common::BitMatrix) -> (r: u32)
    ensures
        r == bit_matrix_rows(*m)[0].len(),
{
    m.width()
}

/// `BitMatrix::height`: the number of its rows.
#[verifier::external_body]
fn matrix_height(m: &rxing::common::BitMatrix) -> (r: u32)
    ensures
        r == bit_matrix_rows(*m).len(),
{
    m.height()
}

/// `BitMatrix::get(x, y)`: whether the module in column `x` of row `y` is black.
#[verifier::external_body]
fn matrix_get(m: &rxing::common::BitMatrix, x: u32, y: u32) -> (r: bool)
    requires
        y < bit_matrix_rows(*m).len(),
        x < bit_matrix_rows(*m)[y as int].len(),
    ensures
        r == bit_matrix_rows(*m)[y as int][x as int],
{
    m.get(x, y)
}

/// The row-major grey pixels of a bit matrix `w` modules wide: black for a
/// set module, white otherwise.
pub open spec fn barcode_pixels(rows: Seq<Seq<bool>>, w: nat) -> Seq<u8> {
    Seq::new(
        rows.len() * w,
        |i: int|
            if rows[i / w as int][i % w as int] {
                0u8
            } else {
                255u8
            },
    )
}

/// The base64 PNG of a barcode, or the error text, as `render_barcode`
/// returns them. A matrix with more pixels than memory can index is reported
/// as a PNG error.
pub open spec fn spec_render_barcode(barcode_type: BarcodeType, data: Seq<char>) -> Result<
    Seq<char>,
    Seq<char>,
> {
    match barcode_type {
        BarcodeType::Unknown(n) => Err("Unknown barcode type 0x"@ + hex_text(n as nat, 2)),
        _ => if (barcode_type == BarcodeType::UpcE || barcode_type == BarcodeType::Codabar)
            && !vstd::utf8::is_ascii_chars(data) {
            Err("Barcode encode error: data must be ASCII"@)
        } else {
            match barcode_encoding(data, format_name(barcode_type)) {
            Err(e) => Err("Barcode encode error: "@ + e),
            Ok(rows) => {
                let w = rows[0].len();
                let h = rows.len();
                if w * h > usize::MAX {
                    Err("PNG encode error: image too large"@)
                } else {
                    let png = gray_png_output(w as u32, h as u32, barcode_pixels(rows, w));
                    match png.1 {
                        Some(e) => Err("PNG encode error: "@ + e),
                        None => Ok(base64_text(png.0)),
                    }
                }
            },
            }
        },
    }
}

/// Draws a barcode's bit matrix, `w` modules wide and `h` high, one pixel per
/// module: the row-major grey pixels, black for set modules, white elsewhere.
pub fn draw_matrix(m: &rxing::common::BitMatrix, w: u32, h: u32) -> (px: Vec<u8>)
    requires
        is_grid(bit_matrix_rows(*m)),
        w == bit_matrix_rows(*m)[0].len(),
        h == bit_matrix_rows(*m).len(),
        w * h <= usize::MAX,
    ensures
        px@ == barcode_pixels(bit_matrix_rows(*m), w as nat),
{
    let ghost rows = bit_matrix_rows(*m);
    let mut px: Vec<u8> = Vec::new();
    let mut y: u32 = 0;
    while y < h
        invariant
            y <= h,
            is_grid(rows),
            rows == bit_matrix_rows(*m),
            w == rows[0].len(),
            h == rows.len(),
            w * h <= usize::MAX,
            px@.len() == y * w,
            forall|i: int|
                0 <= i < px@.len() ==> px@[i] == (if rows[i / w as int][i % w as int] {
                    0u8
                } else {
                    255u8
                }),
        decreases h - y,
    {
        let mut x: u32 = 0;
        while x < w
            invariant
                x <= w,
                y < h,
                is_grid(rows),
                rows == bit_matrix_rows(*m),
                w == rows[0].len(),
                h == rows.len(),
                w * h <= usize::MAX,
                px@.len() == y * w + x,
                forall|i: int|
                    0 <= i < px@.len() ==> px@[i] == (if rows[i / w as int][i % w as int] {
                        0u8
                    } else {
                        255u8
                    }),
            decreases w - x,
        {
            proof {
                assert(rows[y as int].len() == w);
            }
            let black = matrix_get(m, x, y);
            proof {
                let i = y * w + x;
                assert(y * w + x < w * h) by (nonlinear_arith)
                    requires
                        y < h,
                        x < w,
                ;
                lemma_fundamental_div_mod_converse(i as int, w as int, y as int, x as int);
            }
            px.push(
                if black {
                    0
                } else {
                    255
                },
            );
            x += 1;
        }
        proof {
            assert((y + 1) * w == y * w + w) by (nonlinear_arith);
        }
        y += 1;
    }
    proof {
        assert(px@ =~= barcode_pixels(rows, w as nat));
    }
    px
}

/// Render a barcode to a base64-encoded PNG string. Returns the error text
/// when the data is invalid for the requested type or the type is unknown.
pub fn render_barcode(btype: &BarcodeType, data: &str) -> (r: Result<String, String>)
    ensures
        match r {
            Ok(s) => spec_render_barcode(*btype, data@) == Ok::<Seq<char>, Seq<char>>(s@),
            Err(e) => spec_render_barcode(*btype, data@) == Err::<Seq<char>, Seq<char>>(e@),
        },
{
    let format = match btype_to_format(btype) {
        Ok(f) => f,
        Err(e) => {
            return Err(e);
        },
    };
    if (*btype == BarcodeType::UpcE || *btype == BarcodeType::Codabar) && !data.is_ascii() {
        return Err(String::from_str("Barcode encode error: data must be ASCII"));
    }
    proof {
        reveal_strlit("upc a");
        reveal_strlit("upc e");
        reveal_strlit("ean 13");
        reveal_strlit("ean 8");
        reveal_strlit("code 39");
        reveal_strlit("itf");
        reveal_strlit("codabar");
        reveal_strlit("code 93");
        reveal_strlit("code 128");
        reveal_strlit("pdf 417");
        reveal_strlit("qrcode");
        match *btype {
            BarcodeType::UpcA => assert(format@[4] != "upc e"@[4]),
            BarcodeType::Ean8 => assert(format@[0] != "upc e"@[0]),
            BarcodeType::Code39 | BarcodeType::Code93 => assert(format@[3] != "codabar"@[3]),
            BarcodeType::Pdf417 => assert(format@[0] != "codabar"@[0]),
            BarcodeType::Ean13 | BarcodeType::Itf | BarcodeType::Code128 | BarcodeType::QrCode => {
                assert(format@.len() != 5 && format@.len() != 7);
            },
            _ => {},
        }
        assert(format_needs_ascii(format@) ==> (*btype == BarcodeType::UpcE || *btype
            == BarcodeType::Codabar));
    }
    let matrix = match encode_barcode(data, format) {
        Ok(m) => m,
        Err(e) => {
            return Err(concat_str("Barcode encode error: ", e.as_str()));
        },
    };
    let w = matrix_width(&matrix);
    let h = matrix_height(&matrix);
    assert((w as u64) * (h as u64) <= u64::MAX) by (nonlinear_arith)
        requires
            w <= u32::MAX,
            h <= u32::MAX,
    ;
    if (w as u64) * (h as u64) > usize::MAX as u64 {
        return Err(String::from_str("PNG encode error: image too large"));
    }
    let px = draw_matrix(&matrix, w, h);
    proof {
        assert(px@.len() == h as int * w as int);
        assert(h as int * w as int == w as int * h as int) by (nonlinear_arith);
    }
    let (png, err) = encode_gray_png(w, h, px);
    match err {
        Some(e) => Err(concat_str("PNG encode error: ", e.as_str())),
        None => Ok(base64_encode(png.as_slice())),
    }
}

} // verus!
