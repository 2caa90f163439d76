// QR code rendering: the `qrcode` crate lays out the modules, this module
// draws them with a quiet zone, and the image is returned as base64 PNG.
use crate::imaging::{base64_encode, base64_text, encode_gray_png, gray_png_output};
use crate::print_job::QrErrorCorrection;
use crate::text::concat_str;
use vstd::arithmetic::div_mod::lemma_fundamental_div_mod_converse;
use vstd::prelude::*;

verus! {

/// The number `qrcode::EcLevel` gives each error correction level.
pub open spec fn ec_level_code(ec: QrErrorCorrection) -> u8 {
    match ec {
        QrErrorCorrection::L => 0,
        QrErrorCorrection::M => 1,
        QrErrorCorrection::Q => 2,
        QrErrorCorrection::H => 3,
    }
}

/// What `qrcode::QrCode::with_error_correction_level` makes of the data at
/// the given level: the number of modules per side and the modules row by
/// row (`true` is dark), or the text of its error.
pub uninterp spec fn qr_modules(data: Seq<u8>, level: u8) -> Result<(usize, Seq<bool>), Seq<char>>;

/// `qrcode::QrCode::with_error_correction_level`, read back with `width` and
/// `to_vec`. Beside the name, what the crate's source shows of every code it
/// builds: a normal QR version from 1 to 40, so 21 to 177 modules per side,
/// and one entry per module.
#[verifier::external_body]
#[allow(deprecated)]
fn qr_encode(data: &[u8], ec: QrErrorCorrection) -> (r: Result<(usize, Vec<bool>), String>)
    ensures
        match r {
            Ok((w, m)) => qr_modules(data@, ec_level_code(ec)) == Ok::<
                (usize, Seq<bool>),
                Seq<char>,
            >((w, m@)),
            Err(e) => qr_modules(data@, ec_level_code(ec)) == Err::<(usize, Seq<bool>), Seq<char>>(
                e@,
            ),
        },
        r matches Ok((w, m)) ==> 21 <= w <= 177 && m@.len() == w * w,
{
    let level = match ec {
        QrErrorCorrection::L => ::qrcode::EcLevel::L,
        QrErrorCorrection::M => ::qrcode::EcLevel::M,
        QrErrorCorrection::Q => ::qrcode::EcLevel::Q,
        QrErrorCorrection::H => ::qrcode::EcLevel::H,
    };
    match ::qrcode::QrCode::with_error_correction_level(data, level) {
        Ok(code) => Ok((code.width(), code.to_vec())),
        Err(e) => Err(e.to_string()),
    }
}

/// Pixels per module: the requested size brought into 1..=16.
pub open spec fn module_px(module_size: u8) -> nat {
    if module_size < 1 {
        1
    } else if module_size > 16 {
        16
    } else {
        module_size as nat
    }
}

/// The grey value of pixel (`x`, `y`) of a QR image with `w` modules per side,
/// `m` pixels per module and a quiet zone of four modules: black where the
/// module under it is dark, white elsewhere.
pub open spec fn qr_pixel(dark: Seq<bool>, w: nat, m: nat, x: nat, y: nat) -> u8 {
    let quiet = 4 * m;
    if quiet <= x < quiet + w * m && quiet <= y < quiet + w * m && dark[((y - quiet) / m as int)
        * w + ((x - quiet) / m as int)] {
        0
    } else {
        255
    }
}

/// The side of a QR image in pixels.
pub open spec fn qr_side(w: nat, m: nat) -> nat {
    w * m + 8 * m
}

/// The row-major pixels of a QR image.
pub open spec fn qr_pixels(dark: Seq<bool>, w: nat, m: nat) -> Seq<u8> {
    let side = qr_side(w, m);
    Seq::new(side * side, |i: int| qr_pixel(dark, w, m, (i % side as int) as nat, (i / side as int) as nat))
}

/// The base64 PNG of a QR code for `data`, or the error text, as
/// `render_qrcode` returns them.
pub open spec fn spec_render_qrcode(data: Seq<char>, ec: QrErrorCorrection, module_size: u8) -> Result<
    Seq<char>,
    Seq<char>,
> {
    match qr_modules(vstd::utf8::encode_utf8(data), ec_level_code(ec)) {
        Err(e) => Err("QR encode error: "@ + e),
        Ok((w, dark)) => {
            let m = module_px(module_size);
            let side = qr_side(w as nat, m);
            let png = gray_png_output(side as u32, side as u32, qr_pixels(dark, w as nat, m));
            match png.1 {
                Some(e) => Err("PNG encode error: "@ + e),
                None => Ok(base64_text(png.0)),
            }
        },
    }
}

proof fn lemma_module_index(w: nat, m: nat, a: nat, b: nat)
    requires
        1 <= m,
        a < w * m,
        b < w * m,
    ensures
        (b / m) * w + (a / m) < w * w,
        a / m < w,
        b / m < w,
{
    assert(a / m < w) by (nonlinear_arith)
        requires
            1 <= m,
            a < w * m,
    ;
    assert(b / m < w) by (nonlinear_arith)
        requires
            1 <= m,
            b < w * m,
    ;
    let p = b / m;
    let q = a / m;
    assert(p * w + q < w * w) by (nonlinear_arith)
        requires
            p < w,
            q < w,
    ;
}

/// Draws the modules of a QR code (`w` per side, row by row, `true` dark) at
/// `m` pixels per module with a quiet zone of four modules: the row-major
/// grey pixels of a square image, black for dark modules, white elsewhere.
pub fn draw_qr(w: usize, dark: &Vec<bool>, m: usize) -> (px: Vec<u8>)
    requires
        w <= 177,
        dark@.len() == w * w,
        1 <= m <= 16,
    ensures
        px@ == qr_pixels(dark@, w as nat, m as nat),
        px@.len() == qr_side(w as nat, m as nat) * qr_side(w as nat, m as nat),
{
    assert(w * m <= 177 * 16) by (nonlinear_arith)
        requires
            w <= 177,
            m <= 16,
    ;
    let quiet = 4 * m;
    let inner = w * m;
    let side = inner + 2 * quiet;
    assert(side == qr_side(w as nat, m as nat)) by (nonlinear_arith)
        requires
            side == w * m + 2 * (4 * m),
    ;
    assert(side * side <= 3000 * 3000) by (nonlinear_arith)
        requires
            side == w * m + 8 * m,
            w <= 177,
            m <= 16,
    ;
    let ghost g_dark = dark@;
    let mut px: Vec<u8> = Vec::new();
    let mut y: usize = 0;
    while y < side
        invariant
            y <= side,
            side == qr_side(w as nat, m as nat),
            side * side <= 3000 * 3000,
            quiet == 4 * m,
            inner == w * m,
            1 <= m <= 16,
            w <= 177,
            dark@ == g_dark,
            dark@.len() == w * w,
            px@.len() == y * side,
            forall|i: int|
                0 <= i < px@.len() ==> px@[i] == qr_pixel(
                    g_dark,
                    w as nat,
                    m as nat,
                    (i % side as int) as nat,
                    (i / side as int) as nat,
                ),
        decreases side - y,
    {
        let mut x: usize = 0;
        while x < side
            invariant
                x <= side,
                y < side,
                side == qr_side(w as nat, m as nat),
                side * side <= 3000 * 3000,
                quiet == 4 * m,
                inner == w * m,
                1 <= m <= 16,
                w <= 177,
                dark@ == g_dark,
                dark@.len() == w * w,
                px@.len() == y * side + x,
                forall|i: int|
                    0 <= i < px@.len() ==> px@[i] == qr_pixel(
                        g_dark,
                        w as nat,
                        m as nat,
                        (i % side as int) as nat,
                        (i / side as int) as nat,
                    ),
            decreases side - x,
        {
            let in_code = quiet <= x && x < quiet + inner && quiet <= y && y < quiet + inner;
            let v: u8 = if in_code {
                let row = (y - quiet) / m;
                let col = (x - quiet) / m;
                proof {
                    lemma_module_index(w as nat, m as nat, (x - quiet) as nat, (y - quiet) as nat);
                    assert(row * w <= w * w) by (nonlinear_arith)
                        requires
                            row < w,
                    ;
                    assert(w * w <= 177 * 177) by (nonlinear_arith)
                        requires
                            w <= 177,
                    ;
                }
                if dark[row * w + col] {
                    0
                } else {
                    255
                }
            } else {
                255
            };
            proof {
                let i = y * side + x;
                assert(y * side + x < side * side) by (nonlinear_arith)
                    requires
                        y < side,
                        x < side,
                ;
                lemma_fundamental_div_mod_converse(i as int, side as int, y as int, x as int);
                assert(v == qr_pixel(g_dark, w as nat, m as nat, x as nat, y as nat));
            }
            px.push(v);
            x += 1;
        }
        proof {
            assert((y + 1) * side == y * side + side) by (nonlinear_arith);
        }
        y += 1;
    }
    proof {
        assert(px@ =~= qr_pixels(g_dark, w as nat, m as nat));
    }
    px
}

/// Render a QR code to a base64-encoded PNG string. `module_size` is the
/// number of pixels per QR module, brought into 1..=16.
pub fn render_qrcode(data: &str, ec: QrErrorCorrection, module_size: u8) -> (r: Result<
    String,
    String,
>)
    ensures
        match r {
            Ok(s) => spec_render_qrcode(data@, ec, module_size) == Ok::<Seq<char>, Seq<char>>(s@),
            Err(e) => spec_render_qrcode(data@, ec, module_size) == Err::<Seq<char>, Seq<char>>(
                e@,
            ),
        },
{
    let code = qr_encode(data.as_bytes(), ec);
    match code {
        Err(e) => Err(concat_str("QR encode error: ", e.as_str())),
        Ok((w, dark)) => {
            let m: usize = if module_size < 1 {
                1
            } else if module_size > 16 {
                16
            } else {
                module_size as usize
            };
            let px = draw_qr(w, &dark, m);
            assert(w * m <= 177 * 16) by (nonlinear_arith)
                requires
                    w <= 177,
                    m <= 16,
            ;
            let side = w * m + 8 * m;
            let (png, err) = encode_gray_png(side as u32, side as u32, px);
            match err {
                Some(e) => Err(concat_str("PNG encode error: ", e.as_str())),
                None => Ok(base64_encode(png.as_slice())),
            }
        },
    }
}

} // verus!
