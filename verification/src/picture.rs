// A text-only picture of a receipt, for saving as PNG: each text element is
// one row of character cells 12 pixels wide and 24 high across the printable
// width, and a cell is a dark block where its character is not white space.
use crate::imaging::{encode_gray_png, gray_png_output, png_signature};
use crate::print_job::{ElementView, PrintElement};
use crate::text::{char_is_whitespace, is_whitespace};
use vstd::arithmetic::div_mod::lemma_fundamental_div_mod_converse;
use vstd::prelude::*;
use vstd::string::StrSliceExecFns;

verus! {

/// The text of each text element, in order.
pub open spec fn text_lines(es: Seq<ElementView>) -> Seq<Seq<char>>
    decreases es.len(),
{
    if es.len() == 0 {
        seq![]
    } else {
        let rest = text_lines(es.drop_last());
        match es.last() {
            ElementView::Text { content, style } => rest.push(content),
            _ => rest,
        }
    }
}

/// The rows of the picture: one per text line, and at least one.
pub open spec fn picture_rows(lines: Seq<Seq<char>>) -> nat {
    if lines.len() == 0 {
        1
    } else {
        lines.len()
    }
}

/// The grey value of pixel (`x`, `y`): black inside the dark block of a cell
/// (columns 1 to 10 and rows 4 to 19 of the cell) whose character exists
/// and is not white space, white elsewhere.
pub open spec fn picture_pixel(lines: Seq<Seq<char>>, x: int, y: int) -> u8 {
    let row = y / 24;
    let col = x / 12;
    if row < lines.len() && col < lines[row].len() && !is_whitespace(lines[row][col]) && 1 <= x
        % 12 < 11 && 4 <= y % 24 < 20 {
        0
    } else {
        255
    }
}

/// The row-major pixels of the picture, `12 * cols` pixels wide.
pub open spec fn text_picture(lines: Seq<Seq<char>>, cols: nat) -> Seq<u8> {
    let w = 12 * cols;
    Seq::new(w * (24 * picture_rows(lines)), |i: int| picture_pixel(lines, i % w as int, i / w as int))
}

/// Whether a picture of the lines, `12 * cols` pixels wide, can be made: its
/// height fits a `u32` and its pixel count a `usize`.
pub open spec fn picture_fits(lines: Seq<Seq<char>>, cols: nat) -> bool {
    &&& 24 * picture_rows(lines) <= u32::MAX
    &&& 12 * cols * (24 * picture_rows(lines)) <= usize::MAX
}

/// The PNG bytes of the picture, or none where it cannot be made or the
/// encoder failed.
pub open spec fn picture_png(lines: Seq<Seq<char>>, cols: nat) -> Seq<u8> {
    if picture_fits(lines, cols) {
        let out = gray_png_output(
            (12 * cols) as u32,
            (24 * picture_rows(lines)) as u32,
            text_picture(lines, cols),
        );
        if out.1 is None {
            out.0
        } else {
            seq![]
        }
    } else {
        seq![]
    }
}

fn chars_of(s: &str) -> (r: Vec<char>)
    ensures
        r@ == s@,
{
    let n = s.unicode_len();
    let mut r: Vec<char> = Vec::new();
    let mut i: usize = 0;
    while i < n
        invariant
            n == s@.len(),
            i <= n,
            r@ == s@.take(i as int),
        decreases n - i,
    {
        r.push(s.get_char(i));
        proof {
            assert(s@.take(i + 1) =~= s@.take(i as int).push(s@[i as int]));
        }
        i += 1;
    }
    proof {
        assert(s@.take(n as int) =~= s@);
    }
    r
}

fn text_lines_exec(es: &Vec<PrintElement>) -> (r: Vec<Vec<char>>)
    ensures
        r@.len() == text_lines(es@.map_values(|e: PrintElement| e@)).len(),
        forall|k: int|
            0 <= k < r@.len() ==> #[trigger] r@[k]@ == text_lines(
                es@.map_values(|e: PrintElement| e@),
            )[k],
{
    let ghost ev = es@.map_values(|e: PrintElement| e@);
    let mut r: Vec<Vec<char>> = Vec::new();
    let mut i: usize = 0;
    proof {
        assert(ev.take(0) =~= Seq::<ElementView>::empty());
    }
    while i < es.len()
        invariant
            ev == es@.map_values(|e: PrintElement| e@),
            i <= es@.len(),
            r@.len() == text_lines(ev.take(i as int)).len(),
            forall|k: int| 0 <= k < r@.len() ==> #[trigger] r@[k]@ == text_lines(ev.take(i as int))[k],
        decreases es@.len() - i,
    {
        proof {
            assert(ev.take(i + 1).drop_last() =~= ev.take(i as int));
            assert(ev.take(i + 1).last() == es@[i as int]@);
        }
        match &es[i] {
            PrintElement::Text { content, style } => {
                let line = chars_of(content.as_str());
                r.push(line);
            },
            _ => {},
        }
        i += 1;
    }
    proof {
        assert(ev.take(es@.len() as int) =~= ev);
    }
    r
}

proof fn lemma_pixel_index(w: nat, x: nat, y: nat, h: nat)
    requires
        x < w,
        y < h,
    ensures
        y * w + x < w * h,
        ((y * w + x) as int) % (w as int) == x,
        ((y * w + x) as int) / (w as int) == y,
{
    assert(y * w + x < w * h) by (nonlinear_arith)
        requires
            y < h,
            x < w,
    ;
    lemma_fundamental_div_mod_converse((y * w + x) as int, w as int, y as int, x as int);
}

/// Draws the picture of `lines`, `cols` cells wide.
fn draw_picture(lines: &Vec<Vec<char>>, cols: usize, h: u32) -> (px: Vec<u8>)
    requires
        1 <= cols <= 48,
        h == 24 * picture_rows(lines@.map_values(|v: Vec<char>| v@)),
        12 * cols * h <= usize::MAX,
    ensures
        px@ == text_picture(lines@.map_values(|v: Vec<char>| v@), cols as nat),
{
    let ghost ls = lines@.map_values(|v: Vec<char>| v@);
    let w: usize = 12 * cols;
    let mut px: Vec<u8> = Vec::new();
    let mut y: u32 = 0;
    while y < h
        invariant
            y <= h,
            w == 12 * cols,
            1 <= cols <= 48,
            ls == lines@.map_values(|v: Vec<char>| v@),
            h == 24 * picture_rows(ls),
            w * h <= usize::MAX,
            px@.len() == y * w,
            forall|i: int|
                0 <= i < px@.len() ==> px@[i] == picture_pixel(
                    ls,
                    i % w as int,
                    i / w as int,
                ),
        decreases h - y,
    {
        let mut x: usize = 0;
        while x < w
            invariant
                x <= w,
                y < h,
                w == 12 * cols,
                1 <= cols <= 48,
                ls == lines@.map_values(|v: Vec<char>| v@),
                h == 24 * picture_rows(ls),
                w * h <= usize::MAX,
                px@.len() == y * w + x,
                forall|i: int|
                    0 <= i < px@.len() ==> px@[i] == picture_pixel(
                        ls,
                        i % w as int,
                        i / w as int,
                    ),
            decreases w - x,
        {
            let row = (y / 24) as usize;
            let col = x / 12;
            let dark = if row < lines.len() && col < lines[row].len() {
                !char_is_whitespace(lines[row][col])
            } else {
                false
            };
            let inside = 1 <= x % 12 && x % 12 < 11 && 4 <= y % 24 && y % 24 < 20;
            let v: u8 = if dark && inside {
                0
            } else {
                255
            };
            proof {
                lemma_pixel_index(w as nat, x as nat, y as nat, h as nat);
                assert(v == picture_pixel(ls, x as int, y as int));
            }
            px.push(v);
            x += 1;
        }
        proof {
            assert((y + 1) * w == y * w + w) by (nonlinear_arith);
        }
        y += 1;
    }
    proof {
        assert(h * w == w * h) by (nonlinear_arith);
        assert(px@ =~= text_picture(ls, cols as nat));
    }
    px
}

/// The PNG of a picture of the text lines of `es`, `cols` cells wide:
/// `picture_png`, which starts with the PNG signature wherever it is not
/// empty.
pub fn picture_png_bytes(es: &Vec<PrintElement>, cols: usize) -> (r: Vec<u8>)
    requires
        1 <= cols <= 48,
    ensures
        r@ == picture_png(text_lines(es@.map_values(|e: PrintElement| e@)), cols as nat),
        r@.len() > 0 ==> r@.len() >= 8 && r@.take(8) == png_signature(),
{
    let lines = text_lines_exec(es);
    let ghost tl = text_lines(es@.map_values(|e: PrintElement| e@));
    proof {
        assert(lines@.map_values(|v: Vec<char>| v@) =~= tl);
    }
    let rows: u64 = if lines.len() == 0 {
        1
    } else {
        lines.len() as u64
    };
    if rows > 0x0AAA_AAAA {
        return Vec::new();
    }
    let h: u64 = 24 * rows;
    let w: u64 = 12 * (cols as u64);
    assert(w * h <= 576 * (24 * 0x0AAA_AAAA)) by (nonlinear_arith)
        requires
            w <= 576,
            h <= 24 * 0x0AAA_AAAA,
    ;
    if w * h > usize::MAX as u64 {
        return Vec::new();
    }
    let px = draw_picture(&lines, cols, h as u32);
    let (png, err) = encode_gray_png((12 * cols) as u32, h as u32, px);
    match err {
        None => png,
        Some(_) => Vec::new(),
    }
}

} // verus!
