// Turns a PrintJob into an HTML page showing an 80mm (or 58mm) thermal
// receipt. A pure transformation: no I/O. Barcodes, QR codes and raster
// images are embedded as base64 data URIs. One printer dot is drawn as half
// a CSS pixel.
use crate::imaging::png_signature;
use crate::picture::{picture_png, picture_png_bytes, text_lines};
use crate::print_job::{opt_view, ElementView, HriPosition, JobView, PrintElement, PrintJob, Timestamp};
use crate::printer_state::{printable_dots, Alignment, Font, PaperWidth, TextStyle};
use crate::text::{dec_text, push_char, push_dec, push_radix, radix_text};
use vstd::prelude::*;
use vstd::string::{StrSliceExecFns, StringExecFns};
use vstd::utf8::encode_scalar;

verus! {

pub const PAGE_HEAD: &'static str = "<!DOCTYPE html>
<html>
<head>
<meta charset=\"UTF-8\"/>
<style>
* { box-sizing: border-box; margin: 0; padding: 0; }
body { background: #1a1a1a; display: flex; flex-direction: column; align-items: center; padding: 16px; font-family: 'Courier New', monospace; }
.receipt-wrapper { background: #fff; width: ";

pub const PAGE_STYLE: &'static str = "px; padding: 8px 12px; border-radius: 4px; box-shadow: 0 4px 24px rgba(0,0,0,0.6); }
.receipt-meta { font-size: 9px; color: #999; text-align: center; padding: 2px 0 6px 0; border-bottom: 1px dashed #ddd; margin-bottom: 4px; }
.receipt-line { min-height: 1em; line-height: 1.3; padding: 0; }
.receipt-feed { height: 6px; }
.receipt-cut { text-align: center; font-size: 10px; color: #888; margin: 8px 0; letter-spacing: 2px; }
.receipt-cut.full span { color: #555; }
.receipt-cut.partial span { color: #888; font-style: italic; }
.receipt-barcode { text-align: center; margin: 6px 0; }
.barcode-hri { font-size: 10px; text-align: center; letter-spacing: 2px; margin-top: 2px; }
.barcode-fallback { font-size: 10px; color: #888; border: 1px dashed #ccc; padding: 4px; text-align: center; }
.receipt-qr { text-align: center; margin: 6px 0; }
.qr-fallback { font-size: 10px; color: #888; border: 1px dashed #ccc; padding: 4px; text-align: center; }
.receipt-image { text-align: center; margin: 6px 0; }
.receipt-rule hr { border: none; border-top: 1px solid #333; }
</style>
</head>
<body>
<div class=\"receipt-wrapper\">
<div class=\"receipt-meta\">";

pub const PAGE_TAIL: &'static str = "
</div>
</body>
</html>";

pub const FULL_CUT_LABEL: &'static str = "\u{2501}\u{2501}\u{2501}\u{2501}\u{2501}\u{2501}\u{2501}\u{2501}\u{2501}\u{2501} CUT \u{2501}\u{2501}\u{2501}\u{2501}\u{2501}\u{2501}\u{2501}\u{2501}\u{2501}\u{2501}";

pub const PARTIAL_CUT_LABEL: &'static str = "\u{2014} \u{2014} \u{2014} \u{2014} \u{2014} CUT \u{2014} \u{2014} \u{2014} \u{2014} \u{2014}";

pub struct ReceiptRenderer;

// ── HTML escaping ───────────────────────────────────────────────────────────

/// The HTML text of one character: `& < > " '` become entities.
pub open spec fn escape_char(c: char) -> Seq<char> {
    if c == '&' {
        "&amp;"@
    } else if c == '<' {
        "&lt;"@
    } else if c == '>' {
        "&gt;"@
    } else if c == '"' {
        "&quot;"@
    } else if c == '\'' {
        "&#39;"@
    } else {
        seq![c]
    }
}

/// `s` with HTML special characters replaced by entities.
pub open spec fn html_escaped(s: Seq<char>) -> Seq<char>
    decreases s.len(),
{
    if s.len() == 0 {
        seq![]
    } else {
        html_escaped(s.drop_last()) + escape_char(s.last())
    }
}

/// A character that HTML gives a meaning in text or attributes.
pub open spec fn is_markup_char(c: char) -> bool {
    c == '&' || c == '<' || c == '>' || c == '"' || c == '\''
}

/// Escaped text holds no `<`, `>`, `"` or `'`: whatever it is built from, it
/// can open no tag and close no attribute.
pub proof fn law_escaped_has_no_markup(s: Seq<char>)
    ensures
        forall|i: int|
            0 <= i < html_escaped(s).len() ==> {
                let c = #[trigger] html_escaped(s)[i];
                c != '<' && c != '>' && c != '"' && c != '\''
            },
    decreases s.len(),
{
    if s.len() > 0 {
        law_escaped_has_no_markup(s.drop_last());
        reveal_strlit("&amp;");
        reveal_strlit("&lt;");
        reveal_strlit("&gt;");
        reveal_strlit("&quot;");
        reveal_strlit("&#39;");
        let p = html_escaped(s.drop_last());
        let e = escape_char(s.last());
        assert forall|i: int| 0 <= i < html_escaped(s).len() implies {
            let c = #[trigger] html_escaped(s)[i];
            c != '<' && c != '>' && c != '"' && c != '\''
        } by {
            if i < p.len() {
                assert(html_escaped(s)[i] == p[i]);
            } else {
                assert(html_escaped(s)[i] == e[i - p.len()]);
            }
        }
    }
}

/// Text without markup characters is written as it is.
pub proof fn law_plain_text_unchanged(s: Seq<char>)
    requires
        forall|i: int| 0 <= i < s.len() ==> !is_markup_char(#[trigger] s[i]),
    ensures
        html_escaped(s) == s,
    decreases s.len(),
{
    if s.len() > 0 {
        law_plain_text_unchanged(s.drop_last());
        assert(!is_markup_char(s[s.len() - 1]));
        assert(html_escaped(s) =~= s);
    }
}


/// Escaped text read back: the entities `&amp;`, `&lt;`, `&gt;`, `&quot;`
/// and `&#39;` become the characters they stand for, every other character
/// stays.
pub open spec fn html_unescaped(t: Seq<char>) -> Seq<char>
    decreases t.len(),
{
    if t.len() == 0 {
        seq![]
    } else if t.len() >= 5 && t[0] == '&' && t[1] == 'a' && t[2] == 'm' && t[3] == 'p' && t[4]
        == ';' {
        seq!['&'] + html_unescaped(t.skip(5))
    } else if t.len() >= 4 && t[0] == '&' && t[1] == 'l' && t[2] == 't' && t[3] == ';' {
        seq!['<'] + html_unescaped(t.skip(4))
    } else if t.len() >= 4 && t[0] == '&' && t[1] == 'g' && t[2] == 't' && t[3] == ';' {
        seq!['>'] + html_unescaped(t.skip(4))
    } else if t.len() >= 6 && t[0] == '&' && t[1] == 'q' && t[2] == 'u' && t[3] == 'o' && t[4]
        == 't' && t[5] == ';' {
        seq!['"'] + html_unescaped(t.skip(6))
    } else if t.len() >= 5 && t[0] == '&' && t[1] == '#' && t[2] == '3' && t[3] == '9' && t[4]
        == ';' {
        seq!['\''] + html_unescaped(t.skip(5))
    } else {
        seq![t[0]] + html_unescaped(t.skip(1))
    }
}

proof fn lemma_escaped_concat(a: Seq<char>, b: Seq<char>)
    ensures
        html_escaped(a + b) == html_escaped(a) + html_escaped(b),
    decreases b.len(),
{
    if b.len() == 0 {
        assert(a + b =~= a);
        assert(html_escaped(a) + html_escaped(b) =~= html_escaped(a));
    } else {
        lemma_escaped_concat(a, b.drop_last());
        assert((a + b).drop_last() =~= a + b.drop_last());
        assert((a + b).last() == b.last());
        assert(html_escaped(a + b) =~= html_escaped(a) + html_escaped(b));
    }
}

proof fn lemma_unescape_entity(c: char, rest: Seq<char>)
    ensures
        html_unescaped(escape_char(c) + rest) == seq![c] + html_unescaped(rest),
{
    reveal_strlit("&amp;");
    reveal_strlit("&lt;");
    reveal_strlit("&gt;");
    reveal_strlit("&quot;");
    reveal_strlit("&#39;");
    let t = escape_char(c) + rest;
    let n = escape_char(c).len() as int;
    assert(t.skip(n) =~= rest);
    if c != '&' && c != '<' && c != '>' && c != '"' && c != '\'' {
        assert(t[0] == c);
    }
}

/// Escaping loses nothing: reading escaped text back gives the text.
pub proof fn law_escape_round_trip(s: Seq<char>)
    ensures
        html_unescaped(html_escaped(s)) == s,
    decreases s.len(),
{
    if s.len() > 0 {
        let c = s[0];
        let rest = s.drop_first();
        assert(seq![c] + rest =~= s);
        lemma_escaped_concat(seq![c], rest);
        assert(seq![c].drop_last() =~= Seq::<char>::empty());
        assert(html_escaped(Seq::<char>::empty()) =~= Seq::<char>::empty());
        assert(seq![c].last() == c);
        assert(html_escaped(seq![c]) == html_escaped(seq![c].drop_last()) + escape_char(c));
        assert(html_escaped(seq![c]) =~= escape_char(c));
        lemma_unescape_entity(c, html_escaped(rest));
        law_escape_round_trip(rest);
        assert(seq![c] + rest =~= s);
    }
}

/// Appends `s` with HTML special characters escaped.
fn push_escaped(out: &mut String, s: &str)
    ensures
        final(out)@ == old(out)@ + html_escaped(s@),
{
    let n = s.unicode_len();
    let ghost start = out@;
    let mut i: usize = 0;
    proof {
        assert(s@.take(0) =~= Seq::<char>::empty());
    }
    while i < n
        invariant
            n == s@.len(),
            i <= n,
            out@ == start + html_escaped(s@.take(i as int)),
        decreases n - i,
    {
        let c = s.get_char(i);
        if c == '&' {
            out.append("&amp;");
        } else if c == '<' {
            out.append("&lt;");
        } else if c == '>' {
            out.append("&gt;");
        } else if c == '"' {
            out.append("&quot;");
        } else if c == '\'' {
            out.append("&#39;");
        } else {
            push_char(out, c);
        }
        proof {
            assert(s@.take(i + 1).drop_last() =~= s@.take(i as int));
            assert(out@ =~= start + html_escaped(s@.take(i + 1)));
        }
        i += 1;
    }
    proof {
        assert(s@.take(n as int) =~= s@);
    }
}

/// Escape HTML special characters.
pub fn html_escape(s: &str) -> (r: String)
    ensures
        r@ == html_escaped(s@),
{
    let mut r = String::new();
    push_escaped(&mut r, s);
    proof {
        assert(r@ =~= html_escaped(s@));
    }
    r
}

// ── Elements ────────────────────────────────────────────────────────────────

pub open spec fn align_css(a: Alignment) -> Seq<char> {
    match a {
        Alignment::Left => "left"@,
        Alignment::Center => "center"@,
        Alignment::Right => "right"@,
    }
}

/// The CSS font size of a style in pixels: 12 (font A) or 10 (font B) times
/// the height multiplier.
pub open spec fn font_size_px(style: TextStyle) -> nat {
    let base: nat = match style.font {
        Font::A => 12,
        Font::B => 10,
    };
    base * style.char_height_multiplier as nat
}

/// Font, size and alignment of a text line.
pub open spec fn base_css(style: TextStyle) -> Seq<char> {
    "font-family:'Courier New', Courier, monospace; font-size:"@ + dec_text(font_size_px(style))
        + "px; text-align:"@ + align_css(style.alignment)
        + "; display:block; white-space:pre-wrap; word-break:break-all; "@
}

/// Extra letter spacing for wide characters: 4px per step above normal width.
pub open spec fn spacing_css(style: TextStyle) -> Seq<char> {
    if style.char_width_multiplier > 1 {
        "letter-spacing: "@ + dec_text(((style.char_width_multiplier - 1) * 4) as nat) + "px;"@
    } else {
        seq![]
    }
}

pub open spec fn bold_css(style: TextStyle) -> Seq<char> {
    if style.bold {
        " font-weight:bold;"@
    } else {
        seq![]
    }
}

pub open spec fn underline_css(style: TextStyle) -> Seq<char> {
    if style.underline > 0 {
        " text-decoration:underline;"@
    } else {
        seq![]
    }
}

pub open spec fn inverse_css(style: TextStyle) -> Seq<char> {
    if style.inverse {
        " background:#000; color:#fff;"@
    } else {
        seq![]
    }
}

/// The CSS of a text line.
pub open spec fn span_style(style: TextStyle) -> Seq<char> {
    base_css(style) + spacing_css(style) + bold_css(style) + underline_css(style) + inverse_css(
        style,
    )
}

/// `n` copies of `s`.
pub open spec fn repeat(s: Seq<char>, n: nat) -> Seq<char>
    decreases n,
{
    if n == 0 {
        seq![]
    } else {
        repeat(s, (n - 1) as nat) + s
    }
}

/// The block a fed line is drawn as.
pub open spec fn feed_block() -> Seq<char> {
    "<div class=\"receipt-feed\"></div>"@
}

/// A feed of `n` lines is drawn as exactly `n` feed blocks, one after the
/// other, and nothing else.
pub proof fn law_line_feed_blocks(n: u32)
    ensures
        element_html(ElementView::LineFeed { lines: n }).len() == n * feed_block().len(),
        forall|k: int|
            0 <= k < n ==> #[trigger] element_html(ElementView::LineFeed { lines: n }).subrange(
                k * feed_block().len(),
                (k + 1) * feed_block().len(),
            ) == feed_block(),
{
    lemma_repeat_blocks(feed_block(), n as nat);
}

proof fn lemma_repeat_blocks(b: Seq<char>, n: nat)
    ensures
        repeat(b, n).len() == n * b.len(),
        forall|k: int|
            0 <= k < n ==> #[trigger] repeat(b, n).subrange(k * b.len(), (k + 1) * b.len()) == b,
    decreases n,
{
    if n > 0 {
        let m = (n - 1) as nat;
        lemma_repeat_blocks(b, m);
        assert(repeat(b, n).len() == n * b.len()) by (nonlinear_arith)
            requires
                repeat(b, n).len() == repeat(b, m).len() + b.len(),
                repeat(b, m).len() == m * b.len(),
                n == m + 1,
        ;
        assert forall|k: int| 0 <= k < n implies #[trigger] repeat(b, n).subrange(
            k * b.len(),
            (k + 1) * b.len(),
        ) == b by {
            let p = repeat(b, m);
            assert((k + 1) * b.len() == k * b.len() + b.len()) by (nonlinear_arith);
            if k < m {
                assert((k + 1) * b.len() <= m * b.len()) by (nonlinear_arith)
                    requires
                        k + 1 <= m,
                ;
                assert(0 <= k * b.len()) by (nonlinear_arith)
                    requires
                        0 <= k,
                ;
                assert(repeat(b, n).subrange(k * b.len(), (k + 1) * b.len()) =~= p.subrange(
                    k * b.len(),
                    (k + 1) * b.len(),
                ));
            } else {
                assert(k * b.len() == m * b.len());
                assert(repeat(b, n).subrange(k * b.len(), (k + 1) * b.len()) =~= b);
            }
        }
    } else {
        assert(n * b.len() == 0) by (nonlinear_arith)
            requires
                n == 0,
        ;
    }
}

/// The HTML of a barcode: its image, or its text where it has none, then
/// its human-readable line where that is printed below.
pub open spec fn barcode_html(
    data: Seq<char>,
    hri: HriPosition,
    height_dots: u8,
    png_b64: Option<Seq<char>>,
) -> Seq<char> {
    "<div class=\"receipt-barcode\">"@ + (match png_b64 {
        Some(b64) => "<img src=\"data:image/png;base64,"@ + b64 + "\" style=\"max-width:100%; height:"@
            + dec_text((height_dots / 2) as nat)
            + "px; display:block; margin:4px auto;\" alt=\"barcode\"/>"@,
        None => "<div class=\"barcode-fallback\">[Barcode: "@ + html_escaped(data) + "]</div>"@,
    }) + (if hri == HriPosition::Below || hri == HriPosition::Both {
        "<div class=\"barcode-hri\">"@ + html_escaped(data) + "</div>"@
    } else {
        seq![]
    }) + "</div>"@
}

/// The human-readable line printed with a barcode: its data, escaped.
pub open spec fn hri_line(data: Seq<char>) -> Seq<char> {
    "<div class=\"barcode-hri\">"@ + html_escaped(data) + "</div>"@
}

/// The HTML of a barcode element with the given HRI position.
pub open spec fn barcode_block(
    t: crate::print_job::BarcodeType,
    data: Seq<char>,
    hri: HriPosition,
    height_dots: u8,
    png_b64: Option<Seq<char>>,
) -> Seq<char> {
    element_html(ElementView::Barcode { barcode_type: t, data, hri, height_dots, png_b64 })
}

/// Where a barcode's text goes: with the HRI position below or both, the
/// barcode's block is its block without text, with the text line put in
/// before the block's closing `</div>`; with the position above (which the
/// preview does not draw) it is the block without text.
pub proof fn law_barcode_hri_line(
    t: crate::print_job::BarcodeType,
    data: Seq<char>,
    height_dots: u8,
    png_b64: Option<Seq<char>>,
)
    ensures
        ({
            let plain = barcode_block(t, data, HriPosition::Hidden, height_dots, png_b64);
            let n = plain.len() as int;
            &&& n >= 6
            &&& plain.subrange(n - 6, n) == "</div>"@
            &&& barcode_block(t, data, HriPosition::Above, height_dots, png_b64) == plain
            &&& barcode_block(t, data, HriPosition::Below, height_dots, png_b64)
                == plain.subrange(0, n - 6) + hri_line(data) + "</div>"@
            &&& barcode_block(t, data, HriPosition::Both, height_dots, png_b64)
                == plain.subrange(0, n - 6) + hri_line(data) + "</div>"@
        }),
{
    reveal_strlit("</div>");
    let plain = barcode_block(t, data, HriPosition::Hidden, height_dots, png_b64);
    let head = "<div class=\"receipt-barcode\">"@ + (match png_b64 {
        Some(b64) => "<img src=\"data:image/png;base64,"@ + b64 + "\" style=\"max-width:100%; height:"@
            + dec_text((height_dots / 2) as nat)
            + "px; display:block; margin:4px auto;\" alt=\"barcode\"/>"@,
        None => "<div class=\"barcode-fallback\">[Barcode: "@ + html_escaped(data) + "]</div>"@,
    });
    assert(plain =~= head + Seq::<char>::empty() + "</div>"@);
    let n = plain.len() as int;
    assert(plain.subrange(0, n - 6) =~= head);
    assert(plain.subrange(n - 6, n) =~= "</div>"@);
    assert(barcode_block(t, data, HriPosition::Below, height_dots, png_b64) =~= head + hri_line(
        data,
    ) + "</div>"@);
    assert(barcode_block(t, data, HriPosition::Both, height_dots, png_b64) =~= head + hri_line(
        data,
    ) + "</div>"@);
    assert(barcode_block(t, data, HriPosition::Above, height_dots, png_b64) =~= plain);
}

/// The HTML of a QR code: its image, or its text where it has none.
pub open spec fn qr_html(data: Seq<char>, png_b64: Option<Seq<char>>) -> Seq<char> {
    "<div class=\"receipt-qr\">"@ + (match png_b64 {
        Some(b64) => "<img src=\"data:image/png;base64,"@ + b64
            + "\" style=\"max-width:180px; display:block; margin:4px auto;\" alt=\"qr code\"/>"@,
        None => "<div class=\"qr-fallback\">[QR: "@ + html_escaped(data) + "]</div>"@,
    }) + "</div>"@
}

/// The HTML of one element.
pub open spec fn element_html(e: ElementView) -> Seq<char> {
    match e {
        ElementView::Text { content, style } => "<div class=\"receipt-line\" style=\""@ + span_style(
            style,
        ) + "\">"@ + html_escaped(content) + "</div>"@,
        ElementView::LineFeed { lines } => repeat("<div class=\"receipt-feed\"></div>"@, lines as nat),
        ElementView::FeedDots { dots } => "<div class=\"receipt-feed\" style=\"height:"@ + dec_text(
            half_px(dots as nat),
        ) + "px;\"></div>"@,
        ElementView::Barcode { barcode_type, data, hri, height_dots, png_b64 } => barcode_html(
            data,
            hri,
            height_dots,
            png_b64,
        ),
        ElementView::QrCode { data, error_correction, module_size, png_b64 } => qr_html(
            data,
            png_b64,
        ),
        ElementView::Image { width_dots, height_dots, png_b64 } =>
            "<div class=\"receipt-image\"><img src=\"data:image/png;base64,"@ + png_b64
            + "\" style=\"max-width:"@ + dec_text(half_px(width_dots as nat))
            + "px; display:block; margin:4px auto;\" alt=\"print image\"/></div>"@,
        ElementView::Cut { partial } => "<div class=\"receipt-cut "@ + (if partial {
            "partial"@
        } else {
            "full"@
        }) + "\"><span>"@ + (if partial {
            PARTIAL_CUT_LABEL@
        } else {
            FULL_CUT_LABEL@
        }) + "</span></div>"@,
        ElementView::Rule => "<div class=\"receipt-rule\"><hr/></div>"@,
    }
}

/// The HTML of a sequence of elements, in order.
pub open spec fn body_html(es: Seq<ElementView>) -> Seq<char>
    decreases es.len(),
{
    if es.len() == 0 {
        seq![]
    } else {
        body_html(es.drop_last()) + element_html(es.last())
    }
}

/// The spacing of single-precision floats around a `u32` value `x`: 1 below
/// 2^24, doubling with each power of two above it.
pub open spec fn f32_spacing(x: nat) -> nat {
    if x < 0x100_0000 {
        1
    } else if x < 0x200_0000 {
        2
    } else if x < 0x400_0000 {
        4
    } else if x < 0x800_0000 {
        8
    } else if x < 0x1000_0000 {
        16
    } else if x < 0x2000_0000 {
        32
    } else if x < 0x4000_0000 {
        64
    } else if x < 0x8000_0000 {
        128
    } else {
        256
    }
}

/// `x as f32` for a `u32` value: the nearest single-precision float, ties
/// to the even one.
pub open spec fn f32_round(x: nat) -> nat {
    let p = f32_spacing(x);
    let q = x / p;
    let r = x % p;
    if 2 * r > p || (2 * r == p && q % 2 == 1) {
        (q + 1) * p
    } else {
        q * p
    }
}

/// A dot count in CSS pixels, half a pixel per dot, as
/// `(x as f32 * 0.5) as u32` computes it: the float is halved exactly and
/// truncated.
pub open spec fn half_px(x: nat) -> nat {
    f32_round(x) / 2
}

fn half_px_exec(x: u32) -> (r: u32)
    ensures
        r == half_px(x as nat),
{
    let v = x as u64;
    let p: u64 = if v < 0x100_0000 {
        1
    } else if v < 0x200_0000 {
        2
    } else if v < 0x400_0000 {
        4
    } else if v < 0x800_0000 {
        8
    } else if v < 0x1000_0000 {
        16
    } else if v < 0x2000_0000 {
        32
    } else if v < 0x4000_0000 {
        64
    } else if v < 0x8000_0000 {
        128
    } else {
        256
    };
    let q = v / p;
    let r = v % p;
    proof {
        vstd::arithmetic::div_mod::lemma_fundamental_div_mod(v as int, p as int);
        assert((q + 1) * p == q * p + p) by (nonlinear_arith);
        assert(p * q == q * p) by (nonlinear_arith);
    }
    let rounded: u64 = if 2 * r > p || (2 * r == p && q % 2 == 1) {
        (q + 1) * p
    } else {
        q * p
    };
    (rounded / 2) as u32
}

/// The elements the renderer can draw: text no wider than 64 times (its
/// letter spacing of four pixels per extra width is a byte).
pub open spec fn renderable_element(e: ElementView) -> bool {
    match e {
        ElementView::Text { content, style } => style.char_width_multiplier <= 64,
        _ => true,
    }
}

// ── The page ────────────────────────────────────────────────────────────────

/// The UTF-8 width of a character.
pub open spec fn char_bytes(c: char) -> nat {
    encode_scalar(c as u32).len()
}

/// The longest prefix of `s` whose UTF-8 encoding fits in `n` bytes.
pub open spec fn byte_prefix(s: Seq<char>, n: int) -> Seq<char>
    decreases s.len(),
{
    if s.len() == 0 || char_bytes(s[0]) > n {
        seq![]
    } else {
        seq![s[0]] + byte_prefix(s.drop_first(), n - char_bytes(s[0]))
    }
}

/// Whether the first eight bytes of an id end on a character boundary, so
/// that `&id[..8]` can be taken (or the id is no longer than eight bytes).
pub open spec fn id_cuttable(id: Seq<char>) -> bool {
    vstd::utf8::encode_utf8(id).len() <= 8 || vstd::utf8::encode_utf8(byte_prefix(id, 8)).len()
        == 8
}

/// Every character is ASCII (one UTF-8 byte).
pub open spec fn all_ascii(s: Seq<char>) -> bool {
    forall|i: int| 0 <= i < s.len() ==> (#[trigger] s[i] as u32) < 0x80
}

proof fn lemma_ascii_char_bytes(c: char)
    requires
        (c as u32) < 0x80,
    ensures
        char_bytes(c) == 1,
        vstd::utf8::encode_scalar(c as u32).len() == 1,
{
    vstd::utf8::char_is_scalar(c);
}

proof fn lemma_ascii_encode_len(s: Seq<char>)
    requires
        all_ascii(s),
    ensures
        vstd::utf8::encode_utf8(s).len() == s.len(),
    decreases s.len(),
{
    if s.len() == 0 {
        assert(vstd::utf8::encode_utf8(s) =~= Seq::<u8>::empty());
    } else {
        let p = s.drop_last();
        lemma_ascii_encode_len(p);
        assert(p.push(s.last()) =~= s);
        crate::text::lemma_encode_utf8_push(p, s.last());
        lemma_ascii_char_bytes(s.last());
    }
}

proof fn lemma_ascii_byte_prefix(s: Seq<char>, n: int)
    requires
        all_ascii(s),
        0 <= n,
    ensures
        byte_prefix(s, n) == s.take(if n < s.len() { n } else { s.len() as int }),
    decreases s.len(),
{
    if s.len() == 0 {
        assert(s.take(0) =~= Seq::<char>::empty());
    } else {
        lemma_ascii_char_bytes(s[0]);
        if n == 0 {
            assert(s.take(0) =~= Seq::<char>::empty());
        } else {
            lemma_ascii_byte_prefix(s.drop_first(), n - 1);
            let k = if n < s.len() { n } else { s.len() as int };
            assert(seq![s[0]] + s.drop_first().take(k - 1) =~= s.take(k));
        }
    }
}

/// An id of ASCII characters can always be cut after eight bytes.
pub proof fn law_ascii_ids_cut(id: Seq<char>)
    requires
        all_ascii(id),
    ensures
        id_cuttable(id),
{
    lemma_ascii_encode_len(id);
    if id.len() > 8 {
        lemma_ascii_byte_prefix(id, 8);
        assert forall|i: int| 0 <= i < id.take(8).len() implies (#[trigger] id.take(8)[i] as u32)
            < 0x80 by {
            assert(id.take(8)[i] == id[i]);
        }
        lemma_ascii_encode_len(id.take(8));
    }
}

/// `HH:MM:SS` of an instant in UTC, as chrono's `%H:%M:%S` prints it.
pub open spec fn time_of_day(t: Timestamp) -> Seq<char> {
    let tod = (t.secs as int) % 86400;
    let s = tod % 60 + t.nanos / 1_000_000_000;
    radix_text((tod / 3600) as nat, 10, 2) + ":"@ + radix_text(((tod % 3600) / 60) as nat, 10, 2)
        + ":"@ + radix_text(s as nat, 10, 2)
}

/// The line above the receipt: id, size, paper and time.
pub open spec fn meta_text(j: JobView, paper: PaperWidth) -> Seq<char> {
    "Job ID: "@ + byte_prefix(j.id, 8) + " | "@ + dec_text(j.byte_count as nat) + " bytes | "@ + (
    match paper {
        PaperWidth::Mm80 => "80mm"@,
        PaperWidth::Mm58 => "58mm"@,
    }) + " | "@ + time_of_day(j.received_at)
}

/// The whole page.
pub open spec fn receipt_html(j: JobView, paper: PaperWidth) -> Seq<char> {
    PAGE_HEAD@ + dec_text((printable_dots(paper) / 2) as nat) + PAGE_STYLE@ + meta_text(j, paper)
        + "</div>\n"@ + body_html(j.elements) + PAGE_TAIL@
}

fn push_base_css(out: &mut String, style: TextStyle)
    ensures
        final(out)@ == old(out)@ + base_css(style),
{
    out.append("font-family:'Courier New', Courier, monospace; font-size:");
    let base: u64 = match style.font {
        Font::A => 12,
        Font::B => 10,
    };
    push_dec(out, base * (style.char_height_multiplier as u64));
    out.append("px; text-align:");
    match style.alignment {
        Alignment::Left => out.append("left"),
        Alignment::Center => out.append("center"),
        Alignment::Right => out.append("right"),
    }
    out.append("; display:block; white-space:pre-wrap; word-break:break-all; ");
    proof {
        assert(out@ =~= old(out)@ + base_css(style));
    }
}

fn push_spacing_css(out: &mut String, style: TextStyle)
    requires
        style.char_width_multiplier <= 64,
    ensures
        final(out)@ == old(out)@ + spacing_css(style),
{
    if style.char_width_multiplier > 1 {
        out.append("letter-spacing: ");
        push_dec(out, ((style.char_width_multiplier - 1) * 4) as u64);
        out.append("px;");
        proof {
            assert(out@ =~= old(out)@ + spacing_css(style));
        }
    } else {
        proof {
            assert(out@ =~= old(out)@ + spacing_css(style));
        }
    }
}

fn push_flag_css(out: &mut String, on: bool, css: &str)
    ensures
        final(out)@ == old(out)@ + (if on {
            css@
        } else {
            Seq::<char>::empty()
        }),
{
    if on {
        out.append(css);
    } else {
        proof {
            assert(out@ =~= old(out)@ + Seq::<char>::empty());
        }
    }
}

fn push_span_style(out: &mut String, style: TextStyle)
    requires
        style.char_width_multiplier <= 64,
    ensures
        final(out)@ == old(out)@ + span_style(style),
{
    let ghost s0 = out@;
    push_base_css(out, style);
    let ghost s1 = out@;
    push_spacing_css(out, style);
    let ghost s2 = out@;
    push_flag_css(out, style.bold, " font-weight:bold;");
    let ghost s3 = out@;
    push_flag_css(out, style.underline > 0, " text-decoration:underline;");
    let ghost s4 = out@;
    push_flag_css(out, style.inverse, " background:#000; color:#fff;");
    proof {
        let a = base_css(style);
        let b = spacing_css(style);
        let c = bold_css(style);
        let d = underline_css(style);
        let e = inverse_css(style);
        assert(s3 == s2 + c);
        assert(s4 == s3 + d);
        assert(out@ == s4 + e);
        assert(s0 + (a + b + c + d + e) =~= s0 + a + b + c + d + e);
    }
}

fn push_barcode_html(
    out: &mut String,
    data: &String,
    hri: HriPosition,
    height_dots: u8,
    png_b64: &Option<String>,
)
    ensures
        final(out)@ == old(out)@ + barcode_html(data@, hri, height_dots, opt_view(*png_b64)),
{
    out.append("<div class=\"receipt-barcode\">");
    match png_b64 {
        Some(b64) => {
            out.append("<img src=\"data:image/png;base64,");
            out.append(b64.as_str());
            out.append("\" style=\"max-width:100%; height:");
            push_dec(out, (height_dots / 2) as u64);
            out.append("px; display:block; margin:4px auto;\" alt=\"barcode\"/>");
        },
        None => {
            out.append("<div class=\"barcode-fallback\">[Barcode: ");
            push_escaped(out, data.as_str());
            out.append("]</div>");
        },
    }
    match hri {
        HriPosition::Below | HriPosition::Both => {
            out.append("<div class=\"barcode-hri\">");
            push_escaped(out, data.as_str());
            out.append("</div>");
        },
        _ => {},
    }
    out.append("</div>");
    proof {
        assert(out@ =~= old(out)@ + barcode_html(data@, hri, height_dots, opt_view(*png_b64)));
    }
}

fn push_qr_html(out: &mut String, data: &String, png_b64: &Option<String>)
    ensures
        final(out)@ == old(out)@ + qr_html(data@, opt_view(*png_b64)),
{
    out.append("<div class=\"receipt-qr\">");
    match png_b64 {
        Some(b64) => {
            out.append("<img src=\"data:image/png;base64,");
            out.append(b64.as_str());
            out.append(
                "\" style=\"max-width:180px; display:block; margin:4px auto;\" alt=\"qr code\"/>",
            );
        },
        None => {
            out.append("<div class=\"qr-fallback\">[QR: ");
            push_escaped(out, data.as_str());
            out.append("]</div>");
        },
    }
    out.append("</div>");
    proof {
        assert(out@ =~= old(out)@ + qr_html(data@, opt_view(*png_b64)));
    }
}

fn push_element_html(out: &mut String, e: &PrintElement)
    requires
        renderable_element(e@),
    ensures
        final(out)@ == old(out)@ + element_html(e@),
{
    match e {
        PrintElement::Text { content, style } => {
            out.append("<div class=\"receipt-line\" style=\"");
            push_span_style(out, *style);
            out.append("\">");
            push_escaped(out, content.as_str());
            out.append("</div>");
            proof {
                assert(out@ =~= old(out)@ + element_html(e@));
            }
        },
        PrintElement::LineFeed { lines } => {
            let mut k: u32 = 0;
            while k < *lines
                invariant
                    k <= *lines,
                    out@ == old(out)@ + repeat("<div class=\"receipt-feed\"></div>"@, k as nat),
                decreases *lines - k,
            {
                out.append("<div class=\"receipt-feed\"></div>");
                k += 1;
                proof {
                    assert(out@ =~= old(out)@ + repeat(
                        "<div class=\"receipt-feed\"></div>"@,
                        k as nat,
                    ));
                }
            }
        },
        PrintElement::FeedDots { dots } => {
            out.append("<div class=\"receipt-feed\" style=\"height:");
            push_dec(out, half_px_exec(*dots) as u64);
            out.append("px;\"></div>");
            proof {
                assert(out@ =~= old(out)@ + element_html(e@));
            }
        },
        PrintElement::Barcode { barcode_type, data, hri, height_dots, png_b64 } => {
            push_barcode_html(out, data, *hri, *height_dots, png_b64);
        },
        PrintElement::QrCode { data, error_correction, module_size, png_b64 } => {
            push_qr_html(out, data, png_b64);
        },
        PrintElement::Image(raster) => {
            out.append("<div class=\"receipt-image\"><img src=\"data:image/png;base64,");
            out.append(raster.png_b64.as_str());
            out.append("\" style=\"max-width:");
            push_dec(out, half_px_exec(raster.width_dots) as u64);
            out.append("px; display:block; margin:4px auto;\" alt=\"print image\"/></div>");
            proof {
                assert(out@ =~= old(out)@ + element_html(e@));
            }
        },
        PrintElement::Cut { partial } => {
            out.append("<div class=\"receipt-cut ");
            if *partial {
                out.append("partial");
            } else {
                out.append("full");
            }
            out.append("\"><span>");
            if *partial {
                out.append(PARTIAL_CUT_LABEL);
            } else {
                out.append(FULL_CUT_LABEL);
            }
            out.append("</span></div>");
            proof {
                assert(out@ =~= old(out)@ + element_html(e@));
            }
        },
        PrintElement::Rule => {
            out.append("<div class=\"receipt-rule\"><hr/></div>");
        },
    }
}

/// Appends the characters of `id` that fit in its first eight bytes.
fn push_id_prefix(out: &mut String, id: &str)
    ensures
        final(out)@ == old(out)@ + byte_prefix(id@, 8),
{
    let n = id.unicode_len();
    let ghost s = id@;
    let mut budget: usize = 8;
    let mut i: usize = 0;
    let mut full = false;
    proof {
        assert(s.skip(0) =~= s);
        assert(s.take(0) =~= Seq::<char>::empty());
    }
    while i < n && !full
        invariant
            id@ == s,
            n == s.len(),
            i <= n,
            budget <= 8,
            byte_prefix(s, 8) == s.take(i as int) + byte_prefix(s.skip(i as int), budget as int),
            full ==> byte_prefix(s.skip(i as int), budget as int) == Seq::<char>::empty(),
            out@ == old(out)@ + s.take(i as int),
        decreases n - i, (if full { 0int } else { 1int }),
    {
        let c = id.get_char(i);
        let u = c as u32;
        let w: usize = if u < 0x80 {
            1
        } else if u < 0x800 {
            2
        } else if u < 0x10000 {
            3
        } else {
            4
        };
        proof {
            vstd::utf8::char_is_scalar(c);
            assert(char_bytes(c) == w);
            assert(s.skip(i as int)[0] == c);
            assert(s.skip(i as int).drop_first() =~= s.skip(i + 1));
        }
        if w > budget {
            proof {
                assert(byte_prefix(s.skip(i as int), budget as int) =~= Seq::<char>::empty());
            }
            full = true;
        } else {
            push_char(out, c);
            budget -= w;
            proof {
                assert(s.take(i + 1) =~= s.take(i as int).push(c));
                assert(s.take(i as int) + byte_prefix(s.skip(i as int), (budget + w) as int)
                    =~= s.take(i + 1) + byte_prefix(s.skip(i + 1), budget as int));
            }
            i += 1;
        }
    }
    proof {
        if !full {
            assert(s.skip(n as int) =~= Seq::<char>::empty());
            assert(byte_prefix(s.skip(i as int), budget as int) =~= Seq::<char>::empty());
        }
        assert(byte_prefix(s, 8) =~= s.take(i as int));
    }
}

fn push_time_of_day(out: &mut String, t: Timestamp)
    ensures
        final(out)@ == old(out)@ + time_of_day(t),
{
    let tod: i64 = match t.secs.checked_rem_euclid(86400) {
        Some(v) => v,
        None => 0,
    };
    proof {
        assert(tod as int == (t.secs as int) % 86400);
    }
    let tod = tod as u64;
    let s = tod % 60 + (t.nanos / 1_000_000_000) as u64;
    proof {
        assert(s as int == (t.secs as int) % 86400 % 60 + t.nanos / 1_000_000_000);
    }
    push_radix(out, tod / 3600, 10, 2);
    out.append(":");
    push_radix(out, (tod % 3600) / 60, 10, 2);
    out.append(":");
    push_radix(out, s, 10, 2);
    proof {
        assert(out@ =~= old(out)@ + time_of_day(t));
    }
}

proof fn lemma_encode_utf8_take_len(s: Seq<char>, k: int)
    requires
        0 <= k <= s.len(),
    ensures
        vstd::utf8::encode_utf8(s.take(k)).len() <= vstd::utf8::encode_utf8(s).len(),
    decreases s.len(),
{
    if k < s.len() {
        let p = s.drop_last();
        lemma_encode_utf8_take_len(p, k);
        assert(p.take(k) =~= s.take(k));
        assert(p.push(s.last()) =~= s);
        crate::text::lemma_encode_utf8_push(p, s.last());
    } else {
        assert(s.take(k) =~= s);
    }
}

/// Whether `id` satisfies `id_cuttable`: its first eight bytes end on a
/// character boundary, or it is no longer than that.
fn id_cut_ok(id: &str) -> (r: bool)
    ensures
        r == id_cuttable(id@),
{
    let n = id.unicode_len();
    let ghost s = id@;
    let mut used: usize = 0;
    let mut i: usize = 0;
    proof {
        assert(s.skip(0) =~= s);
        assert(s.take(0) =~= Seq::<char>::empty());
        assert(vstd::utf8::encode_utf8(Seq::<char>::empty()) =~= Seq::<u8>::empty());
    }
    while i < n
        invariant
            id@ == s,
            n == s.len(),
            i <= n,
            used <= 8,
            used == vstd::utf8::encode_utf8(s.take(i as int)).len(),
            byte_prefix(s, 8) == s.take(i as int) + byte_prefix(s.skip(i as int), 8 - used),
        decreases n - i,
    {
        let c = id.get_char(i);
        let u = c as u32;
        let w: usize = if u < 0x80 {
            1
        } else if u < 0x800 {
            2
        } else if u < 0x10000 {
            3
        } else {
            4
        };
        proof {
            vstd::utf8::char_is_scalar(c);
            assert(char_bytes(c) == w);
            assert(s.skip(i as int)[0] == c);
            assert(s.skip(i as int).drop_first() =~= s.skip(i + 1));
            assert(s.take(i + 1) =~= s.take(i as int).push(c));
            crate::text::lemma_encode_utf8_push(s.take(i as int), c);
        }
        if w > 8 - used {
            proof {
                assert(byte_prefix(s.skip(i as int), 8 - used) =~= Seq::<char>::empty());
                assert(byte_prefix(s, 8) =~= s.take(i as int));
                lemma_encode_utf8_take_len(s, i + 1);
            }
            return used == 8;
        }
        proof {
            assert(s.take(i as int) + byte_prefix(s.skip(i as int), 8 - used) =~= s.take(i + 1)
                + byte_prefix(s.skip(i + 1), 8 - used - w));
        }
        used += w;
        i += 1;
    }
    proof {
        assert(s.take(n as int) =~= s);
    }
    true
}

impl ReceiptRenderer {
    /// Whether `render_html` draws `job` exactly: its id can be cut after
    /// eight bytes, and each element is one that it draws exactly.
    pub fn renderable(job: &PrintJob) -> (r: bool)
        ensures
            r == (id_cuttable(job@.id) && forall|i: int|
                0 <= i < job@.elements.len() ==> renderable_element(#[trigger] job@.elements[i])),
    {
        if !id_cut_ok(job.id.as_str()) {
            return false;
        }
        let n = job.elements.len();
        let mut i: usize = 0;
        while i < n
            invariant
                n == job.elements@.len(),
                i <= n,
                forall|k: int| 0 <= k < i ==> renderable_element(#[trigger] job@.elements[k]),
            decreases n - i,
        {
            let ok = match &job.elements[i] {
                PrintElement::Text { content, style } => style.char_width_multiplier <= 64,
                _ => true,
            };
            if !ok {
                assert(!renderable_element(job@.elements[i as int]));
                return false;
            }
            i += 1;
        }
        true
    }

    /// Render a PrintJob into a self-contained HTML page. One dot is drawn
    /// as half a CSS pixel, computed as the single-precision float it is
    /// (`half_px`).
    ///
    /// What is asked of the job: its id can be cut after eight bytes (the
    /// page shows that prefix) and no text is wider than 64 times (its letter
    /// spacing of four pixels per extra width is a byte). Every job the
    /// parser makes meets the second (`parser_laws::law_parsed_jobs_render`),
    /// every job `process_job` makes meets both, and `renderable` tests them.
    pub fn render_html(job: &PrintJob, paper_width: PaperWidth) -> (r: String)
        requires
            id_cuttable(job@.id),
            forall|i: int|
                0 <= i < job@.elements.len() ==> renderable_element(#[trigger] job@.elements[i]),
        ensures
            r@ == receipt_html(job@, paper_width),
    {
        let mut out = String::from_str(PAGE_HEAD);
        push_dec(&mut out, (paper_width.printable_px() / 2) as u64);
        out.append(PAGE_STYLE);
        let ghost before_meta = out@;
        out.append("Job ID: ");
        push_id_prefix(&mut out, job.id.as_str());
        out.append(" | ");
        push_dec(&mut out, job.byte_count as u64);
        out.append(" bytes | ");
        match paper_width {
            PaperWidth::Mm80 => out.append("80mm"),
            PaperWidth::Mm58 => out.append("58mm"),
        }
        out.append(" | ");
        push_time_of_day(&mut out, job.received_at);
        proof {
            assert(out@ =~= before_meta + meta_text(job@, paper_width));
        }
        out.append("</div>\n");
        let ghost head = out@;
        let n = job.elements.len();
        let mut i: usize = 0;
        proof {
            assert(job@.elements.take(0) =~= Seq::<ElementView>::empty());
        }
        while i < n
            invariant
                n == job@.elements.len(),
                i <= n,
                forall|k: int|
                    0 <= k < job@.elements.len() ==> renderable_element(
                        #[trigger] job@.elements[k],
                    ),
                out@ == head + body_html(job@.elements.take(i as int)),
            decreases n - i,
        {
            proof {
                assert(job@.elements[i as int] == job.elements@[i as int]@);
            }
            push_element_html(&mut out, &job.elements[i]);
            proof {
                assert(job@.elements.take(i + 1).drop_last() =~= job@.elements.take(i as int));
            }
            i += 1;
        }
        out.append(PAGE_TAIL);
        proof {
            assert(job@.elements.take(n as int) =~= job@.elements);
            assert(out@ =~= receipt_html(job@, paper_width));
        }
        out
    }

    /// PNG bytes of a job for saving: a simple text-only picture of its
    /// text elements (see `picture`), as wide as the printable width of the
    /// paper. Starts with the PNG signature wherever it is not empty.
    pub fn render_png_bytes(job: &PrintJob, paper_width: PaperWidth) -> (r: Vec<u8>)
        ensures
            r@ == picture_png(text_lines(job@.elements), (printable_dots(paper_width) / 12) as nat),
            r@.len() > 0 ==> r@.len() >= 8 && r@.take(8) == png_signature(),
    {
        let cols = (paper_width.printable_px() / 12) as usize;
        picture_png_bytes(&job.elements, cols)
    }
}

} // verus!
