// The ESC/POS printer as a state machine over bytes: the parser's state, and
// what one byte does to that state and to the print job. The executable
// parser in `escpos_parser` is proved to follow this machine byte by byte.
use crate::barcode::spec_render_barcode;
use crate::imaging::{base64_text, gray_png_output};
use crate::print_job::{
    barcode_type_of, BarcodeType, CommandView, ElementView, HriPosition, JobView,
    QrErrorCorrection,
};
use crate::printer_state::{
    default_printer, style_of, Alignment, CodePage, Font, PrinterModel, TextStyle,
};
use crate::qrcode::spec_render_qrcode;
use crate::text::{
    bool_text, contains_seq, debug_text, dec_text, hex_text, lossy_decode, split_lines, trim,
};
use vstd::prelude::*;

verus! {

pub const ESC: u8 = 0x1B;

pub const GS: u8 = 0x1D;

pub const LF: u8 = 0x0A;

pub const CR: u8 = 0x0D;

pub const HT: u8 = 0x09;

pub const FF: u8 = 0x0C;

pub const NUL: u8 = 0x00;

pub const CAN: u8 = 0x18;

/// Where the parser stands within a command. Bytes a command collects (bit
/// image data, barcode data, QR data, raster data) are kept beside the state,
/// in the parser's buffer.
#[derive(Clone, Copy, Debug)]
#[allow(inconsistent_fields)]
pub enum ParserState {
    Normal,
    /// ESC seen, waiting for the command byte.
    EscPending,
    /// GS seen, waiting for the command byte.
    GsPending,
    EscAlign,
    EscBold,
    EscUnderline,
    EscPrintMode,
    EscFont,
    EscLineSpacing,
    EscFeedLines,
    EscFeedDots,
    EscCodePage,
    EscUpsideDown,
    /// Consume one parameter byte.
    EscSkipOne,
    /// Consume two parameter bytes; `got` of them are consumed.
    EscSkipTwo { got: u8 },
    EscBitImageMode,
    EscBitImageWidthL { mode: u8 },
    EscBitImageWidthH { mode: u8, wl: u8 },
    EscBitImageData { mode: u8, width: u16, height: u16, remaining: usize },
    GsCharSize,
    GsInverse,
    GsCutType,
    GsCutFeedParam,
    GsBarcodeHeight,
    GsBarcodeWidth,
    GsHriPosition,
    GsBarcodeFont,
    GsBarcodeTypeSelect,
    /// Barcode data up to a NUL byte.
    GsBarcodeNulTerm { btype: BarcodeType },
    GsBarcodeNewLen { btype: BarcodeType },
    /// Barcode data of a known length.
    GsBarcodeNewData { btype: BarcodeType, remaining: usize },
    /// `ESC Z v r k xL xH data`: the QR format of Chinese POS-58/80 printers.
    EscZVersion,
    EscZEcc { v: u8 },
    EscZSize { v: u8, ec: QrErrorCorrection },
    EscZLenL { v: u8, ec: QrErrorCorrection, size: u8 },
    EscZLenH { v: u8, ec: QrErrorCorrection, size: u8, xl: u8 },
    EscZData { ec: QrErrorCorrection, size: u8, remaining: usize },
    /// `GS ( k pL pH cn fn data`: the five-field QR protocol.
    GsExtFnType,
    GsExtFnPL,
    GsExtFnPH { pl: u8 },
    GsExtFnCN { pl: u8, ph: u8 },
    GsExtFnFN { pl: u8, ph: u8, cn: u8 },
    GsQrModelN1 { remaining: usize },
    GsQrModelN2 { remaining: usize },
    GsQrSize { remaining: usize },
    GsQrEc { remaining: usize },
    GsQrStore { remaining: usize },
    GsQrPrint { remaining: usize },
    GsQrSkip { remaining: usize },
    /// `GS v 0 m xL xH yL yH data`: a raster image.
    GsRasterExpectZero,
    GsRasterMode,
    GsRasterXL { mode: u8 },
    GsRasterXH { mode: u8, xl: u8 },
    GsRasterYL { mode: u8, xl: u8, xh: u8 },
    GsRasterYH { mode: u8, xl: u8, xh: u8, yl: u8 },
    GsRasterData { width_bytes: u32, height: u32, remaining: usize },
}

/// The value of a parser: its state, the bytes the current command has
/// collected, the printer, the text not yet flushed, barcode and QR settings,
/// and the offset of the byte being read.
#[verifier::ext_equal]
pub struct ParserModel {
    pub state: ParserState,
    pub buf: Seq<u8>,
    pub printer: PrinterModel,
    pub line_buf: Seq<char>,
    pub bc_height: u8,
    pub bc_width: u8,
    pub bc_hri: HriPosition,
    pub qr_model: u8,
    pub qr_size: u8,
    pub qr_ec: QrErrorCorrection,
    pub qr_data: Seq<u8>,
    pub offset: usize,
}

/// A fresh parser for the given paper.
pub open spec fn initial_model(paper: crate::printer_state::PaperWidth) -> ParserModel {
    ParserModel {
        state: ParserState::Normal,
        buf: Seq::empty(),
        printer: default_printer(paper),
        line_buf: Seq::empty(),
        bc_height: 162,
        bc_width: 3,
        bc_hri: HriPosition::Below,
        qr_model: 2,
        qr_size: 4,
        qr_ec: QrErrorCorrection::M,
        qr_data: Seq::empty(),
        offset: 0,
    }
}

// ── Effects on the job ──────────────────────────────────────────────────────

pub open spec fn push_el(j: JobView, e: ElementView) -> JobView {
    JobView { elements: j.elements.push(e), ..j }
}

/// The debug record of a command read at the current offset.
pub open spec fn log_cmd(m: ParserModel, j: JobView, bytes: Seq<u8>, desc: Seq<char>) -> JobView {
    JobView {
        commands: j.commands.push(
            CommandView { byte_offset: m.offset, raw_bytes: bytes, description: desc },
        ),
        ..j
    }
}

/// The text of a warning raised at the current offset: `[+OOOO] msg`.
pub open spec fn warning_text(m: ParserModel, msg: Seq<char>) -> Seq<char> {
    "[+"@ + hex_text(m.offset as nat, 4) + "] "@ + msg
}

pub open spec fn warn(m: ParserModel, j: JobView, msg: Seq<char>) -> JobView {
    JobView { warnings: j.warnings.push(warning_text(m, msg)), ..j }
}

pub open spec fn goto(m: ParserModel, s: ParserState) -> ParserModel {
    ParserModel { state: s, ..m }
}

/// Enter a command that collects bytes: the buffer starts empty.
pub open spec fn collect(m: ParserModel, s: ParserState) -> ParserModel {
    ParserModel { state: s, buf: Seq::empty(), ..m }
}

pub open spec fn set_printer(m: ParserModel, p: PrinterModel) -> ParserModel {
    ParserModel { printer: p, ..m }
}

pub open spec fn ok_text(r: Result<Seq<char>, Seq<char>>) -> Option<Seq<char>> {
    match r {
        Ok(s) => Some(s),
        Err(_) => None,
    }
}

// ── Embedded QR tags in text ────────────────────────────────────────────────

pub open spec fn upi_tag() -> Seq<char> {
    seq!['[', 'U', 'P', 'I', '_', 'Q', 'R', ':']
}

pub open spec fn qr_tag() -> Seq<char> {
    seq!['[', 'Q', 'R', ':']
}

pub open spec fn qrcode_tag() -> Seq<char> {
    seq!['[', 'Q', 'R', '_', 'C', 'O', 'D', 'E', ':']
}

/// Whether `line` is `tag`, a payload and `]`.
pub open spec fn is_tagged(line: Seq<char>, tag: Seq<char>) -> bool {
    line.len() >= tag.len() + 1 && line.subrange(0, tag.len() as int) == tag && line.last() == ']'
}

/// The payload between `tag` and the closing `]`.
pub open spec fn tag_payload(line: Seq<char>, tag: Seq<char>) -> Seq<char> {
    line.subrange(tag.len() as int, line.len() - 1)
}

/// A QR code element for a tag's payload, rendered at level M, size 4.
pub open spec fn tag_qr(uri: Seq<char>) -> ElementView {
    ElementView::QrCode {
        data: uri,
        error_correction: QrErrorCorrection::M,
        module_size: 4,
        png_b64: ok_text(spec_render_qrcode(uri, QrErrorCorrection::M, 4)),
    }
}

/// One line of text that holds a QR tag somewhere: a tagged line becomes a
/// QR code (a UPI tag with a centred, bold caption); another non-empty line
/// stays text; an empty line is dropped.
pub open spec fn process_line(style: TextStyle, j: JobView, line: Seq<char>) -> JobView {
    let t = trim(line);
    if is_tagged(t, upi_tag()) {
        let caption_style = TextStyle { alignment: Alignment::Center, bold: true, ..style };
        push_el(
            push_el(j, tag_qr(tag_payload(t, upi_tag()))),
            ElementView::Text { content: "SCAN TO PAY VIA UPI"@, style: caption_style },
        )
    } else if is_tagged(t, qr_tag()) {
        push_el(j, tag_qr(tag_payload(t, qr_tag())))
    } else if is_tagged(t, qrcode_tag()) {
        push_el(j, tag_qr(tag_payload(t, qrcode_tag())))
    } else if line.len() > 0 {
        push_el(j, ElementView::Text { content: line, style })
    } else {
        j
    }
}

pub open spec fn process_lines(style: TextStyle, j: JobView, lines: Seq<Seq<char>>) -> JobView
    decreases lines.len(),
{
    if lines.len() == 0 {
        j
    } else {
        process_line(style, process_lines(style, j, lines.drop_last()), lines.last())
    }
}

/// Flushed text: one text element, unless it holds a QR tag, in which case
/// it is taken line by line.
pub open spec fn process_text(style: TextStyle, j: JobView, content: Seq<char>) -> JobView {
    if !contains_seq(content, upi_tag()) && !contains_seq(content, qr_tag()) && !contains_seq(
        content,
        qrcode_tag(),
    ) {
        push_el(j, ElementView::Text { content, style })
    } else {
        process_lines(style, j, split_lines(content))
    }
}

/// Emit the accumulated text, if any.
pub open spec fn flush_text(m: ParserModel, j: JobView) -> (ParserModel, JobView) {
    if m.line_buf.len() == 0 {
        (m, j)
    } else {
        (ParserModel { line_buf: Seq::empty(), ..m }, process_text(style_of(m.printer), j, m.line_buf))
    }
}

// ── Emitting barcodes, QR codes and images ──────────────────────────────────

/// The `Debug` name of a barcode type.
pub open spec fn barcode_type_name(t: BarcodeType) -> Seq<char> {
    match t {
        BarcodeType::UpcA => "UpcA"@,
        BarcodeType::UpcE => "UpcE"@,
        BarcodeType::Ean13 => "Ean13"@,
        BarcodeType::Ean8 => "Ean8"@,
        BarcodeType::Code39 => "Code39"@,
        BarcodeType::Itf => "Itf"@,
        BarcodeType::Codabar => "Codabar"@,
        BarcodeType::Code93 => "Code93"@,
        BarcodeType::Code128 => "Code128"@,
        BarcodeType::Pdf417 => "Pdf417"@,
        BarcodeType::QrCode => "QrCode"@,
        BarcodeType::Unknown(n) => "Unknown("@ + dec_text(n as nat) + ")"@,
    }
}

/// Render a QR code, warning if rendering failed.
pub open spec fn render_qr_warned(m: ParserModel, j: JobView, data: Seq<char>, ec: QrErrorCorrection, size: u8) -> JobView {
    match spec_render_qrcode(data, ec, size) {
        Ok(_) => j,
        Err(e) => warn(m, j, "QR render failed: "@ + e),
    }
}

/// A barcode's collected bytes: a QR code at the stored level and size, or a
/// barcode with the configured HRI position and height.
pub open spec fn emit_barcode(m: ParserModel, j: JobView, btype: BarcodeType, raw: Seq<u8>) -> (
    ParserModel,
    JobView,
) {
    let data = lossy_decode(raw);
    if btype == BarcodeType::QrCode {
        let (m1, j1) = flush_text(m, j);
        let j2 = render_qr_warned(m1, j1, data, m1.qr_ec, m1.qr_size);
        let j3 = log_cmd(m1, j2, seq![], "GS k QR code data="@ + debug_text(data));
        (
            m1,
            push_el(
                j3,
                ElementView::QrCode {
                    data,
                    error_correction: m1.qr_ec,
                    module_size: m1.qr_size,
                    png_b64: ok_text(spec_render_qrcode(data, m1.qr_ec, m1.qr_size)),
                },
            ),
        )
    } else {
        let r = spec_render_barcode(btype, data);
        let j1 = match r {
            Ok(_) => j,
            Err(e) => warn(
                m,
                j,
                "Barcode render failed ("@ + barcode_type_name(btype) + " "@ + debug_text(data)
                    + "): "@ + e,
            ),
        };
        let (m2, j2) = flush_text(m, j1);
        let j3 = log_cmd(
            m2,
            j2,
            seq![],
            "Barcode "@ + barcode_type_name(btype) + " data="@ + debug_text(data),
        );
        (
            m2,
            push_el(
                j3,
                ElementView::Barcode {
                    barcode_type: btype,
                    data,
                    hri: m2.bc_hri,
                    height_dots: m2.bc_height,
                    png_b64: ok_text(r),
                },
            ),
        )
    }
}

/// Print the stored QR data (`GS ( k` function 81), then forget it.
pub open spec fn emit_qr(m: ParserModel, j: JobView) -> (ParserModel, JobView) {
    if m.qr_data.len() == 0 {
        (m, warn(m, j, "QR print: no data stored"@))
    } else {
        let data = lossy_decode(m.qr_data);
        let j1 = render_qr_warned(m, j, data, m.qr_ec, m.qr_size);
        let j2 = log_cmd(m, j1, seq![], "QR code data="@ + debug_text(data));
        (
            ParserModel { qr_data: Seq::empty(), ..m },
            push_el(
                j2,
                ElementView::QrCode {
                    data,
                    error_correction: m.qr_ec,
                    module_size: m.qr_size,
                    png_b64: ok_text(spec_render_qrcode(data, m.qr_ec, m.qr_size)),
                },
            ),
        )
    }
}

/// The grey value of pixel `i` of a raster image `width_bytes` bytes wide:
/// each data byte holds eight pixels, most significant bit first; a set bit
/// is black, a clear bit (or a missing byte) white.
pub open spec fn raster_pixel(width_bytes: nat, raw: Seq<u8>, i: int) -> u8 {
    let wd = (width_bytes * 8) as int;
    let row = i / wd;
    let col = i % wd;
    let k = row * width_bytes + col / 8;
    let byte: u8 = if k < raw.len() {
        raw[k]
    } else {
        0
    };
    if byte & (1u8 << ((7 - col % 8) as u8)) != 0 {
        0
    } else {
        255
    }
}

pub open spec fn raster_pixels(width_bytes: nat, height: nat, raw: Seq<u8>) -> Seq<u8> {
    Seq::new(width_bytes * 8 * height, |i: int| raster_pixel(width_bytes, raw, i))
}

/// The base64 PNG of a raster image; empty when no image could be made of
/// it (a pixel count beyond what memory can index).
pub open spec fn raster_png(width_bytes: u32, height: u32, raw: Seq<u8>) -> Seq<char> {
    if width_bytes * 8 * height > usize::MAX {
        seq![]
    } else {
        base64_text(
            gray_png_output(
                (width_bytes * 8) as u32,
                height,
                raster_pixels(width_bytes as nat, height as nat, raw),
            ).0,
        )
    }
}

/// A raster image: flushed text first, then the image if it has a PNG.
pub open spec fn emit_raster(m: ParserModel, j: JobView, width_bytes: u32, height: u32, raw: Seq<u8>) -> (
    ParserModel,
    JobView,
) {
    let png = raster_png(width_bytes, height, raw);
    let (m1, j1) = flush_text(m, j);
    let j2 = log_cmd(
        m1,
        j1,
        seq![],
        "Raster image "@ + dec_text((width_bytes * 8) as nat) + "x"@ + dec_text(height as nat),
    );
    if png.len() > 0 {
        (
            m1,
            push_el(
                j2,
                ElementView::Image {
                    width_dots: (width_bytes * 8) as u32,
                    height_dots: height,
                    png_b64: png,
                },
            ),
        )
    } else {
        (m1, j2)
    }
}

// ── Normal mode and command dispatch ────────────────────────────────────────

/// The character a byte 0x80..=0xFF prints as: itself on code pages 850 and
/// 1252, `?` otherwise.
pub open spec fn decode_high(m: ParserModel, b: u8) -> char {
    match m.printer.code_page {
        CodePage::Windows1252 | CodePage::Pc850 => b as char,
        _ => '?',
    }
}

/// A run of `n` spaces.
pub open spec fn spaces(n: nat) -> Seq<char> {
    Seq::new(n, |i: int| ' ')
}

pub open spec fn on_normal(m: ParserModel, j: JobView, b: u8) -> (ParserModel, JobView) {
    if b == ESC {
        (goto(m, ParserState::EscPending), j)
    } else if b == GS {
        (goto(m, ParserState::GsPending), j)
    } else if b == LF {
        let (m1, j1) = flush_text(m, j);
        let j2 = push_el(j1, ElementView::LineFeed { lines: 1 });
        (goto(m1, ParserState::Normal), log_cmd(m1, j2, seq![LF], "LF"@))
    } else if b == CR {
        (goto(m, ParserState::Normal), log_cmd(m, j, seq![CR], "CR (ignored)"@))
    } else if b == HT {
        let col = vstd::utf8::encode_utf8(m.line_buf).len() % 8;
        (
            ParserModel {
                line_buf: m.line_buf + spaces((8 - col) as nat),
                state: ParserState::Normal,
                ..m
            },
            j,
        )
    } else if b == FF {
        let (m1, j1) = flush_text(m, j);
        let j2 = push_el(j1, ElementView::Cut { partial: false });
        (goto(m1, ParserState::Normal), log_cmd(m1, j2, seq![FF], "FF (form feed / cut)"@))
    } else if b == NUL || b == CAN {
        (goto(m, ParserState::Normal), j)
    } else if 0x20 <= b <= 0x7E {
        (ParserModel { line_buf: m.line_buf.push(b as char), state: ParserState::Normal, ..m }, j)
    } else if b >= 0x80 {
        (
            ParserModel {
                line_buf: m.line_buf.push(decode_high(m, b)),
                state: ParserState::Normal,
                ..m
            },
            j,
        )
    } else {
        (goto(m, ParserState::Normal), warn(m, j, "Unhandled byte 0x"@ + hex_text(b as nat, 2)))
    }
}

/// The text of an unknown-command warning: `Unknown ESC 0xNN ('c')`.
pub open spec fn unknown_text(prefix: Seq<char>, b: u8) -> Seq<char> {
    prefix + hex_text(b as nat, 2) + " ('"@ + seq![b as char] + "')"@
}

pub open spec fn on_esc(m: ParserModel, j: JobView, b: u8) -> (ParserModel, JobView) {
    if b == 0x40 {
        // '@': initialize
        let (m1, j1) = flush_text(m, j);
        let m2 = set_printer(m1, default_printer(m1.printer.paper_width));
        (goto(m2, ParserState::Normal), log_cmd(m2, j1, seq![ESC, 0x40], "ESC @ initialize"@))
    } else if b == 0x61 {
        (goto(m, ParserState::EscAlign), j)
    } else if b == 0x45 || b == 0x47 {
        (goto(m, ParserState::EscBold), j)
    } else if b == 0x2D {
        (goto(m, ParserState::EscUnderline), j)
    } else if b == 0x21 {
        (goto(m, ParserState::EscPrintMode), j)
    } else if b == 0x4D {
        (goto(m, ParserState::EscFont), j)
    } else if b == 0x32 {
        // '2': default line spacing
        let m1 = set_printer(m, PrinterModel { line_spacing: 30, ..m.printer });
        (
            goto(m1, ParserState::Normal),
            log_cmd(m1, j, seq![ESC, 0x32], "ESC 2 default line spacing"@),
        )
    } else if b == 0x33 {
        (goto(m, ParserState::EscLineSpacing), j)
    } else if b == 0x64 {
        (goto(m, ParserState::EscFeedLines), j)
    } else if b == 0x4A {
        (goto(m, ParserState::EscFeedDots), j)
    } else if b == 0x74 {
        (goto(m, ParserState::EscCodePage), j)
    } else if b == 0x7B {
        (goto(m, ParserState::EscUpsideDown), j)
    } else if b == 0x56 {
        // 'V': rotate 90, one parameter
        (goto(m, ParserState::EscSkipOne), j)
    } else if b == 0x70 {
        // 'p': cash drawer, two parameters
        (goto(m, ParserState::EscSkipTwo { got: 0 }), j)
    } else if b == 0x2A {
        (goto(m, ParserState::EscBitImageMode), j)
    } else if b == 0x5A {
        (goto(m, ParserState::EscZVersion), j)
    } else if b == 0x69 {
        // 'i': full cut
        let (m1, j1) = flush_text(m, j);
        let j2 = push_el(j1, ElementView::Cut { partial: false });
        (goto(m1, ParserState::Normal), log_cmd(m1, j2, seq![ESC, 0x69], "ESC i full cut"@))
    } else if b == 0x6D {
        // 'm': partial cut
        let (m1, j1) = flush_text(m, j);
        let j2 = push_el(j1, ElementView::Cut { partial: true });
        (goto(m1, ParserState::Normal), log_cmd(m1, j2, seq![ESC, 0x6D], "ESC m partial cut"@))
    } else if b == 0x72 || b == 0x3D || b == 0x3F || b == 0x4B || b == 0x75 {
        (goto(m, ParserState::EscSkipOne), j)
    } else if b == 0x63 {
        (goto(m, ParserState::EscSkipTwo { got: 0 }), j)
    } else {
        (goto(m, ParserState::Normal), warn(m, j, unknown_text("Unknown ESC 0x"@, b)))
    }
}

pub open spec fn on_gs(m: ParserModel, j: JobView, b: u8) -> (ParserModel, JobView) {
    if b == 0x21 {
        (goto(m, ParserState::GsCharSize), j)
    } else if b == 0x42 {
        (goto(m, ParserState::GsInverse), j)
    } else if b == 0x56 {
        (goto(m, ParserState::GsCutType), j)
    } else if b == 0x68 {
        (goto(m, ParserState::GsBarcodeHeight), j)
    } else if b == 0x77 {
        (goto(m, ParserState::GsBarcodeWidth), j)
    } else if b == 0x48 {
        (goto(m, ParserState::GsHriPosition), j)
    } else if b == 0x66 {
        (goto(m, ParserState::GsBarcodeFont), j)
    } else if b == 0x6B {
        (goto(m, ParserState::GsBarcodeTypeSelect), j)
    } else if b == 0x28 {
        (goto(m, ParserState::GsExtFnType), j)
    } else if b == 0x76 {
        (goto(m, ParserState::GsRasterExpectZero), j)
    } else if b == 0x4C || b == 0x50 {
        (goto(m, ParserState::EscSkipTwo { got: 0 }), j)
    } else if b == 0x61 || b == 0x72 || b == 0x49 || b == 0x65 {
        (goto(m, ParserState::EscSkipOne), j)
    } else {
        (goto(m, ParserState::Normal), warn(m, j, unknown_text("Unknown GS 0x"@, b)))
    }
}

// ── Single-parameter commands ───────────────────────────────────────────────

pub open spec fn alignment_of(b: u8) -> Alignment {
    if b == 1 || b == 49 {
        Alignment::Center
    } else if b == 2 || b == 50 {
        Alignment::Right
    } else {
        Alignment::Left
    }
}

pub open spec fn alignment_name(a: Alignment) -> Seq<char> {
    match a {
        Alignment::Left => "Left"@,
        Alignment::Center => "Center"@,
        Alignment::Right => "Right"@,
    }
}

pub open spec fn font_name(f: Font) -> Seq<char> {
    match f {
        Font::A => "A"@,
        Font::B => "B"@,
    }
}

pub open spec fn on_esc_align(m: ParserModel, j: JobView, b: u8) -> (ParserModel, JobView) {
    let (m1, j1) = flush_text(m, j);
    let a = alignment_of(b);
    let m2 = set_printer(m1, PrinterModel { alignment: a, ..m1.printer });
    (goto(m2, ParserState::Normal), log_cmd(m2, j1, seq![ESC, 0x61, b], "ESC a "@ + alignment_name(a)))
}

/// A change of formatting first flushes the pending text, which keeps the
/// style it was read in.
pub open spec fn on_esc_bold(m: ParserModel, j: JobView, b: u8) -> (ParserModel, JobView) {
    let (m0, j0) = flush_text(m, j);
    let m1 = set_printer(m0, PrinterModel { bold: b != 0, ..m0.printer });
    (goto(m1, ParserState::Normal), log_cmd(m1, j0, seq![ESC, 0x45, b], "ESC E bold="@ + bool_text(b != 0)))
}

pub open spec fn on_esc_underline(m: ParserModel, j: JobView, b: u8) -> (ParserModel, JobView) {
    let u: u8 = if b < 2 {
        b
    } else {
        2
    };
    let (m0, j0) = flush_text(m, j);
    let m1 = set_printer(m0, PrinterModel { underline: u, ..m0.printer });
    (goto(m1, ParserState::Normal), log_cmd(m1, j0, seq![ESC, 0x2D, b], "ESC - underline="@ + dec_text(b as nat)))
}

/// `ESC !`: bit 0 font B, bit 3 bold, bit 4 double height, bit 5 double
/// width, bit 7 underline.
pub open spec fn on_esc_print_mode(m: ParserModel, j: JobView, b: u8) -> (ParserModel, JobView) {
    let (m0, j0) = flush_text(m, j);
    let p = PrinterModel {
        font: if b & 0x01 != 0 {
            Font::B
        } else {
            Font::A
        },
        bold: b & 0x08 != 0,
        char_height_multiplier: if b & 0x10 != 0 {
            2
        } else {
            1
        },
        char_width_multiplier: if b & 0x20 != 0 {
            2
        } else {
            1
        },
        underline: if b & 0x80 != 0 {
            1
        } else {
            0
        },
        ..m0.printer
    };
    let m1 = set_printer(m0, p);
    (goto(m1, ParserState::Normal), log_cmd(m1, j0, seq![ESC, 0x21, b], "ESC ! mode=0x"@ + hex_text(b as nat, 2)))
}

pub open spec fn on_esc_font(m: ParserModel, j: JobView, b: u8) -> (ParserModel, JobView) {
    let f = if b == 1 || b == 49 {
        Font::B
    } else {
        Font::A
    };
    let (m0, j0) = flush_text(m, j);
    let m1 = set_printer(m0, PrinterModel { font: f, ..m0.printer });
    (goto(m1, ParserState::Normal), log_cmd(m1, j0, seq![ESC, 0x4D, b], "ESC M font="@ + font_name(f)))
}

pub open spec fn on_esc_linespacing(m: ParserModel, j: JobView, b: u8) -> (ParserModel, JobView) {
    let m1 = set_printer(m, PrinterModel { line_spacing: b, ..m.printer });
    (goto(m1, ParserState::Normal), log_cmd(m1, j, seq![ESC, 0x33, b], "ESC 3 spacing="@ + dec_text(b as nat)))
}

pub open spec fn on_esc_feed_lines(m: ParserModel, j: JobView, b: u8) -> (ParserModel, JobView) {
    let (m1, j1) = flush_text(m, j);
    let j2 = if b > 0 {
        push_el(j1, ElementView::LineFeed { lines: b as u32 })
    } else {
        j1
    };
    (
        goto(m1, ParserState::Normal),
        log_cmd(m1, j2, seq![ESC, 0x64, b], "ESC d feed "@ + dec_text(b as nat) + " lines"@),
    )
}

pub open spec fn on_esc_feed_dots(m: ParserModel, j: JobView, b: u8) -> (ParserModel, JobView) {
    let j1 = push_el(j, ElementView::FeedDots { dots: b as u32 });
    (
        goto(m, ParserState::Normal),
        log_cmd(m, j1, seq![ESC, 0x4A, b], "ESC J feed "@ + dec_text(b as nat) + " dots"@),
    )
}

pub open spec fn code_page_of(b: u8) -> CodePage {
    if b == 0 {
        CodePage::Pc437
    } else if b == 2 {
        CodePage::Pc850
    } else if b == 16 || b == 17 {
        CodePage::Windows1252
    } else if b == 255 {
        CodePage::Utf8
    } else {
        CodePage::Unknown(b)
    }
}

pub open spec fn on_esc_codepage(m: ParserModel, j: JobView, b: u8) -> (ParserModel, JobView) {
    let m1 = set_printer(m, PrinterModel { code_page: code_page_of(b), ..m.printer });
    (goto(m1, ParserState::Normal), log_cmd(m1, j, seq![ESC, 0x74, b], "ESC t codepage="@ + dec_text(b as nat)))
}

/// `GS !`: width multiplier from bits 4 to 6, height from bits 0 to 2, each
/// plus one.
pub open spec fn on_gs_char_size(m: ParserModel, j: JobView, b: u8) -> (ParserModel, JobView) {
    let w: u8 = (((b >> 4u8) & 7u8) + 1) as u8;
    let h: u8 = ((b & 7u8) + 1) as u8;
    let (m0, j0) = flush_text(m, j);
    let m1 = set_printer(m0, PrinterModel { char_width_multiplier: w, char_height_multiplier: h, ..m0.printer });
    (
        goto(m1, ParserState::Normal),
        log_cmd(
            m1,
            j0,
            seq![GS, 0x21, b],
            "GS ! size w="@ + dec_text(w as nat) + "x h="@ + dec_text(h as nat) + "x"@,
        ),
    )
}

pub open spec fn on_gs_inverse(m: ParserModel, j: JobView, b: u8) -> (ParserModel, JobView) {
    let (m0, j0) = flush_text(m, j);
    let m1 = set_printer(m0, PrinterModel { inverse: b != 0, ..m0.printer });
    (goto(m1, ParserState::Normal), log_cmd(m1, j0, seq![GS, 0x42, b], "GS B inverse="@ + bool_text(b != 0)))
}

/// `GS V n`: 0/48 full cut, 1/49 partial cut; 65/97 full and 66/98 partial
/// cut with a feed parameter byte to follow.
pub open spec fn on_gs_cut_type(m: ParserModel, j: JobView, b: u8) -> (ParserModel, JobView) {
    let (m1, j1) = flush_text(m, j);
    if b == 0 || b == 48 || b == 1 || b == 49 || b == 65 || b == 66 || b == 97 || b == 98 {
        let partial = b == 1 || b == 49 || b == 66 || b == 98;
        let feed = b == 65 || b == 66 || b == 97 || b == 98;
        let j2 = push_el(j1, ElementView::Cut { partial });
        let j3 = log_cmd(m1, j2, seq![GS, 0x56, b], "GS V cut partial="@ + bool_text(partial));
        (
            goto(
                m1,
                if feed {
                    ParserState::GsCutFeedParam
                } else {
                    ParserState::Normal
                },
            ),
            j3,
        )
    } else {
        (goto(m1, ParserState::Normal), warn(m1, j1, "GS V unknown type 0x"@ + hex_text(b as nat, 2)))
    }
}

pub open spec fn hri_of(b: u8) -> HriPosition {
    if b == 0 {
        HriPosition::Hidden
    } else if b == 1 {
        HriPosition::Above
    } else if b == 3 {
        HriPosition::Both
    } else {
        HriPosition::Below
    }
}

pub open spec fn on_gs_k_type(m: ParserModel, j: JobView, b: u8) -> (ParserModel, JobView) {
    if b <= 8 || b == 10 || b == 11 || b == 32 {
        (collect(m, ParserState::GsBarcodeNulTerm { btype: barcode_type_of(b) }), j)
    } else if (65 <= b <= 73) || b == 97 || b == 104 {
        (goto(m, ParserState::GsBarcodeNewLen { btype: barcode_type_of(b) }), j)
    } else {
        (goto(m, ParserState::Normal), warn(m, j, "GS k unknown barcode type 0x"@ + hex_text(b as nat, 2)))
    }
}

/// `GS ( k` function byte, after `pL pH cn`: `pL + 256 pH` counts `cn`, `fn`
/// and the parameters that follow.
pub open spec fn on_gs_qr_fn(m: ParserModel, j: JobView, f: u8, pl: u8, ph: u8) -> (ParserModel, JobView) {
    let total = pl as int + 256 * ph as int;
    let rem: usize = if total >= 2 {
        (total - 2) as usize
    } else {
        0
    };
    if f == 65 {
        let j1 = log_cmd(m, j, seq![], "GS ( k QR model"@);
        (goto(m, if rem > 0 { ParserState::GsQrModelN1 { remaining: rem } } else { ParserState::Normal }), j1)
    } else if f == 67 {
        let j1 = log_cmd(m, j, seq![], "GS ( k QR size"@);
        (goto(m, if rem > 0 { ParserState::GsQrSize { remaining: rem } } else { ParserState::Normal }), j1)
    } else if f == 69 {
        let j1 = log_cmd(m, j, seq![], "GS ( k QR error correction"@);
        (goto(m, if rem > 0 { ParserState::GsQrEc { remaining: rem } } else { ParserState::Normal }), j1)
    } else if f == 80 {
        let j1 = log_cmd(m, j, seq![], "GS ( k QR store data"@);
        if rem > 0 {
            (collect(m, ParserState::GsQrStore { remaining: rem }), j1)
        } else {
            (goto(m, ParserState::Normal), j1)
        }
    } else if f == 81 {
        let (m1, j1) = flush_text(m, j);
        let (m2, j2) = emit_qr(m1, j1);
        let j3 = log_cmd(m2, j2, seq![], "GS ( k QR print"@);
        (goto(m2, if rem > 0 { ParserState::GsQrPrint { remaining: rem } } else { ParserState::Normal }), j3)
    } else {
        let j1 = warn(m, j, "GS ( k unknown fn=0x"@ + hex_text(f as nat, 2));
        (goto(m, if rem > 0 { ParserState::GsQrSkip { remaining: rem } } else { ParserState::Normal }), j1)
    }
}

/// Bring a size into 1..=16.
pub open spec fn clamp_size(b: u8) -> u8 {
    if b < 1 {
        1
    } else if b > 16 {
        16
    } else {
        b
    }
}

/// Error correction from `GS ( k` function 69: 48-51 or 0-3 for L, M, Q, H.
pub open spec fn qr_ec_of(b: u8) -> QrErrorCorrection {
    if b == 48 || b == 0 {
        QrErrorCorrection::L
    } else if b == 50 || b == 2 {
        QrErrorCorrection::Q
    } else if b == 51 || b == 3 {
        QrErrorCorrection::H
    } else {
        QrErrorCorrection::M
    }
}

/// Error correction from `ESC Z`: also accepts the letters L, M, Q, H.
pub open spec fn escz_ec_of(b: u8) -> QrErrorCorrection {
    if b == 0x4C || b == 0x6C {
        QrErrorCorrection::L
    } else if b == 0x51 || b == 0x71 {
        QrErrorCorrection::Q
    } else if b == 0x48 || b == 0x68 {
        QrErrorCorrection::H
    } else {
        qr_ec_of(b)
    }
}

/// Count down the parameter bytes of a `GS ( k` function.
pub open spec fn then_skip(rem: usize) -> ParserState {
    if rem > 1 {
        ParserState::GsQrSkip { remaining: (rem - 1) as usize }
    } else {
        ParserState::Normal
    }
}

/// The QR data stored by function 80: the collected bytes, without the
/// leading `m` parameter byte (0 or `'0'`) when there is more than it.
pub open spec fn stored_qr_data(buf: Seq<u8>) -> Seq<u8> {
    if buf.len() > 1 && (buf[0] == 0 || buf[0] == 0x30) {
        buf.drop_first()
    } else {
        buf
    }
}

// ── One byte ────────────────────────────────────────────────────────────────

/// What one byte does, given the state the parser is in.
#[verifier::opaque]
pub open spec fn step(m: ParserModel, j: JobView, b: u8) -> (ParserModel, JobView) {
    match m.state {
        ParserState::Normal => on_normal(m, j, b),
        ParserState::EscPending => on_esc(m, j, b),
        ParserState::GsPending => on_gs(m, j, b),
        ParserState::EscAlign => on_esc_align(m, j, b),
        ParserState::EscBold => on_esc_bold(m, j, b),
        ParserState::EscUnderline => on_esc_underline(m, j, b),
        ParserState::EscPrintMode => on_esc_print_mode(m, j, b),
        ParserState::EscFont => on_esc_font(m, j, b),
        ParserState::EscLineSpacing => on_esc_linespacing(m, j, b),
        ParserState::EscFeedLines => on_esc_feed_lines(m, j, b),
        ParserState::EscFeedDots => on_esc_feed_dots(m, j, b),
        ParserState::EscCodePage => on_esc_codepage(m, j, b),
        ParserState::EscUpsideDown => (
            goto(set_printer(m, PrinterModel { upside_down: b != 0, ..m.printer }), ParserState::Normal),
            j,
        ),
        ParserState::EscSkipOne => (goto(m, ParserState::Normal), j),
        ParserState::EscSkipTwo { got } => (
            goto(m, if got == 0 { ParserState::EscSkipTwo { got: 1 } } else { ParserState::Normal }),
            j,
        ),
        _ => step_data(m, j, b),
    }
}

/// The states that collect parameters and data.
pub open spec fn step_data(m: ParserModel, j: JobView, b: u8) -> (ParserModel, JobView) {
    match m.state {
        ParserState::EscBitImageMode => (goto(m, ParserState::EscBitImageWidthL { mode: b }), j),
        ParserState::EscBitImageWidthL { mode } => (
            goto(m, ParserState::EscBitImageWidthH { mode, wl: b }),
            j,
        ),
        ParserState::EscBitImageWidthH { mode, wl } => {
            let width = (wl as int + 256 * b as int) as u16;
            let bpc: int = if mode == 32 || mode == 33 {
                3
            } else {
                1
            };
            let remaining = (width * bpc) as usize;
            if remaining == 0 {
                (goto(m, ParserState::Normal), j)
            } else {
                (
                    collect(
                        m,
                        ParserState::EscBitImageData {
                            mode,
                            width,
                            height: (bpc * 8) as u16,
                            remaining,
                        },
                    ),
                    j,
                )
            }
        },
        ParserState::EscBitImageData { mode, width, height, remaining } => {
            let buf = m.buf.push(b);
            if buf.len() >= remaining {
                let (m1, j1) = emit_raster(
                    ParserModel { buf, ..m },
                    j,
                    ((width + 7) / 8) as u32,
                    height as u32,
                    buf,
                );
                (goto(m1, ParserState::Normal), j1)
            } else {
                (ParserModel { buf, ..m }, j)
            }
        },
        ParserState::GsCharSize => on_gs_char_size(m, j, b),
        ParserState::GsInverse => on_gs_inverse(m, j, b),
        ParserState::GsCutType => on_gs_cut_type(m, j, b),
        ParserState::GsCutFeedParam => (
            goto(m, ParserState::Normal),
            log_cmd(m, j, seq![GS, 0x56, b], "GS V cut feed param (skipped)"@),
        ),
        ParserState::GsBarcodeHeight => (
            goto(ParserModel { bc_height: b, ..m }, ParserState::Normal),
            log_cmd(m, j, seq![GS, 0x68, b], "GS h height="@ + dec_text(b as nat)),
        ),
        ParserState::GsBarcodeWidth => (
            goto(ParserModel { bc_width: b, ..m }, ParserState::Normal),
            log_cmd(m, j, seq![GS, 0x77, b], "GS w width="@ + dec_text(b as nat)),
        ),
        ParserState::GsHriPosition => (
            goto(ParserModel { bc_hri: hri_of(b), ..m }, ParserState::Normal),
            log_cmd(m, j, seq![GS, 0x48, b], "GS H hri="@ + dec_text(b as nat)),
        ),
        ParserState::GsBarcodeFont => (
            goto(m, ParserState::Normal),
            log_cmd(m, j, seq![GS, 0x66, b], "GS f barcode font"@),
        ),
        ParserState::GsBarcodeTypeSelect => on_gs_k_type(m, j, b),
        ParserState::GsBarcodeNulTerm { btype } => {
            if b == NUL {
                let (m1, j1) = emit_barcode(m, j, btype, m.buf);
                (goto(m1, ParserState::Normal), j1)
            } else {
                (ParserModel { buf: m.buf.push(b), ..m }, j)
            }
        },
        ParserState::GsBarcodeNewLen { btype } => (
            collect(m, ParserState::GsBarcodeNewData { btype, remaining: b as usize }),
            j,
        ),
        ParserState::GsBarcodeNewData { btype, remaining } => {
            let buf = m.buf.push(b);
            if buf.len() >= remaining {
                let (m1, j1) = emit_barcode(ParserModel { buf, ..m }, j, btype, buf);
                (goto(m1, ParserState::Normal), j1)
            } else {
                (ParserModel { buf, ..m }, j)
            }
        },
        _ => step_qr(m, j, b),
    }
}

/// The QR and raster states.
pub open spec fn step_qr(m: ParserModel, j: JobView, b: u8) -> (ParserModel, JobView) {
    match m.state {
        ParserState::EscZVersion => (goto(m, ParserState::EscZEcc { v: b }), j),
        ParserState::EscZEcc { v } => (goto(m, ParserState::EscZSize { v, ec: escz_ec_of(b) }), j),
        ParserState::EscZSize { v, ec } => (
            goto(m, ParserState::EscZLenL { v, ec, size: clamp_size(b) }),
            j,
        ),
        ParserState::EscZLenL { v, ec, size } => (
            goto(m, ParserState::EscZLenH { v, ec, size, xl: b }),
            j,
        ),
        ParserState::EscZLenH { v, ec, size, xl } => {
            let len = (xl as int + 256 * b as int) as usize;
            if len == 0 {
                (goto(m, ParserState::Normal), j)
            } else {
                (collect(m, ParserState::EscZData { ec, size, remaining: len }), j)
            }
        },
        ParserState::EscZData { ec, size, remaining } => {
            let buf = m.buf.push(b);
            if buf.len() >= remaining {
                let (m1, j1) = flush_text(ParserModel { buf, ..m }, j);
                let data = lossy_decode(buf);
                let j2 = render_qr_warned(m1, j1, data, ec, size);
                let j3 = log_cmd(m1, j2, seq![], "ESC Z QR code data="@ + debug_text(data));
                (
                    goto(m1, ParserState::Normal),
                    push_el(
                        j3,
                        ElementView::QrCode {
                            data,
                            error_correction: ec,
                            module_size: size,
                            png_b64: ok_text(spec_render_qrcode(data, ec, size)),
                        },
                    ),
                )
            } else {
                (ParserModel { buf, ..m }, j)
            }
        },
        ParserState::GsExtFnType => (goto(m, ParserState::GsExtFnPL), j),
        ParserState::GsExtFnPL => (goto(m, ParserState::GsExtFnPH { pl: b }), j),
        ParserState::GsExtFnPH { pl } => (goto(m, ParserState::GsExtFnCN { pl, ph: b }), j),
        ParserState::GsExtFnCN { pl, ph } => (goto(m, ParserState::GsExtFnFN { pl, ph, cn: b }), j),
        ParserState::GsExtFnFN { pl, ph, cn } => on_gs_qr_fn(m, j, b, pl, ph),
        ParserState::GsQrModelN1 { remaining } => (
            goto(
                ParserModel { qr_model: b, ..m },
                if remaining > 1 {
                    ParserState::GsQrModelN2 { remaining: (remaining - 1) as usize }
                } else {
                    ParserState::Normal
                },
            ),
            j,
        ),
        ParserState::GsQrModelN2 { remaining } => (goto(m, then_skip(remaining)), j),
        ParserState::GsQrSize { remaining } => (
            goto(ParserModel { qr_size: clamp_size(b), ..m }, then_skip(remaining)),
            j,
        ),
        ParserState::GsQrEc { remaining } => (
            goto(ParserModel { qr_ec: qr_ec_of(b), ..m }, then_skip(remaining)),
            j,
        ),
        ParserState::GsQrStore { remaining } => {
            let buf = m.buf.push(b);
            if buf.len() >= remaining {
                (
                    goto(ParserModel { buf, qr_data: stored_qr_data(buf), ..m }, ParserState::Normal),
                    j,
                )
            } else {
                (ParserModel { buf, ..m }, j)
            }
        },
        ParserState::GsQrPrint { remaining } => (
            goto(
                m,
                if remaining > 1 {
                    ParserState::GsQrPrint { remaining: (remaining - 1) as usize }
                } else {
                    ParserState::Normal
                },
            ),
            j,
        ),
        ParserState::GsQrSkip { remaining } => (goto(m, then_skip(remaining)), j),
        _ => step_raster(m, j, b),
    }
}

/// The raster image states.
pub open spec fn step_raster(m: ParserModel, j: JobView, b: u8) -> (ParserModel, JobView) {
    match m.state {
        ParserState::GsRasterExpectZero => (
            goto(
                m,
                if b == 0x30 || b == 0 {
                    ParserState::GsRasterMode
                } else {
                    ParserState::GsRasterXL { mode: b }
                },
            ),
            j,
        ),
        ParserState::GsRasterMode => (goto(m, ParserState::GsRasterXL { mode: b }), j),
        ParserState::GsRasterXL { mode } => (goto(m, ParserState::GsRasterXH { mode, xl: b }), j),
        ParserState::GsRasterXH { mode, xl } => (
            goto(m, ParserState::GsRasterYL { mode, xl, xh: b }),
            j,
        ),
        ParserState::GsRasterYL { mode, xl, xh } => (
            goto(m, ParserState::GsRasterYH { mode, xl, xh, yl: b }),
            j,
        ),
        ParserState::GsRasterYH { mode, xl, xh, yl } => {
            let width_bytes = (xl as int + 256 * xh as int) as u32;
            let height = (yl as int + 256 * b as int) as u32;
            let remaining = (width_bytes * height) as usize;
            if remaining == 0 {
                (goto(m, ParserState::Normal), j)
            } else {
                (collect(m, ParserState::GsRasterData { width_bytes, height, remaining }), j)
            }
        },
        ParserState::GsRasterData { width_bytes, height, remaining } => {
            let buf = m.buf.push(b);
            if buf.len() >= remaining {
                let (m1, j1) = emit_raster(ParserModel { buf, ..m }, j, width_bytes, height, buf);
                (goto(m1, ParserState::Normal), j1)
            } else {
                (ParserModel { buf, ..m }, j)
            }
        },
        _ => (m, j),
    }
}

/// What the parser keeps true between bytes: the raster dimensions it reads
/// from two bytes each stay within 16 bits.
pub open spec fn model_wf(m: ParserModel) -> bool {
    m.state matches ParserState::GsRasterData { width_bytes, height, remaining } ==> width_bytes
        <= 0xFFFF && height <= 0xFFFF
}

// ── A whole job ─────────────────────────────────────────────────────────────

/// One byte, then on to the next offset.
pub open spec fn advance(m: ParserModel, j: JobView, b: u8) -> (ParserModel, JobView) {
    let (m1, j1) = step(m, j, b);
    (ParserModel { offset: (m1.offset + 1) as usize, ..m1 }, j1)
}

/// The bytes, one after the other.
pub open spec fn run(m: ParserModel, j: JobView, bytes: Seq<u8>) -> (ParserModel, JobView)
    decreases bytes.len(),
{
    if bytes.len() == 0 {
        (m, j)
    } else {
        let (m1, j1) = run(m, j, bytes.drop_last());
        advance(m1, j1, bytes.last())
    }
}

/// A whole job: every raw byte, then whatever text is left.
#[verifier::opaque]
pub open spec fn parse_job(m: ParserModel, j: JobView) -> (ParserModel, JobView) {
    let (m1, j1) = run(m, j, j.raw_bytes);
    flush_text(m1, j1)
}

} // verus!
