// What holds of every run of the ESC/POS machine: a job only grows, the paper
// never changes, every style and QR size stays within what a printer accepts,
// a job's content depends on its bytes alone, and `ESC @` resets the printer.
use crate::escpos_model::{
    advance, emit_barcode, emit_raster, flush_text, initial_model, on_esc, on_gs, on_normal,
    parse_job, process_line, process_lines, run, step, step_data, step_qr, step_raster,
    on_esc_print_mode, qr_tag, qrcode_tag, raster_pixel, raster_pixels, raster_png, upi_tag, warning_text, ParserModel, ParserState, ESC, GS, LF,
};
use crate::imaging::{base64_text, gray_png_output};
use crate::text::hex_text;
use crate::print_job::{fresh_job, BarcodeType, QrErrorCorrection, ElementView, JobView, SourceView, Timestamp};
use crate::printer_state::{default_printer, style_of, Font, PaperWidth, TextStyle};
use crate::renderer::renderable_element;
use vstd::prelude::*;

verus! {

/// `a` is an initial part of `b`.
pub open spec fn starts_with<A>(b: Seq<A>, a: Seq<A>) -> bool {
    a.len() <= b.len() && forall|i: int| 0 <= i < a.len() ==> #[trigger] b[i] == a[i]
}

/// `j2` is `j` with elements, commands and warnings added at the end, and
/// nothing else changed.
pub open spec fn job_grows(j: JobView, j2: JobView) -> bool {
    &&& j2.id == j.id
    &&& j2.received_at == j.received_at
    &&& j2.source == j.source
    &&& j2.raw_bytes == j.raw_bytes
    &&& j2.byte_count == j.byte_count
    &&& starts_with(j2.elements, j.elements)
    &&& starts_with(j2.commands, j.commands)
    &&& starts_with(j2.warnings, j.warnings)
}

/// Width and height multipliers 1 to 8, underline 0 to 2.
pub open spec fn style_in_range(s: TextStyle) -> bool {
    &&& 1 <= s.char_width_multiplier <= 8
    &&& 1 <= s.char_height_multiplier <= 8
    &&& s.underline <= 2
}

/// Text in a style in range; QR codes with modules of 1 to 16 dots; dot
/// feeds and image widths below 2^24 dots.
pub open spec fn element_in_range(e: ElementView) -> bool {
    match e {
        ElementView::Text { content, style } => style_in_range(style),
        ElementView::QrCode { data, error_correction, module_size, png_b64 } => 1 <= module_size
            <= 16,
        ElementView::FeedDots { dots } => dots < 0x100_0000,
        ElementView::Image { width_dots, height_dots, png_b64 } => width_dots < 0x100_0000,
        _ => true,
    }
}

pub open spec fn elements_in_range(es: Seq<ElementView>) -> bool {
    forall|i: int| 0 <= i < es.len() ==> element_in_range(#[trigger] es[i])
}

/// The printer's style, the stored QR size and any QR size being read are
/// in range, and a raster image being read is at most 0xFFFF bytes wide.
pub open spec fn model_in_range(m: ParserModel) -> bool {
    &&& style_in_range(style_of(m.printer))
    &&& 1 <= m.qr_size <= 16
    &&& match m.state {
        ParserState::EscZLenL { v, ec, size } => 1 <= size <= 16,
        ParserState::EscZLenH { v, ec, size, xl } => 1 <= size <= 16,
        ParserState::EscZData { ec, size, remaining } => 1 <= size <= 16,
        ParserState::GsRasterData { width_bytes, height, remaining } => width_bytes <= 0xFFFF,
        _ => true,
    }
}

/// What one transition keeps: the job only grows, the paper stays, the
/// parser stays in range where it was, and so do the elements where the
/// parser was in range too.
pub open spec fn keeps(m: ParserModel, j: JobView, r: (ParserModel, JobView)) -> bool {
    &&& job_grows(j, r.1)
    &&& r.0.printer.paper_width == m.printer.paper_width
    &&& model_in_range(m) ==> model_in_range(r.0)
    &&& (model_in_range(m) && elements_in_range(j.elements)) ==> elements_in_range(
        r.1.elements,
    )
}

proof fn lemma_grows_trans(a: JobView, b: JobView, c: JobView)
    requires
        job_grows(a, b),
        job_grows(b, c),
    ensures
        job_grows(a, c),
{
}

proof fn lemma_process_lines(style: TextStyle, j: JobView, lines: Seq<Seq<char>>)
    ensures
        job_grows(j, process_lines(style, j, lines)),
        style_in_range(style) && elements_in_range(j.elements) ==> elements_in_range(
            process_lines(style, j, lines).elements,
        ),
    decreases lines.len(),
{
    if lines.len() > 0 {
        let j1 = process_lines(style, j, lines.drop_last());
        lemma_process_lines(style, j, lines.drop_last());
        let j2 = process_line(style, j1, lines.last());
        assert(job_grows(j1, j2));
        lemma_grows_trans(j, j1, j2);
    }
}

proof fn lemma_flush_text(m: ParserModel, j: JobView)
    ensures
        keeps(m, j, flush_text(m, j)),
{
    if m.line_buf.len() > 0 {
        lemma_process_lines(style_of(m.printer), j, crate::text::split_lines(m.line_buf));
    }
}

proof fn lemma_emit_raster(m: ParserModel, j: JobView, w: u32, h: u32, raw: Seq<u8>)
    ensures
        job_grows(j, emit_raster(m, j, w, h, raw).1),
        emit_raster(m, j, w, h, raw).0.printer == m.printer,
        model_in_range(m) ==> model_in_range(emit_raster(m, j, w, h, raw).0),
        model_in_range(m) && elements_in_range(j.elements) && w <= 0xFFFF ==> elements_in_range(
            emit_raster(m, j, w, h, raw).1.elements,
        ),
{
    lemma_flush_text(m, j);
}

proof fn lemma_emit_barcode(m: ParserModel, j: JobView, t: BarcodeType, raw: Seq<u8>)
    ensures
        keeps(m, j, emit_barcode(m, j, t, raw)),
{
    lemma_flush_text(m, j);
    let r = crate::barcode::spec_render_barcode(t, crate::text::lossy_decode(raw));
    if let Err(e) = r {
        let j1 = crate::escpos_model::warn(
            m,
            j,
            "Barcode render failed ("@ + crate::escpos_model::barcode_type_name(t) + " "@
                + crate::text::debug_text(crate::text::lossy_decode(raw)) + "): "@ + e,
        );
        lemma_flush_text(m, j1);
        lemma_grows_trans(j, j1, flush_text(m, j1).1);
    }
}

proof fn lemma_on_normal(m: ParserModel, j: JobView, b: u8)
    ensures
        keeps(m, j, on_normal(m, j, b)),
{
    lemma_flush_text(m, j);
}

proof fn lemma_on_esc(m: ParserModel, j: JobView, b: u8)
    ensures
        keeps(m, j, on_esc(m, j, b)),
{
    lemma_flush_text(m, j);
}

proof fn lemma_on_gs(m: ParserModel, j: JobView, b: u8)
    ensures
        keeps(m, j, on_gs(m, j, b)),
{
}

proof fn lemma_step_raster(m: ParserModel, j: JobView, b: u8)
    ensures
        keeps(m, j, step_raster(m, j, b)),
{
    if let ParserState::GsRasterData { width_bytes, height, remaining } = m.state {
        let buf = m.buf.push(b);
        lemma_emit_raster(ParserModel { buf, ..m }, j, width_bytes, height, buf);
    }
}

#[verifier::rlimit(30)]
proof fn lemma_step_qr(m: ParserModel, j: JobView, b: u8)
    ensures
        keeps(m, j, step_qr(m, j, b)),
{
    match m.state {
        ParserState::EscZData { ec, size, remaining } => {
            let buf = m.buf.push(b);
            lemma_flush_text(ParserModel { buf, ..m }, j);
        },
        ParserState::GsExtFnFN { pl, ph, cn } => {
            lemma_flush_text(m, j);
        },
        ParserState::EscZVersion | ParserState::EscZEcc { .. } | ParserState::EscZSize { .. }
        | ParserState::EscZLenL { .. } | ParserState::EscZLenH { .. } | ParserState::GsExtFnType
        | ParserState::GsExtFnPL | ParserState::GsExtFnPH { .. } | ParserState::GsExtFnCN { .. }
        | ParserState::GsQrModelN1 { .. } | ParserState::GsQrModelN2 { .. } | ParserState::GsQrSize {
            ..
        } | ParserState::GsQrEc { .. } | ParserState::GsQrStore { .. } | ParserState::GsQrPrint {
            ..
        } | ParserState::GsQrSkip { .. } => {},
        _ => {
            lemma_step_raster(m, j, b);
        },
    }
}

#[verifier::rlimit(30)]
proof fn lemma_step_data(m: ParserModel, j: JobView, b: u8)
    ensures
        keeps(m, j, step_data(m, j, b)),
{
    match m.state {
        ParserState::EscBitImageData { mode, width, height, remaining } => {
            let buf = m.buf.push(b);
            lemma_emit_raster(
                ParserModel { buf, ..m },
                j,
                ((width + 7) / 8) as u32,
                height as u32,
                buf,
            );
        },
        ParserState::GsCutType | ParserState::GsCharSize | ParserState::GsInverse => {
            lemma_flush_text(m, j);
            if let ParserState::GsCharSize = m.state {
                assert(((b >> 4u8) & 7u8) <= 7) by (bit_vector);
                assert((b & 7u8) <= 7) by (bit_vector);
            }
        },
        ParserState::GsBarcodeNulTerm { btype } => {
            lemma_emit_barcode(m, j, btype, m.buf);
        },
        ParserState::GsBarcodeNewData { btype, remaining } => {
            let buf = m.buf.push(b);
            lemma_emit_barcode(ParserModel { buf, ..m }, j, btype, buf);
        },
        ParserState::EscBitImageMode | ParserState::EscBitImageWidthL { .. }
        | ParserState::EscBitImageWidthH { .. } | ParserState::GsCutFeedParam
        | ParserState::GsBarcodeHeight | ParserState::GsBarcodeWidth | ParserState::GsHriPosition
        | ParserState::GsBarcodeFont | ParserState::GsBarcodeTypeSelect
        | ParserState::GsBarcodeNewLen { .. } => {},
        _ => {
            lemma_step_qr(m, j, b);
        },
    }
}

/// One byte keeps what a job and a parser keep.
pub proof fn law_step_keeps(m: ParserModel, j: JobView, b: u8)
    ensures
        keeps(m, j, step(m, j, b)),
{
    reveal(step);
    match m.state {
        ParserState::Normal => lemma_on_normal(m, j, b),
        ParserState::EscPending => lemma_on_esc(m, j, b),
        ParserState::GsPending => lemma_on_gs(m, j, b),
        ParserState::EscAlign | ParserState::EscFeedLines | ParserState::EscBold
        | ParserState::EscUnderline | ParserState::EscPrintMode | ParserState::EscFont => {
            lemma_flush_text(m, j)
        },
        ParserState::EscLineSpacing | ParserState::EscFeedDots | ParserState::EscCodePage
        | ParserState::EscUpsideDown | ParserState::EscSkipOne | ParserState::EscSkipTwo {
            ..
        } => {},
        _ => lemma_step_data(m, j, b),
    }
}

/// Any run of bytes: the job only grows (elements, commands and warnings are
/// added, never changed or taken away; its id, time, source and bytes stay),
/// the paper never changes, a parser whose printer style (multipliers 1 to 8,
/// underline 0 to 2) and QR size (1 to 16) are in range keeps them in range
/// whatever the job holds, and from such a parser the elements it adds are
/// in range too.
pub proof fn law_run_keeps(m: ParserModel, j: JobView, bytes: Seq<u8>)
    ensures
        keeps(m, j, run(m, j, bytes)),
    decreases bytes.len(),
{
    if bytes.len() > 0 {
        let (m1, j1) = run(m, j, bytes.drop_last());
        law_run_keeps(m, j, bytes.drop_last());
        law_step_keeps(m1, j1, bytes.last());
        lemma_grows_trans(j, j1, advance(m1, j1, bytes.last()).1);
    }
}

/// Feeding bytes in two parts does what feeding them at once does: the
/// machine reads a stream, one byte at a time.
pub proof fn law_run_split(m: ParserModel, j: JobView, a: Seq<u8>, b: Seq<u8>)
    ensures
        run(m, j, a + b) == run(run(m, j, a).0, run(m, j, a).1, b),
    decreases b.len(),
{
    if b.len() == 0 {
        assert(a + b =~= a);
    } else {
        assert((a + b).drop_last() =~= a + b.drop_last());
        assert((a + b).last() == b.last());
        law_run_split(m, j, a, b.drop_last());
    }
}

/// A whole job parsed by a fresh parser: it keeps its id, time, source and
/// bytes; every text element is in a style with multipliers 1 to 8 and
/// underline 0 to 2; every QR code has modules of 1 to 16 dots; and the
/// parser ends on the paper it began with.
pub proof fn law_parse_in_range(
    paper: PaperWidth,
    id: Seq<char>,
    at: Timestamp,
    source: SourceView,
    raw: Seq<u8>,
)
    ensures
        ({
            let j0 = fresh_job(id, at, source, raw);
            let (m1, j1) = parse_job(initial_model(paper), j0);
            &&& job_grows(j0, j1)
            &&& elements_in_range(j1.elements)
            &&& m1.printer.paper_width == paper
        }),
{
    reveal(parse_job);
    let m0 = initial_model(paper);
    let j0 = fresh_job(id, at, source, raw);
    law_run_keeps(m0, j0, raw);
    let (m1, j1) = run(m0, j0, raw);
    lemma_flush_text(m1, j1);
    lemma_grows_trans(j0, j1, flush_text(m1, j1).1);
}

/// Every job a fresh parser makes can be drawn: each of its elements is one
/// that `ReceiptRenderer::render_html` draws exactly.
pub proof fn law_parsed_jobs_render(
    paper: PaperWidth,
    id: Seq<char>,
    at: Timestamp,
    source: SourceView,
    raw: Seq<u8>,
)
    ensures
        ({
            let j1 = parse_job(initial_model(paper), fresh_job(id, at, source, raw)).1;
            forall|i: int|
                0 <= i < j1.elements.len() ==> renderable_element(#[trigger] j1.elements[i])
        }),
{
    law_parse_in_range(paper, id, at, source, raw);
    let j1 = parse_job(initial_model(paper), fresh_job(id, at, source, raw)).1;
    assert forall|i: int| 0 <= i < j1.elements.len() implies renderable_element(
        #[trigger] j1.elements[i],
    ) by {
        assert(element_in_range(j1.elements[i]));
    }
}

// ── What a job's content depends on ────────────────────────────────────────

/// The same elements, commands and warnings.
pub open spec fn same_content(j1: JobView, j2: JobView) -> bool {
    &&& j1.elements == j2.elements
    &&& j1.commands == j2.commands
    &&& j1.warnings == j2.warnings
}

/// Two jobs with the same content, given the same parser and byte, come out
/// with the same content and leave the same parser.
pub open spec fn agree(r1: (ParserModel, JobView), r2: (ParserModel, JobView)) -> bool {
    r1.0 == r2.0 && same_content(r1.1, r2.1)
}

proof fn lemma_process_lines_agree(
    style: TextStyle,
    j1: JobView,
    j2: JobView,
    lines: Seq<Seq<char>>,
)
    requires
        same_content(j1, j2),
    ensures
        same_content(process_lines(style, j1, lines), process_lines(style, j2, lines)),
    decreases lines.len(),
{
    if lines.len() > 0 {
        lemma_process_lines_agree(style, j1, j2, lines.drop_last());
    }
}

proof fn lemma_flush_agree(m: ParserModel, j1: JobView, j2: JobView)
    requires
        same_content(j1, j2),
    ensures
        agree(flush_text(m, j1), flush_text(m, j2)),
{
    if m.line_buf.len() > 0 {
        lemma_process_lines_agree(
            style_of(m.printer),
            j1,
            j2,
            crate::text::split_lines(m.line_buf),
        );
    }
}

proof fn lemma_emit_raster_agree(
    m: ParserModel,
    j1: JobView,
    j2: JobView,
    w: u32,
    h: u32,
    raw: Seq<u8>,
)
    requires
        same_content(j1, j2),
    ensures
        agree(emit_raster(m, j1, w, h, raw), emit_raster(m, j2, w, h, raw)),
{
    lemma_flush_agree(m, j1, j2);
}

proof fn lemma_emit_barcode_agree(
    m: ParserModel,
    j1: JobView,
    j2: JobView,
    t: BarcodeType,
    raw: Seq<u8>,
)
    requires
        same_content(j1, j2),
    ensures
        agree(emit_barcode(m, j1, t, raw), emit_barcode(m, j2, t, raw)),
{
    lemma_flush_agree(m, j1, j2);
    let data = crate::text::lossy_decode(raw);
    if let Err(e) = crate::barcode::spec_render_barcode(t, data) {
        let msg = "Barcode render failed ("@ + crate::escpos_model::barcode_type_name(t) + " "@
            + crate::text::debug_text(data) + "): "@ + e;
        lemma_flush_agree(
            m,
            crate::escpos_model::warn(m, j1, msg),
            crate::escpos_model::warn(m, j2, msg),
        );
    }
}

#[verifier::rlimit(30)]
proof fn lemma_step_qr_agree(m: ParserModel, j1: JobView, j2: JobView, b: u8)
    requires
        same_content(j1, j2),
    ensures
        agree(step_qr(m, j1, b), step_qr(m, j2, b)),
{
    match m.state {
        ParserState::EscZData { ec, size, remaining } => {
            lemma_flush_agree(ParserModel { buf: m.buf.push(b), ..m }, j1, j2);
        },
        ParserState::GsExtFnFN { pl, ph, cn } => {
            lemma_flush_agree(m, j1, j2);
        },
        ParserState::GsRasterData { width_bytes, height, remaining } => {
            let buf = m.buf.push(b);
            lemma_emit_raster_agree(ParserModel { buf, ..m }, j1, j2, width_bytes, height, buf);
        },
        _ => {},
    }
}

#[verifier::rlimit(30)]
proof fn lemma_step_data_agree(m: ParserModel, j1: JobView, j2: JobView, b: u8)
    requires
        same_content(j1, j2),
    ensures
        agree(step_data(m, j1, b), step_data(m, j2, b)),
{
    match m.state {
        ParserState::EscBitImageData { mode, width, height, remaining } => {
            let buf = m.buf.push(b);
            lemma_emit_raster_agree(
                ParserModel { buf, ..m },
                j1,
                j2,
                ((width + 7) / 8) as u32,
                height as u32,
                buf,
            );
        },
        ParserState::GsCutType | ParserState::GsCharSize | ParserState::GsInverse => {
            lemma_flush_agree(m, j1, j2);
        },
        ParserState::GsBarcodeNulTerm { btype } => {
            lemma_emit_barcode_agree(m, j1, j2, btype, m.buf);
        },
        ParserState::GsBarcodeNewData { btype, remaining } => {
            let buf = m.buf.push(b);
            lemma_emit_barcode_agree(ParserModel { buf, ..m }, j1, j2, btype, buf);
        },
        ParserState::EscBitImageMode | ParserState::EscBitImageWidthL { .. }
        | ParserState::EscBitImageWidthH { .. } | ParserState::GsCutFeedParam
        | ParserState::GsBarcodeHeight | ParserState::GsBarcodeWidth | ParserState::GsHriPosition
        | ParserState::GsBarcodeFont | ParserState::GsBarcodeTypeSelect
        | ParserState::GsBarcodeNewLen { .. } => {},
        _ => {
            lemma_step_qr_agree(m, j1, j2, b);
        },
    }
}

proof fn lemma_step_agree(m: ParserModel, j1: JobView, j2: JobView, b: u8)
    requires
        same_content(j1, j2),
    ensures
        agree(step(m, j1, b), step(m, j2, b)),
{
    reveal(step);
    match m.state {
        ParserState::Normal | ParserState::EscPending | ParserState::EscAlign
        | ParserState::EscFeedLines | ParserState::EscBold | ParserState::EscUnderline
        | ParserState::EscPrintMode | ParserState::EscFont => lemma_flush_agree(m, j1, j2),
        ParserState::GsPending | ParserState::EscLineSpacing | ParserState::EscFeedDots
        | ParserState::EscCodePage | ParserState::EscUpsideDown | ParserState::EscSkipOne
        | ParserState::EscSkipTwo { .. } => {},
        _ => lemma_step_data_agree(m, j1, j2, b),
    }
}

proof fn lemma_run_agree(m: ParserModel, j1: JobView, j2: JobView, bytes: Seq<u8>)
    requires
        same_content(j1, j2),
    ensures
        agree(run(m, j1, bytes), run(m, j2, bytes)),
    decreases bytes.len(),
{
    if bytes.len() > 0 {
        lemma_run_agree(m, j1, j2, bytes.drop_last());
        let (m1, k1) = run(m, j1, bytes.drop_last());
        let (m2, k2) = run(m, j2, bytes.drop_last());
        lemma_step_agree(m1, k1, k2, bytes.last());
    }
}

/// What a job holds after parsing (its elements, the commands read and the
/// warnings) depends on its bytes and the paper alone: not on its id, the
/// time it came in or where it came from. Nothing is carried over from one
/// job to the next.
pub proof fn law_parse_depends_on_bytes_alone(
    paper: PaperWidth,
    raw: Seq<u8>,
    id1: Seq<char>,
    at1: Timestamp,
    source1: SourceView,
    id2: Seq<char>,
    at2: Timestamp,
    source2: SourceView,
)
    ensures
        agree(
            parse_job(initial_model(paper), fresh_job(id1, at1, source1, raw)),
            parse_job(initial_model(paper), fresh_job(id2, at2, source2, raw)),
        ),
{
    reveal(parse_job);
    let m0 = initial_model(paper);
    let j1 = fresh_job(id1, at1, source1, raw);
    let j2 = fresh_job(id2, at2, source2, raw);
    lemma_run_agree(m0, j1, j2, raw);
    let (ma, ka) = run(m0, j1, raw);
    let (mb, kb) = run(m0, j2, raw);
    lemma_flush_agree(ma, ka, kb);
}

/// The command bytes that may follow `ESC`.
pub open spec fn known_esc_command(b: u8) -> bool {
    b == 0x40 || b == 0x61 || b == 0x45 || b == 0x47 || b == 0x2D || b == 0x21 || b == 0x4D
        || b == 0x32 || b == 0x33 || b == 0x64 || b == 0x4A || b == 0x74 || b == 0x7B || b == 0x56
        || b == 0x70 || b == 0x2A || b == 0x5A || b == 0x69 || b == 0x6D || b == 0x72 || b == 0x3D
        || b == 0x3F || b == 0x4B || b == 0x75 || b == 0x63
}

/// The command bytes that may follow `GS`.
pub open spec fn known_gs_command(b: u8) -> bool {
    b == 0x21 || b == 0x42 || b == 0x56 || b == 0x68 || b == 0x77 || b == 0x48 || b == 0x66
        || b == 0x6B || b == 0x28 || b == 0x76 || b == 0x4C || b == 0x50 || b == 0x61 || b == 0x72
        || b == 0x49 || b == 0x65
}

/// The warning for an unknown command byte: `[+OOOO] Unknown ESC 0xNN ('c')`
/// (or `GS`), with the offset of the byte.
pub open spec fn unknown_command_warning(m: ParserModel, prefix: Seq<char>, b: u8) -> Seq<char> {
    warning_text(m, prefix + hex_text(b as nat, 2) + " ('"@ + seq![b as char] + "')"@)
}

/// An unknown command after `ESC` is answered with one warning that names
/// the byte and its offset; the byte is dropped, nothing is printed or
/// logged, the printer is unchanged, and parsing goes on in normal mode.
pub proof fn law_unknown_esc_warns(m: ParserModel, j: JobView, b: u8)
    requires
        m.state == ParserState::EscPending,
        !known_esc_command(b),
    ensures
        ({
            let (m2, j2) = step(m, j, b);
            &&& m2 == (ParserModel { state: ParserState::Normal, ..m })
            &&& j2 == (JobView {
                warnings: j.warnings.push(unknown_command_warning(m, "Unknown ESC 0x"@, b)),
                ..j
            })
        }),
{
    reveal(step);
}

/// An unknown command after `GS` is answered in the same way: one warning,
/// and parsing goes on in normal mode with nothing else changed.
pub proof fn law_unknown_gs_warns(m: ParserModel, j: JobView, b: u8)
    requires
        m.state == ParserState::GsPending,
        !known_gs_command(b),
    ensures
        ({
            let (m2, j2) = step(m, j, b);
            &&& m2 == (ParserModel { state: ParserState::Normal, ..m })
            &&& j2 == (JobView {
                warnings: j.warnings.push(unknown_command_warning(m, "Unknown GS 0x"@, b)),
                ..j
            })
        }),
{
    reveal(step);
}


// ── A line of plain text ────────────────────────────────────────────────────

/// Printable ASCII without `[`, the character every QR tag starts with.
pub open spec fn plain_text_bytes(s: Seq<u8>) -> bool {
    forall|i: int| 0 <= i < s.len() ==> 0x20 <= #[trigger] s[i] <= 0x7E && s[i] != 0x5B
}

/// The characters that bytes of plain text print as.
pub open spec fn ascii_chars(s: Seq<u8>) -> Seq<char> {
    s.map_values(|b: u8| b as char)
}

proof fn lemma_run_plain(m: ParserModel, j: JobView, s: Seq<u8>)
    requires
        m.state == ParserState::Normal,
        plain_text_bytes(s),
        m.offset + s.len() <= usize::MAX,
    ensures
        run(m, j, s) == (ParserModel {
            line_buf: m.line_buf + ascii_chars(s),
            offset: (m.offset + s.len()) as usize,
            ..m
        }, j),
    decreases s.len(),
{
    if s.len() == 0 {
        assert(m.line_buf + ascii_chars(s) =~= m.line_buf);
        assert(run(m, j, s).0 =~= (ParserModel {
            line_buf: m.line_buf + ascii_chars(s),
            offset: (m.offset + s.len()) as usize,
            ..m
        }));
    } else {
        let p = s.drop_last();
        lemma_run_plain(m, j, p);
        let (m1, j1) = run(m, j, p);
        assert(step(m1, j1, s.last()) == on_normal(m1, j1, s.last())) by {
            reveal(step);
        }
        assert(ascii_chars(s) =~= ascii_chars(p).push(s.last() as char));
        assert(run(m, j, s).0 =~= (ParserModel {
            line_buf: m.line_buf + ascii_chars(s),
            offset: (m.offset + s.len()) as usize,
            ..m
        }));
    }
}

/// A line of plain text read in normal mode with nothing pending prints as
/// one text element holding exactly its characters, in the printer's style,
/// followed by a one-line feed; the printer itself is unchanged and nothing
/// is left pending. (An empty line gives the feed alone.)
pub proof fn law_line_of_text(m: ParserModel, j: JobView, s: Seq<u8>)
    requires
        m.state == ParserState::Normal,
        m.line_buf.len() == 0,
        plain_text_bytes(s),
        m.offset + s.len() + 1 <= usize::MAX,
    ensures
        ({
            let (m2, j2) = run(m, j, s.push(LF));
            let text = ElementView::Text { content: ascii_chars(s), style: style_of(m.printer) };
            &&& m2.printer == m.printer
            &&& m2.state == ParserState::Normal
            &&& m2.line_buf.len() == 0
            &&& j2.elements == (if s.len() == 0 {
                j.elements
            } else {
                j.elements.push(text)
            }).push(ElementView::LineFeed { lines: 1 })
        }),
{
    lemma_run_plain(m, j, s);
    let (m1, j1) = run(m, j, s);
    assert(s.push(LF).drop_last() =~= s);
    assert(step(m1, j1, LF) == on_normal(m1, j1, LF)) by {
        reveal(step);
    }
    let c = ascii_chars(s);
    assert(m1.line_buf =~= c);
    if s.len() > 0 {
        assert forall|i: int| !crate::text::occurs_at(c, upi_tag(), i) by {
            if crate::text::occurs_at(c, upi_tag(), i) {
                assert(c.subrange(i, i + upi_tag().len())[0] == c[i]);
            }
        }
        assert forall|i: int| !crate::text::occurs_at(c, qr_tag(), i) by {
            if crate::text::occurs_at(c, qr_tag(), i) {
                assert(c.subrange(i, i + qr_tag().len())[0] == c[i]);
            }
        }
        assert forall|i: int| !crate::text::occurs_at(c, qrcode_tag(), i) by {
            if crate::text::occurs_at(c, qrcode_tag(), i) {
                assert(c.subrange(i, i + qrcode_tag().len())[0] == c[i]);
            }
        }
    }
}

// ── Raster dots ─────────────────────────────────────────────────────────────

/// The weight of dot `j` (0 is the leftmost) in its byte: 128 for the first
/// dot down to 1 for the eighth.
pub open spec fn dot_weight(j: int) -> int {
    if j == 0 {
        128
    } else if j == 1 {
        64
    } else if j == 2 {
        32
    } else if j == 3 {
        16
    } else if j == 4 {
        8
    } else if j == 5 {
        4
    } else if j == 6 {
        2
    } else {
        1
    }
}

proof fn lemma_bit_test(b: u8, c: int)
    requires
        0 <= c < 8,
    ensures
        (b & (1u8 << ((7 - c) as u8)) != 0) == ((b as int / dot_weight(c)) % 2 == 1),
{
    if c == 0 {
        assert((b & (1u8 << 7u8) != 0) == ((b / 128u8) % 2 == 1)) by (bit_vector);
    } else if c == 1 {
        assert((b & (1u8 << 6u8) != 0) == ((b / 64u8) % 2 == 1)) by (bit_vector);
    } else if c == 2 {
        assert((b & (1u8 << 5u8) != 0) == ((b / 32u8) % 2 == 1)) by (bit_vector);
    } else if c == 3 {
        assert((b & (1u8 << 4u8) != 0) == ((b / 16u8) % 2 == 1)) by (bit_vector);
    } else if c == 4 {
        assert((b & (1u8 << 3u8) != 0) == ((b / 8u8) % 2 == 1)) by (bit_vector);
    } else if c == 5 {
        assert((b & (1u8 << 2u8) != 0) == ((b / 4u8) % 2 == 1)) by (bit_vector);
    } else if c == 6 {
        assert((b & (1u8 << 1u8) != 0) == ((b / 2u8) % 2 == 1)) by (bit_vector);
    } else {
        assert((b & (1u8 << 0u8) != 0) == (b % 2 == 1)) by (bit_vector);
    }
}

/// Raster data: each byte holds eight dots of a row, the most significant
/// bit first, rows one after the other, `width_bytes` bytes each. Pixel `i`
/// of the image is black (0) exactly when its dot's bit is set, and white
/// (255) when it is clear or its byte is missing.
pub proof fn law_raster_dots(width_bytes: nat, raw: Seq<u8>, i: int)
    requires
        width_bytes >= 1,
        0 <= i,
    ensures
        ({
            let row = i / (8 * width_bytes) as int;
            let col = i % (8 * width_bytes) as int;
            let k = row * width_bytes + col / 8;
            let byte: int = if k < raw.len() {
                raw[k] as int
            } else {
                0
            };
            raster_pixel(width_bytes, raw, i) == (if (byte / dot_weight(col % 8)) % 2 == 1 {
                0u8
            } else {
                255u8
            })
        }),
{
    let wd = (width_bytes * 8) as int;
    let col = i % wd;
    let k = (i / wd) * width_bytes + col / 8;
    let b: u8 = if k < raw.len() {
        raw[k]
    } else {
        0
    };
    assert(0 <= col % 8 < 8);
    lemma_bit_test(b, col % 8);
}

/// The dot of a raster at pixel `i`: black (0) when its bit is set, white
/// (255) when it is clear or its byte is missing.
pub open spec fn raster_dot(width_bytes: nat, raw: Seq<u8>, i: int) -> u8 {
    let row = i / (8 * width_bytes) as int;
    let col = i % (8 * width_bytes) as int;
    let k = row * width_bytes + col / 8;
    let byte: int = if k < raw.len() {
        raw[k] as int
    } else {
        0
    };
    if (byte / dot_weight(col % 8)) % 2 == 1 {
        0u8
    } else {
        255u8
    }
}

/// The image of a raster `width_bytes` bytes wide and `height` rows high:
/// a grey PNG `8 * width_bytes` pixels wide whose pixels, row by row, are the
/// raster's dots, as base64 text.
pub proof fn law_raster_image(width_bytes: u32, height: u32, raw: Seq<u8>)
    requires
        width_bytes >= 1,
        width_bytes * 8 * height <= usize::MAX,
    ensures
        ({
            let p = raster_pixels(width_bytes as nat, height as nat, raw);
            &&& p.len() == 8 * width_bytes * height
            &&& forall|i: int|
                0 <= i < p.len() ==> #[trigger] p[i] == raster_dot(width_bytes as nat, raw, i)
            &&& raster_png(width_bytes, height, raw) == base64_text(
                gray_png_output((width_bytes * 8) as u32, height, p).0,
            )
        }),
{
    let p = raster_pixels(width_bytes as nat, height as nat, raw);
    assert forall|i: int| 0 <= i < p.len() implies #[trigger] p[i] == raster_dot(
        width_bytes as nat,
        raw,
        i,
    ) by {
        law_raster_dots(width_bytes as nat, raw, i);
    }
}

proof fn lemma_run_push(m: ParserModel, j: JobView, s: Seq<u8>, b: u8)
    ensures
        run(m, j, s.push(b)) == advance(run(m, j, s).0, run(m, j, s).1, b),
{
    assert(s.push(b).drop_last() =~= s);
}

/// `ESC ! n` read in normal mode sets the print mode bit by bit: bit 0
/// selects font B, bit 3 bold, bit 4 double height, bit 5 double width and
/// bit 7 underline; a clear bit selects font A, no bold, single height and
/// width, no underline. Alignment, inverse printing, line spacing, code page
/// and paper stay as they were, and the parser is back in normal mode.
pub proof fn law_esc_print_mode_bits(m: ParserModel, j: JobView, n: u8)
    requires
        m.state == ParserState::Normal,
        m.offset + 3 <= usize::MAX,
    ensures
        ({
            let p = run(m, j, seq![ESC, 0x21u8, n]).0.printer;
            &&& p.font == (if n % 2 == 1 {
                Font::B
            } else {
                Font::A
            })
            &&& p.bold == ((n / 8) % 2 == 1)
            &&& p.char_height_multiplier == (if (n / 16) % 2 == 1 {
                2u8
            } else {
                1u8
            })
            &&& p.char_width_multiplier == (if (n / 32) % 2 == 1 {
                2u8
            } else {
                1u8
            })
            &&& p.underline == (if n >= 128 {
                1u8
            } else {
                0u8
            })
            &&& p.alignment == m.printer.alignment
            &&& p.inverse == m.printer.inverse
            &&& p.line_spacing == m.printer.line_spacing
            &&& p.code_page == m.printer.code_page
            &&& p.paper_width == m.printer.paper_width
            &&& run(m, j, seq![ESC, 0x21u8, n]).0.state == ParserState::Normal
        }),
{
    let e = Seq::<u8>::empty();
    assert(run(m, j, e) == (m, j));
    lemma_run_push(m, j, e, ESC);
    assert(e.push(ESC) =~= seq![ESC]);
    assert(step(m, j, ESC) == on_normal(m, j, ESC)) by {
        reveal(step);
    }
    let (m1, j1) = advance(m, j, ESC);
    lemma_run_push(m, j, seq![ESC], 0x21u8);
    assert(seq![ESC].push(0x21u8) =~= seq![ESC, 0x21u8]);
    assert(step(m1, j1, 0x21u8) == on_esc(m1, j1, 0x21u8)) by {
        reveal(step);
    }
    let (m2, j2) = advance(m1, j1, 0x21u8);
    assert(m2.state == ParserState::EscPrintMode);
    lemma_run_push(m, j, seq![ESC, 0x21u8], n);
    assert(seq![ESC, 0x21u8].push(n) =~= seq![ESC, 0x21u8, n]);
    assert(step(m2, j2, n) == on_esc_print_mode(m2, j2, n)) by {
        reveal(step);
    }
    assert((n & 0x01 != 0) == (n % 2 == 1)) by (bit_vector);
    assert((n & 0x08 != 0) == ((n / 8) % 2 == 1)) by (bit_vector);
    assert((n & 0x10 != 0) == ((n / 16) % 2 == 1)) by (bit_vector);
    assert((n & 0x20 != 0) == ((n / 32) % 2 == 1)) by (bit_vector);
    assert((n & 0x80 != 0) == (n >= 128)) by (bit_vector);
}

/// The error correction level that `GS ( k` function 69 stores, read in
/// normal mode: 48 or 0 select L, 50 or 2 select Q, 51 or 3 select H, and
/// every other value M.
pub open spec fn qr_level_for(n: u8) -> QrErrorCorrection {
    if n == 48 || n == 0 {
        QrErrorCorrection::L
    } else if n == 50 || n == 2 {
        QrErrorCorrection::Q
    } else if n == 51 || n == 3 {
        QrErrorCorrection::H
    } else {
        QrErrorCorrection::M
    }
}

// The bytes of `GS ( k 3 0 49 69 n`, one at a time.
proof fn lemma_step_normal_gs(m: ParserModel, j: JobView, b: u8)
    requires
        m.state == ParserState::Normal,
        b == GS,
    ensures
        advance(m, j, b).0.state == (ParserState::GsPending),
        advance(m, j, b).0.qr_ec == m.qr_ec,
        advance(m, j, b).0.qr_data == m.qr_data,
        advance(m, j, b).0.qr_size == m.qr_size,
{
    reveal(step);
}

proof fn lemma_step_gs_paren(m: ParserModel, j: JobView, b: u8)
    requires
        m.state == ParserState::GsPending,
        b == 0x28,
    ensures
        advance(m, j, b).0.state == (ParserState::GsExtFnType),
        advance(m, j, b).0.qr_ec == m.qr_ec,
        advance(m, j, b).0.qr_data == m.qr_data,
        advance(m, j, b).0.qr_size == m.qr_size,
{
    reveal(step);
}

proof fn lemma_step_ext_type(m: ParserModel, j: JobView, b: u8)
    requires
        m.state == ParserState::GsExtFnType,
    ensures
        advance(m, j, b).0.state == (ParserState::GsExtFnPL),
        advance(m, j, b).0.qr_ec == m.qr_ec,
        advance(m, j, b).0.qr_data == m.qr_data,
        advance(m, j, b).0.qr_size == m.qr_size,
{
    reveal(step);
}

proof fn lemma_step_ext_pl(m: ParserModel, j: JobView, b: u8)
    requires
        m.state == ParserState::GsExtFnPL,
    ensures
        advance(m, j, b).0.state == (ParserState::GsExtFnPH { pl: b }),
        advance(m, j, b).0.qr_ec == m.qr_ec,
        advance(m, j, b).0.qr_data == m.qr_data,
        advance(m, j, b).0.qr_size == m.qr_size,
{
    reveal(step);
}

proof fn lemma_step_ext_ph(m: ParserModel, j: JobView, b: u8)
    requires
        m.state == (ParserState::GsExtFnPH { pl: 3 }),
    ensures
        advance(m, j, b).0.state == (ParserState::GsExtFnCN { pl: 3, ph: b }),
        advance(m, j, b).0.qr_ec == m.qr_ec,
        advance(m, j, b).0.qr_data == m.qr_data,
        advance(m, j, b).0.qr_size == m.qr_size,
{
    reveal(step);
}

proof fn lemma_step_ext_cn(m: ParserModel, j: JobView, b: u8)
    requires
        m.state == (ParserState::GsExtFnCN { pl: 3, ph: 0 }),
    ensures
        advance(m, j, b).0.state == (ParserState::GsExtFnFN { pl: 3, ph: 0, cn: b }),
        advance(m, j, b).0.qr_ec == m.qr_ec,
        advance(m, j, b).0.qr_data == m.qr_data,
        advance(m, j, b).0.qr_size == m.qr_size,
{
    reveal(step);
}

proof fn lemma_step_ext_fn_ec(m: ParserModel, j: JobView, b: u8)
    requires
        m.state == (ParserState::GsExtFnFN { pl: 3, ph: 0, cn: 49 }),
        b == 69,
    ensures
        advance(m, j, b).0.state == (ParserState::GsQrEc { remaining: 1 }),
        advance(m, j, b).0.qr_ec == m.qr_ec,
        advance(m, j, b).0.qr_data == m.qr_data,
        advance(m, j, b).0.qr_size == m.qr_size,
{
    reveal(step);
}

proof fn lemma_step_qr_ec(m: ParserModel, j: JobView, b: u8)
    requires
        m.state == (ParserState::GsQrEc { remaining: 1 }),
    ensures
        advance(m, j, b).0.state == (ParserState::Normal),
        advance(m, j, b).0.qr_ec == qr_level_for(b),
        advance(m, j, b).0.qr_data == m.qr_data,
        advance(m, j, b).0.qr_size == m.qr_size,
{
    reveal(step);
}

/// `GS ( k 3 0 49 69 n` read in normal mode sets the QR error correction
/// level to the one `n` selects (48/0 L, 49/1 M, 50/2 Q, 51/3 H, otherwise
/// M) and goes back to normal mode; the stored QR data and size stay.
pub proof fn law_qr_error_correction_command(m: ParserModel, j: JobView, n: u8)
    requires
        m.state == ParserState::Normal,
    ensures
        ({
            let m2 = run(m, j, seq![GS, 0x28u8, 0x6Bu8, 3u8, 0u8, 49u8, 69u8, n]).0;
            &&& m2.qr_ec == qr_level_for(n)
            &&& m2.qr_data == m.qr_data
            &&& m2.qr_size == m.qr_size
            &&& m2.state == ParserState::Normal
        }),
{
    let s0 = Seq::<u8>::empty();
    let s1 = s0.push(GS);
    let s2 = s1.push(0x28u8);
    let s3 = s2.push(0x6Bu8);
    let s4 = s3.push(3u8);
    let s5 = s4.push(0u8);
    let s6 = s5.push(49u8);
    let s7 = s6.push(69u8);
    let s8 = s7.push(n);
    assert(s8 =~= seq![GS, 0x28u8, 0x6Bu8, 3u8, 0u8, 49u8, 69u8, n]);
    assert(run(m, j, s0) == (m, j));
    lemma_run_push(m, j, s0, GS);
    lemma_step_normal_gs(m, j, GS);
    let r1 = run(m, j, s1);
    lemma_run_push(m, j, s1, 0x28u8);
    lemma_step_gs_paren(r1.0, r1.1, 0x28u8);
    let r2 = run(m, j, s2);
    lemma_run_push(m, j, s2, 0x6Bu8);
    lemma_step_ext_type(r2.0, r2.1, 0x6Bu8);
    let r3 = run(m, j, s3);
    lemma_run_push(m, j, s3, 3u8);
    lemma_step_ext_pl(r3.0, r3.1, 3u8);
    let r4 = run(m, j, s4);
    lemma_run_push(m, j, s4, 0u8);
    lemma_step_ext_ph(r4.0, r4.1, 0u8);
    let r5 = run(m, j, s5);
    lemma_run_push(m, j, s5, 49u8);
    lemma_step_ext_cn(r5.0, r5.1, 49u8);
    let r6 = run(m, j, s6);
    lemma_run_push(m, j, s6, 69u8);
    lemma_step_ext_fn_ec(r6.0, r6.1, 69u8);
    let r7 = run(m, j, s7);
    lemma_run_push(m, j, s7, n);
    lemma_step_qr_ec(r7.0, r7.1, n);
}

/// `GS ( k` function 81 prints the stored QR data at the stored error
/// correction level and module size: the last element is that QR code, and
/// the stored data is then forgotten.
pub proof fn law_qr_print_uses_stored_settings(m: ParserModel, j: JobView, pl: u8, ph: u8, cn: u8)
    requires
        m.state == (ParserState::GsExtFnFN { pl, ph, cn }),
        m.qr_data.len() > 0,
    ensures
        ({
            let (m2, j2) = step(m, j, 81u8);
            &&& j2.elements.len() >= 1
            &&& j2.elements.last() matches ElementView::QrCode {
                data,
                error_correction,
                module_size,
                png_b64,
            } && data == crate::text::lossy_decode(m.qr_data) && error_correction == m.qr_ec
                && module_size == m.qr_size
            &&& m2.qr_data.len() == 0
        }),
{
    reveal(step);
}

/// `GS ! n`: the width multiplier is one more than bits 4 to 6 of `n`, the
/// height multiplier one more than bits 0 to 2.
pub proof fn law_char_size_bits(m: ParserModel, j: JobView, n: u8)
    requires
        m.state == ParserState::GsCharSize,
    ensures
        step(m, j, n).0.printer.char_width_multiplier == (n / 16) % 8 + 1,
        step(m, j, n).0.printer.char_height_multiplier == n % 8 + 1,
        step(m, j, n).0.state == ParserState::Normal,
{
    reveal(step);
    assert(((n >> 4u8) & 7u8) == (n / 16) % 8) by (bit_vector);
    assert((n & 7u8) == n % 8) by (bit_vector);
}

/// `ESC a n`: 1 or `'1'` centres, 2 or `'2'` aligns right, anything else
/// aligns left.
pub proof fn law_alignment_values(m: ParserModel, j: JobView, n: u8)
    requires
        m.state == ParserState::EscAlign,
    ensures
        step(m, j, n).0.printer.alignment == (if n == 1 || n == 49 {
            crate::printer_state::Alignment::Center
        } else if n == 2 || n == 50 {
            crate::printer_state::Alignment::Right
        } else {
            crate::printer_state::Alignment::Left
        }),
{
    reveal(step);
}

/// `ESC E n` and `ESC G n`: bold on exactly when `n` is not zero.
/// `ESC - n`: underline `n`, at most 2.
pub proof fn law_bold_and_underline_values(m: ParserModel, j: JobView, n: u8)
    ensures
        m.state == ParserState::EscBold ==> step(m, j, n).0.printer.bold == (n != 0),
        m.state == ParserState::EscUnderline ==> step(m, j, n).0.printer.underline == (if n
            <= 2 {
            n
        } else {
            2u8
        }),
{
    reveal(step);
}

/// `GS H n`: the barcode text is hidden for 0, above for 1, both above and
/// below for 3, and below otherwise.
pub proof fn law_hri_values(m: ParserModel, j: JobView, n: u8)
    requires
        m.state == ParserState::GsHriPosition,
    ensures
        step(m, j, n).0.bc_hri == (if n == 0 {
            crate::print_job::HriPosition::Hidden
        } else if n == 1 {
            crate::print_job::HriPosition::Above
        } else if n == 3 {
            crate::print_job::HriPosition::Both
        } else {
            crate::print_job::HriPosition::Below
        }),
{
    reveal(step);
}

/// `GS V n`: 0, 48, 65 and 97 cut fully, 1, 49, 66 and 98 partially (the
/// last two pairs with a feed byte to follow); any other value cuts nothing
/// and warns.
pub proof fn law_cut_values(m: ParserModel, j: JobView, n: u8)
    requires
        m.state == ParserState::GsCutType,
    ensures
        ({
            let (m2, j2) = step(m, j, n);
            let j1 = flush_text(m, j).1;
            &&& (n == 0 || n == 48 || n == 65 || n == 97) ==> j2.elements == j1.elements.push(
                ElementView::Cut { partial: false },
            )
            &&& (n == 1 || n == 49 || n == 66 || n == 98) ==> j2.elements == j1.elements.push(
                ElementView::Cut { partial: true },
            )
            &&& (n == 65 || n == 66 || n == 97 || n == 98) ==> m2.state
                == ParserState::GsCutFeedParam
            &&& !(n == 0 || n == 48 || n == 65 || n == 97 || n == 1 || n == 49 || n == 66 || n
                == 98) ==> j2.elements == j1.elements && j2.warnings.len() == j1.warnings.len() + 1
        }),
{
    reveal(step);
}

/// `ESC d n` feeds `n` lines (nothing for 0); `ESC J n` feeds `n` dots.
pub proof fn law_feed_values(m: ParserModel, j: JobView, n: u8)
    ensures
        m.state == ParserState::EscFeedLines ==> step(m, j, n).1.elements == (if n == 0 {
            flush_text(m, j).1.elements
        } else {
            flush_text(m, j).1.elements.push(ElementView::LineFeed { lines: n as u32 })
        }),
        m.state == ParserState::EscFeedDots ==> step(m, j, n).1.elements == j.elements.push(
            ElementView::FeedDots { dots: n as u32 },
        ),
{
    reveal(step);
}

/// `GS ( k` function 67's parameter: the QR module size, brought into 1 to
/// 16.
pub proof fn law_qr_size_values(m: ParserModel, j: JobView, n: u8, remaining: usize)
    requires
        m.state == (ParserState::GsQrSize { remaining }),
    ensures
        step(m, j, n).0.qr_size == (if n == 0 {
            1u8
        } else if n > 16 {
            16u8
        } else {
            n
        }),
{
    reveal(step);
}

/// `ESC @` read in normal mode flushes pending text and puts the printer
/// back to its factory defaults on the same paper, back in normal mode.
pub proof fn law_esc_at_resets(m: ParserModel, j: JobView)
    requires
        m.state == ParserState::Normal,
    ensures
        ({
            let (m2, j2) = run(m, j, seq![ESC, 0x40u8]);
            &&& m2.printer == default_printer(m.printer.paper_width)
            &&& m2.state == ParserState::Normal
            &&& m2.line_buf.len() == 0
            &&& j2.elements == flush_text(m, j).1.elements
        }),
{
    let bytes = seq![ESC, 0x40u8];
    assert(bytes.drop_last() =~= seq![ESC]);
    assert(bytes.drop_last().drop_last() =~= Seq::<u8>::empty());
    assert(step(m, j, ESC) == on_normal(m, j, ESC)) by {
        reveal(step);
    }
    let (m1, j1) = advance(m, j, ESC);
    assert(m1.state == ParserState::EscPending);
    assert(step(m1, j1, 0x40u8) == on_esc(m1, j1, 0x40u8)) by {
        reveal(step);
    }
    assert(run(m, j, Seq::<u8>::empty()) == (m, j));
    assert(run(m, j, seq![ESC]) == advance(m, j, ESC));
    assert(run(m, j, bytes) == advance(m1, j1, 0x40u8));
}

} // verus!
