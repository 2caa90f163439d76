// The ESC/POS byte-level parser: processes raw bytes exactly as a real
// thermal printer would and fills a PrintJob with typed elements. It never
// panics on unknown commands: it records a warning and continues. Each step is
// proved to follow the state machine of `escpos_model`.
use crate::barcode::render_barcode;
use crate::escpos_model::{
    alignment_name, barcode_type_name, decode_high, emit_barcode, emit_qr, emit_raster,
    flush_text, font_name, initial_model, is_tagged, log_cmd, model_wf, ok_text, on_esc,
    on_esc_align, on_esc_bold, on_esc_codepage, on_esc_feed_dots, on_esc_feed_lines, on_esc_font,
    on_esc_linespacing, on_esc_print_mode, on_esc_underline, on_gs, on_gs_char_size,
    on_gs_cut_type, on_gs_inverse, on_gs_k_type, on_gs_qr_fn, on_normal, parse_job, process_line,
    process_lines, process_text, push_el, qr_tag, qrcode_tag, raster_pixel, raster_pixels,
    raster_png, render_qr_warned, run, spaces, step, step_data, step_qr, step_raster, tag_qr,
    then_skip, unknown_text, upi_tag, warn, warning_text, ParserModel, ParserState, CAN, CR, ESC,
    FF, GS, HT, LF, NUL,
};
use crate::imaging::{base64_encode, encode_gray_png};
use crate::print_job::{
    fresh_job, opt_view, BarcodeType, ElementView, HriPosition, JobSource, ParsedCommand,
    PrintElement, PrintJob, QrErrorCorrection, RasterImage, SourceView,
};
use crate::printer_state::{style_of, Alignment, CodePage, Font, PaperWidth, PrinterState, TextStyle};
use crate::qrcode::{render_qrcode, spec_render_qrcode};
use crate::text::{
    contains_chars, debug_string, lemma_split_lines_nonempty, occurs_at, push_bool, push_char,
    push_dec, push_hex, split_lines, string_of, trim_bounds, utf8_lossy,
};
use vstd::prelude::*;
use vstd::string::StringExecFns;

verus! {

/// The ESC/POS parser: the state of the printer and of the command being read.
pub struct EscPosParser {
    state: ParserState,
    /// Bytes collected by the current command.
    buf: Vec<u8>,
    pub printer: PrinterState,
    /// Text accumulated since the last flush.
    line_buf: Vec<char>,
    bc_height: u8,
    bc_width: u8,
    bc_hri: HriPosition,
    qr_model: u8,
    qr_size: u8,
    qr_ec: QrErrorCorrection,
    qr_data: Vec<u8>,
    /// Offset of the byte being read.
    offset: usize,
}

impl View for EscPosParser {
    type V = ParserModel;

    closed spec fn view(&self) -> ParserModel {
        ParserModel {
            state: self.state,
            buf: self.buf@,
            printer: self.printer@,
            line_buf: self.line_buf@,
            bc_height: self.bc_height,
            bc_width: self.bc_width,
            bc_hri: self.bc_hri,
            qr_model: self.qr_model,
            qr_size: self.qr_size,
            qr_ec: self.qr_ec,
            qr_data: self.qr_data@,
            offset: self.offset,
        }
    }
}

fn push_element(job: &mut PrintJob, e: PrintElement)
    ensures
        final(job).received_at == old(job).received_at,
        final(job).id == old(job).id,
        final(job)@ == push_el(old(job)@, e@),
{
    job.elements.push(e);
    proof {
        assert(job@.elements =~= old(job)@.elements.push(e@));
    }
}

fn byte_list1(a: u8) -> (v: Vec<u8>)
    ensures
        v@ == seq![a],
{
    let mut v = Vec::new();
    v.push(a);
    proof {
        assert(v@ =~= seq![a]);
    }
    v
}

fn byte_list2(a: u8, b: u8) -> (v: Vec<u8>)
    ensures
        v@ == seq![a, b],
{
    let mut v = byte_list1(a);
    v.push(b);
    proof {
        assert(v@ =~= seq![a, b]);
    }
    v
}

fn byte_list3(a: u8, b: u8, c: u8) -> (v: Vec<u8>)
    ensures
        v@ == seq![a, b, c],
{
    let mut v = byte_list2(a, b);
    v.push(c);
    proof {
        assert(v@ =~= seq![a, b, c]);
    }
    v
}

/// A description made of a fixed text and a decimal number.
fn text_dec(prefix: &str, n: u64) -> (s: String)
    ensures
        s@ == prefix@ + crate::text::dec_text(n as nat),
{
    let mut s = String::from_str(prefix);
    push_dec(&mut s, n);
    s
}

/// A description made of a fixed text and two upper-case hex digits.
fn text_hex2(prefix: &str, n: u8) -> (s: String)
    ensures
        s@ == prefix@ + crate::text::hex_text(n as nat, 2),
{
    let mut s = String::from_str(prefix);
    push_hex(&mut s, n as u64, 2);
    s
}

fn text_bool(prefix: &str, b: bool) -> (s: String)
    ensures
        s@ == prefix@ + crate::text::bool_text(b),
{
    let mut s = String::from_str(prefix);
    push_bool(&mut s, b);
    s
}

/// `Unknown ESC 0xNN ('c')` and the like.
fn unknown_command_text(prefix: &str, b: u8) -> (s: String)
    ensures
        s@ == unknown_text(prefix@, b),
{
    let mut s = text_hex2(prefix, b);
    s.append(" ('");
    push_char(&mut s, b as char);
    s.append("')");
    s
}

fn upi_tag_chars() -> (v: Vec<char>)
    ensures
        v@ == upi_tag(),
{
    let v = vec!['[', 'U', 'P', 'I', '_', 'Q', 'R', ':'];
    proof {
        assert(v@ =~= upi_tag());
    }
    v
}

fn qr_tag_chars() -> (v: Vec<char>)
    ensures
        v@ == qr_tag(),
{
    let v = vec!['[', 'Q', 'R', ':'];
    proof {
        assert(v@ =~= qr_tag());
    }
    v
}

fn qrcode_tag_chars() -> (v: Vec<char>)
    ensures
        v@ == qrcode_tag(),
{
    let v = vec!['[', 'Q', 'R', '_', 'C', 'O', 'D', 'E', ':'];
    proof {
        assert(v@ =~= qrcode_tag());
    }
    v
}

fn chars_between(v: &[char], lo: usize, hi: usize) -> (r: Vec<char>)
    requires
        lo <= hi <= v@.len(),
    ensures
        r@ == v@.subrange(lo as int, hi as int),
{
    let mut r: Vec<char> = Vec::new();
    let mut i = lo;
    while i < hi
        invariant
            lo <= i <= hi <= v@.len(),
            r@ == v@.subrange(lo as int, i as int),
        decreases hi - i,
    {
        r.push(v[i]);
        proof {
            assert(r@ =~= v@.subrange(lo as int, i + 1));
        }
        i += 1;
    }
    r
}

/// Whether `line` is `tag`, a payload and `]`.
fn tagged(line: &[char], tag: &[char]) -> (r: bool)
    ensures
        r == is_tagged(line@, tag@),
{
    if line.len() < tag.len() || line.len() - tag.len() < 1 {
        return false;
    }
    let starts = crate::text::occurs_at_exec(line, tag, 0);
    starts && line[line.len() - 1] == ']'
}

/// A QR code element for a tag's payload.
fn tag_qr_element(uri: &[char]) -> (e: PrintElement)
    ensures
        e@ == tag_qr(uri@),
{
    let data = string_of(uri);
    let png_b64 = render_qrcode(data.as_str(), QrErrorCorrection::M, 4).ok();
    PrintElement::QrCode {
        data,
        error_correction: QrErrorCorrection::M,
        module_size: 4,
        png_b64,
    }
}

/// One line of text that holds a QR tag somewhere.
fn process_line_exec(style: TextStyle, line: &[char], job: &mut PrintJob)
    ensures
        final(job).received_at == old(job).received_at,
        final(job).id == old(job).id,
        final(job)@ == process_line(style, old(job)@, line@),
{
    let (lo, hi) = trim_bounds(line);
    let t = chars_between(line, lo, hi);
    let upi = upi_tag_chars();
    let qr = qr_tag_chars();
    let qrc = qrcode_tag_chars();
    if tagged(&t, &upi) {
        let uri = chars_between(&t, upi.len(), t.len() - 1);
        push_element(job, tag_qr_element(&uri));
        let caption_style = TextStyle { alignment: Alignment::Center, bold: true, ..style };
        push_element(
            job,
            PrintElement::Text {
                content: String::from_str("SCAN TO PAY VIA UPI"),
                style: caption_style,
            },
        );
    } else if tagged(&t, &qr) {
        let uri = chars_between(&t, qr.len(), t.len() - 1);
        push_element(job, tag_qr_element(&uri));
    } else if tagged(&t, &qrc) {
        let uri = chars_between(&t, qrc.len(), t.len() - 1);
        push_element(job, tag_qr_element(&uri));
    } else if line.len() > 0 {
        push_element(job, PrintElement::Text { content: string_of(line), style });
    }
}

/// Flushed text: one text element, or line by line if it holds a QR tag.
fn process_text_content(style: TextStyle, content: &Vec<char>, job: &mut PrintJob)
    ensures
        final(job).received_at == old(job).received_at,
        final(job).id == old(job).id,
        final(job)@ == process_text(style, old(job)@, content@),
{
    let upi = upi_tag_chars();
    let qr = qr_tag_chars();
    let qrc = qrcode_tag_chars();
    if !contains_chars(content, &upi) && !contains_chars(content, &qr) && !contains_chars(
        content,
        &qrc,
    ) {
        push_element(job, PrintElement::Text { content: string_of(content), style });
        return ;
    }
    let ghost j0 = old(job)@;
    let ghost t0 = old(job).received_at;
    let ghost s = content@;
    let n = content.len();
    let mut cur: Vec<char> = Vec::new();
    let mut i: usize = 0;
    proof {
        assert(s.take(0) =~= Seq::<char>::empty());
        assert(split_lines(s.take(0)).drop_last() =~= Seq::<Seq<char>>::empty());
    }
    while i < n
        invariant
            i <= n == s.len(),
            content@ == s,
            job.received_at == t0,
            job.id == old(job).id,
            split_lines(s.take(i as int)).len() >= 1,
            job@ == process_lines(style, j0, split_lines(s.take(i as int)).drop_last()),
            cur@ == split_lines(s.take(i as int)).last(),
        decreases n - i,
    {
        let ghost p = split_lines(s.take(i as int));
        proof {
            assert(s.take(i + 1).drop_last() =~= s.take(i as int));
            lemma_split_lines_nonempty(s.take(i + 1));
        }
        if content[i] == '\n' {
            process_line_exec(style, &cur, job);
            cur = Vec::new();
            proof {
                assert(split_lines(s.take(i + 1)) == p.push(Seq::<char>::empty()));
                assert(p.push(Seq::<char>::empty()).drop_last() =~= p);
                assert(p =~= p.drop_last().push(p.last()));
                assert(cur@ =~= Seq::<char>::empty());
            }
        } else {
            cur.push(content[i]);
            proof {
                let q = p.update(p.len() - 1, p.last().push(s[i as int]));
                assert(split_lines(s.take(i + 1)) == q);
                assert(q.drop_last() =~= p.drop_last());
            }
        }
        i += 1;
    }
    proof {
        assert(s.take(n as int) =~= s);
        let all = split_lines(s);
        assert(all =~= all.drop_last().push(all.last()));
    }
    process_line_exec(style, &cur, job);
}

impl EscPosParser {
    pub fn new(paper_width: PaperWidth) -> (r: Self)
        ensures
            r@ == initial_model(paper_width),
            r.wf(),
    {
        let r = EscPosParser {
            state: ParserState::Normal,
            buf: Vec::new(),
            printer: PrinterState::with_paper(paper_width),
            line_buf: Vec::new(),
            bc_height: 162,
            bc_width: 3,
            bc_hri: HriPosition::Below,
            qr_model: 2,
            qr_size: 4,
            qr_ec: QrErrorCorrection::M,
            qr_data: Vec::new(),
            offset: 0,
        };
        proof {
            assert(r@ =~= initial_model(paper_width));
        }
        r
    }

    fn log_cmd(&self, job: &mut PrintJob, bytes: Vec<u8>, desc: String)
        ensures
            final(job).received_at == old(job).received_at,
            final(job).id == old(job).id,
            final(job)@ == log_cmd(self@, old(job)@, bytes@, desc@),
    {
        let c = ParsedCommand { byte_offset: self.offset, raw_bytes: bytes, description: desc };
        job.parsed_commands.push(c);
        proof {
            assert(job@.commands =~= old(job)@.commands.push(c@));
        }
    }

    fn warn(&self, job: &mut PrintJob, msg: String)
        ensures
            final(job).received_at == old(job).received_at,
            final(job).id == old(job).id,
            final(job)@ == warn(self@, old(job)@, msg@),
    {
        let mut w = String::from_str("[+");
        push_hex(&mut w, self.offset as u64, 4);
        w.append("] ");
        w.append(msg.as_str());
        job.warnings.push(w);
        proof {
            assert(job@.warnings =~= old(job)@.warnings.push(warning_text(self@, msg@)));
        }
    }

    /// Flush the accumulated line buffer as text.
    pub fn flush_text(&mut self, job: &mut PrintJob)
        ensures
            final(job).received_at == old(job).received_at,
            final(job).id == old(job).id,
            final(self)@.offset == old(self)@.offset,
            final(self)@.state == old(self)@.state,
            final(self)@ == flush_text(old(self)@, old(job)@).0,
            final(job)@ == flush_text(old(self)@, old(job)@).1,
    {
        if self.line_buf.len() > 0 {
            let mut content: Vec<char> = Vec::new();
            std::mem::swap(&mut content, &mut self.line_buf);
            let style = self.printer.current_style();
            process_text_content(style, &content, job);
            proof {
                assert(self@ =~= flush_text(old(self)@, old(job)@).0);
            }
        }
    }
}


fn alignment_str(a: Alignment) -> (r: &'static str)
    ensures
        r@ == alignment_name(a),
{
    match a {
        Alignment::Left => "Left",
        Alignment::Center => "Center",
        Alignment::Right => "Right",
    }
}

fn font_str(f: Font) -> (r: &'static str)
    ensures
        r@ == font_name(f),
{
    match f {
        Font::A => "A",
        Font::B => "B",
    }
}

fn barcode_type_text(s: &mut String, t: BarcodeType)
    ensures
        final(s)@ == old(s)@ + barcode_type_name(t),
{
    match t {
        BarcodeType::UpcA => s.append("UpcA"),
        BarcodeType::UpcE => s.append("UpcE"),
        BarcodeType::Ean13 => s.append("Ean13"),
        BarcodeType::Ean8 => s.append("Ean8"),
        BarcodeType::Code39 => s.append("Code39"),
        BarcodeType::Itf => s.append("Itf"),
        BarcodeType::Codabar => s.append("Codabar"),
        BarcodeType::Code93 => s.append("Code93"),
        BarcodeType::Code128 => s.append("Code128"),
        BarcodeType::Pdf417 => s.append("Pdf417"),
        BarcodeType::QrCode => s.append("QrCode"),
        BarcodeType::Unknown(n) => {
            s.append("Unknown(");
            push_dec(s, n as u64);
            s.append(")");
            proof {
                assert(s@ =~= old(s)@ + barcode_type_name(t));
            }
        },
    }
}

fn raster_pixels_exec(width_bytes: u32, height: u32, raw: &Vec<u8>) -> (px: Vec<u8>)
    requires
        width_bytes <= 0xFFFF,
        width_bytes * 8 * height <= usize::MAX,
    ensures
        px@ == raster_pixels(width_bytes as nat, height as nat, raw@),
{
    let wd: usize = (width_bytes as usize) * 8;
    let total: usize = wd * (height as usize);
    let wb: usize = width_bytes as usize;
    let mut px: Vec<u8> = Vec::new();
    let mut i: usize = 0;
    while i < total
        invariant
            wd == width_bytes * 8,
            wb == width_bytes,
            total == wd * height,
            i <= total,
            px@.len() == i,
            forall|q: int| 0 <= q < i ==> px@[q] == raster_pixel(width_bytes as nat, raw@, q),
        decreases total - i,
    {
        let row = i / wd;
        let col = i % wd;
        proof {
            assert(row < height) by (nonlinear_arith)
                requires
                    i < wd * height,
                    row == i / wd,
                    wd > 0,
            ;
            assert(col / 8 < wb) by (nonlinear_arith)
                requires
                    col < wd,
                    wd == wb * 8,
            ;
            assert(row * wb + col / 8 < wb * height) by (nonlinear_arith)
                requires
                    row < height,
                    col / 8 < wb,
            ;
            assert(wb * height <= total) by (nonlinear_arith)
                requires
                    total == wb * 8 * height,
            ;
        }
        let k = row * wb + col / 8;
        let byte: u8 = if k < raw.len() {
            raw[k]
        } else {
            0
        };
        let v: u8 = if byte & (1u8 << ((7 - col % 8) as u8)) != 0 {
            0
        } else {
            255
        };
        px.push(v);
        i += 1;
    }
    proof {
        assert(px@ =~= raster_pixels(width_bytes as nat, height as nat, raw@));
    }
    px
}

fn raster_png_exec(width_bytes: u32, height: u32, raw: &Vec<u8>) -> (s: String)
    requires
        width_bytes <= 0xFFFF,
    ensures
        s@ == raster_png(width_bytes, height, raw@),
{
    assert((width_bytes as u128) * 8 * (height as u128) <= 0xFFFF * 8 * 0xFFFF_FFFF) by (nonlinear_arith)
        requires
            width_bytes <= 0xFFFF,
            height <= 0xFFFF_FFFF,
    ;
    if (width_bytes as u128) * 8 * (height as u128) > usize::MAX as u128 {
        return String::new();
    }
    let px = raster_pixels_exec(width_bytes, height, raw);
    proof {
        assert(px@.len() == (width_bytes * 8) as u32 as int * height as int);
    }
    let (png, _err) = encode_gray_png(width_bytes * 8, height, px);
    base64_encode(png.as_slice())
}

impl EscPosParser {
    /// Render a QR code, warning if rendering failed.
    fn render_qr_warned(&self, data: &String, ec: QrErrorCorrection, size: u8, job: &mut PrintJob) -> (r: Option<String>)
        ensures
            final(job).received_at == old(job).received_at,
            final(job).id == old(job).id,
            final(job)@ == render_qr_warned(self@, old(job)@, data@, ec, size),
            opt_view(r) == ok_text(spec_render_qrcode(data@, ec, size)),
    {
        match render_qrcode(data.as_str(), ec, size) {
            Ok(png) => Some(png),
            Err(e) => {
                let mut msg = String::from_str("QR render failed: ");
                msg.append(e.as_str());
                self.warn(job, msg);
                None
            },
        }
    }

    /// Emit a barcode from the collected bytes.
    fn emit_barcode(&mut self, btype: BarcodeType, raw: &Vec<u8>, job: &mut PrintJob)
        ensures
            final(job).received_at == old(job).received_at,
            final(job).id == old(job).id,
            final(self)@.offset == old(self)@.offset,
            final(self)@.state == old(self)@.state,
            final(self)@ == emit_barcode(old(self)@, old(job)@, btype, raw@).0,
            final(job)@ == emit_barcode(old(self)@, old(job)@, btype, raw@).1,
    {
        let data = utf8_lossy(raw.as_slice());
        if btype == BarcodeType::QrCode {
            self.flush_text(job);
            let ec = self.qr_ec;
            let size = self.qr_size;
            let png_b64 = self.render_qr_warned(&data, ec, size, job);
            let mut d = String::from_str("GS k QR code data=");
            d.append(debug_string(data.as_str()).as_str());
            self.log_cmd(job, Vec::new(), d);
            push_element(
                job,
                PrintElement::QrCode { data, error_correction: ec, module_size: size, png_b64 },
            );
            return ;
        }
        let r = render_barcode(&btype, data.as_str());
        let png_b64 = match r {
            Ok(png) => Some(png),
            Err(e) => {
                let mut msg = String::from_str("Barcode render failed (");
                barcode_type_text(&mut msg, btype);
                msg.append(" ");
                msg.append(debug_string(data.as_str()).as_str());
                msg.append("): ");
                msg.append(e.as_str());
                self.warn(job, msg);
                None
            },
        };
        self.flush_text(job);
        let mut d = String::from_str("Barcode ");
        barcode_type_text(&mut d, btype);
        d.append(" data=");
        d.append(debug_string(data.as_str()).as_str());
        self.log_cmd(job, Vec::new(), d);
        push_element(
            job,
            PrintElement::Barcode {
                barcode_type: btype,
                data,
                hri: self.bc_hri,
                height_dots: self.bc_height,
                png_b64,
            },
        );
    }

    /// Print the stored QR data, then forget it.
    fn emit_qr(&mut self, job: &mut PrintJob)
        ensures
            final(job).received_at == old(job).received_at,
            final(job).id == old(job).id,
            final(self)@.offset == old(self)@.offset,
            final(self)@.state == old(self)@.state,
            final(self)@ == emit_qr(old(self)@, old(job)@).0,
            final(job)@ == emit_qr(old(self)@, old(job)@).1,
    {
        if self.qr_data.len() == 0 {
            self.warn(job, String::from_str("QR print: no data stored"));
            return ;
        }
        let data = utf8_lossy(self.qr_data.as_slice());
        let ec = self.qr_ec;
        let size = self.qr_size;
        let png_b64 = self.render_qr_warned(&data, ec, size, job);
        let mut d = String::from_str("QR code data=");
        d.append(debug_string(data.as_str()).as_str());
        self.log_cmd(job, Vec::new(), d);
        push_element(
            job,
            PrintElement::QrCode { data, error_correction: ec, module_size: size, png_b64 },
        );
        self.qr_data = Vec::new();
        proof {
            assert(self@ =~= emit_qr(old(self)@, old(job)@).0);
        }
    }

    /// Emit a raster image from the collected bytes.
    fn emit_raster(&mut self, width_bytes: u32, height: u32, job: &mut PrintJob)
        requires
            width_bytes <= 0xFFFF,
        ensures
            final(job).received_at == old(job).received_at,
            final(job).id == old(job).id,
            final(self)@.offset == old(self)@.offset,
            final(self)@.state == old(self)@.state,
            final(self)@ == emit_raster(old(self)@, old(job)@, width_bytes, height, old(self)@.buf).0,
            final(job)@ == emit_raster(old(self)@, old(job)@, width_bytes, height, old(self)@.buf).1,
    {
        let png_b64 = raster_png_exec(width_bytes, height, &self.buf);
        self.flush_text(job);
        let width_dots = width_bytes * 8;
        let mut d = String::from_str("Raster image ");
        push_dec(&mut d, width_dots as u64);
        d.append("x");
        push_dec(&mut d, height as u64);
        self.log_cmd(job, Vec::new(), d);
        if !png_b64.as_str().is_empty() {
            push_element(
                job,
                PrintElement::Image(RasterImage { width_dots, height_dots: height, png_b64 }),
            );
        }
    }
}

impl EscPosParser {
    /// The character a byte 0x80..=0xFF prints as on the current code page.
    fn decode_high(&self, b: u8) -> (c: char)
        requires
            b >= 0x80,
        ensures
            c == decode_high(self@, b),
    {
        match self.printer.code_page {
            CodePage::Windows1252 | CodePage::Pc850 => b as char,
            _ => '?',
        }
    }

    fn on_normal(&mut self, b: u8, job: &mut PrintJob)
        ensures
            final(job).received_at == old(job).received_at,
            final(job).id == old(job).id,
            final(self)@.offset == old(self)@.offset,
            final(self)@ == on_normal(old(self)@, old(job)@, b).0,
            final(job)@ == on_normal(old(self)@, old(job)@, b).1,
    {
        if b == ESC {
            self.state = ParserState::EscPending;
        } else if b == GS {
            self.state = ParserState::GsPending;
        } else if b == LF {
            self.flush_text(job);
            push_element(job, PrintElement::LineFeed { lines: 1 });
            self.log_cmd(job, byte_list1(LF), String::from_str("LF"));
            self.state = ParserState::Normal;
        } else if b == CR {
            self.log_cmd(job, byte_list1(CR), String::from_str("CR (ignored)"));
            self.state = ParserState::Normal;
        } else if b == HT {
            let col = crate::text::utf8_len_mod8(&self.line_buf);
            let pad = 8 - col;
            let mut lb: Vec<char> = Vec::new();
            std::mem::swap(&mut lb, &mut self.line_buf);
            let ghost start = lb@;
            let mut k: usize = 0;
            while k < pad
                invariant
                    k <= pad <= 8,
                    lb@ == start + spaces(k as nat),
                decreases pad - k,
            {
                lb.push(' ');
                k += 1;
                proof {
                    assert(spaces(k as nat) =~= spaces((k - 1) as nat).push(' '));
                }
            }
            std::mem::swap(&mut lb, &mut self.line_buf);
            self.state = ParserState::Normal;
            proof {
                assert(self@ =~= on_normal(old(self)@, old(job)@, b).0);
            }
        } else if b == FF {
            self.flush_text(job);
            push_element(job, PrintElement::Cut { partial: false });
            self.log_cmd(job, byte_list1(FF), String::from_str("FF (form feed / cut)"));
            self.state = ParserState::Normal;
        } else if b == NUL || b == CAN {
            self.state = ParserState::Normal;
        } else if 0x20 <= b && b <= 0x7E {
            self.line_buf.push(b as char);
            self.state = ParserState::Normal;
        } else if b >= 0x80 {
            let c = self.decode_high(b);
            self.line_buf.push(c);
            self.state = ParserState::Normal;
        } else {
            self.warn(job, text_hex2("Unhandled byte 0x", b));
            self.state = ParserState::Normal;
        }
    }

    fn on_esc(&mut self, b: u8, job: &mut PrintJob)
        ensures
            final(job).received_at == old(job).received_at,
            final(job).id == old(job).id,
            final(self)@.offset == old(self)@.offset,
            final(self)@ == on_esc(old(self)@, old(job)@, b).0,
            final(job)@ == on_esc(old(self)@, old(job)@, b).1,
    {
        if b == 0x40 {
            self.flush_text(job);
            self.printer.reset();
            self.log_cmd(job, byte_list2(ESC, 0x40), String::from_str("ESC @ initialize"));
            self.state = ParserState::Normal;
        } else if b == 0x61 {
            self.state = ParserState::EscAlign;
        } else if b == 0x45 || b == 0x47 {
            self.state = ParserState::EscBold;
        } else if b == 0x2D {
            self.state = ParserState::EscUnderline;
        } else if b == 0x21 {
            self.state = ParserState::EscPrintMode;
        } else if b == 0x4D {
            self.state = ParserState::EscFont;
        } else if b == 0x32 {
            self.printer.line_spacing = 30;
            self.log_cmd(
                job,
                byte_list2(ESC, 0x32),
                String::from_str("ESC 2 default line spacing"),
            );
            self.state = ParserState::Normal;
        } else if b == 0x33 {
            self.state = ParserState::EscLineSpacing;
        } else if b == 0x64 {
            self.state = ParserState::EscFeedLines;
        } else if b == 0x4A {
            self.state = ParserState::EscFeedDots;
        } else if b == 0x74 {
            self.state = ParserState::EscCodePage;
        } else if b == 0x7B {
            self.state = ParserState::EscUpsideDown;
        } else if b == 0x56 {
            self.state = ParserState::EscSkipOne;
        } else if b == 0x70 {
            self.state = ParserState::EscSkipTwo { got: 0 };
        } else if b == 0x2A {
            self.state = ParserState::EscBitImageMode;
        } else if b == 0x5A {
            self.state = ParserState::EscZVersion;
        } else if b == 0x69 {
            self.flush_text(job);
            push_element(job, PrintElement::Cut { partial: false });
            self.log_cmd(job, byte_list2(ESC, 0x69), String::from_str("ESC i full cut"));
            self.state = ParserState::Normal;
        } else if b == 0x6D {
            self.flush_text(job);
            push_element(job, PrintElement::Cut { partial: true });
            self.log_cmd(job, byte_list2(ESC, 0x6D), String::from_str("ESC m partial cut"));
            self.state = ParserState::Normal;
        } else if b == 0x72 || b == 0x3D || b == 0x3F || b == 0x4B || b == 0x75 {
            self.state = ParserState::EscSkipOne;
        } else if b == 0x63 {
            self.state = ParserState::EscSkipTwo { got: 0 };
        } else {
            self.warn(job, unknown_command_text("Unknown ESC 0x", b));
            self.state = ParserState::Normal;
        }
    }

    fn on_gs(&mut self, b: u8, job: &mut PrintJob)
        ensures
            final(job).received_at == old(job).received_at,
            final(job).id == old(job).id,
            final(self)@.offset == old(self)@.offset,
            final(self)@ == on_gs(old(self)@, old(job)@, b).0,
            final(job)@ == on_gs(old(self)@, old(job)@, b).1,
    {
        if b == 0x21 {
            self.state = ParserState::GsCharSize;
        } else if b == 0x42 {
            self.state = ParserState::GsInverse;
        } else if b == 0x56 {
            self.state = ParserState::GsCutType;
        } else if b == 0x68 {
            self.state = ParserState::GsBarcodeHeight;
        } else if b == 0x77 {
            self.state = ParserState::GsBarcodeWidth;
        } else if b == 0x48 {
            self.state = ParserState::GsHriPosition;
        } else if b == 0x66 {
            self.state = ParserState::GsBarcodeFont;
        } else if b == 0x6B {
            self.state = ParserState::GsBarcodeTypeSelect;
        } else if b == 0x28 {
            self.state = ParserState::GsExtFnType;
        } else if b == 0x76 {
            self.state = ParserState::GsRasterExpectZero;
        } else if b == 0x4C || b == 0x50 {
            self.state = ParserState::EscSkipTwo { got: 0 };
        } else if b == 0x61 || b == 0x72 || b == 0x49 || b == 0x65 {
            self.state = ParserState::EscSkipOne;
        } else {
            self.warn(job, unknown_command_text("Unknown GS 0x", b));
            self.state = ParserState::Normal;
        }
    }

    fn on_esc_align(&mut self, b: u8, job: &mut PrintJob)
        ensures
            final(job).received_at == old(job).received_at,
            final(job).id == old(job).id,
            final(self)@.offset == old(self)@.offset,
            final(self)@ == on_esc_align(old(self)@, old(job)@, b).0,
            final(job)@ == on_esc_align(old(self)@, old(job)@, b).1,
    {
        self.flush_text(job);
        let a = if b == 1 || b == 49 {
            Alignment::Center
        } else if b == 2 || b == 50 {
            Alignment::Right
        } else {
            Alignment::Left
        };
        self.printer.alignment = a;
        let mut d = String::from_str("ESC a ");
        d.append(alignment_str(a));
        self.log_cmd(job, byte_list3(ESC, 0x61, b), d);
        self.state = ParserState::Normal;
    }

    fn on_esc_bold(&mut self, b: u8, job: &mut PrintJob)
        ensures
            final(job).received_at == old(job).received_at,
            final(job).id == old(job).id,
            final(self)@.offset == old(self)@.offset,
            final(self)@ == on_esc_bold(old(self)@, old(job)@, b).0,
            final(job)@ == on_esc_bold(old(self)@, old(job)@, b).1,
    {
        self.flush_text(job);
        self.printer.bold = b != 0;
        self.log_cmd(job, byte_list3(ESC, 0x45, b), text_bool("ESC E bold=", b != 0));
        self.state = ParserState::Normal;
    }

    fn on_esc_underline(&mut self, b: u8, job: &mut PrintJob)
        ensures
            final(job).received_at == old(job).received_at,
            final(job).id == old(job).id,
            final(self)@.offset == old(self)@.offset,
            final(self)@ == on_esc_underline(old(self)@, old(job)@, b).0,
            final(job)@ == on_esc_underline(old(self)@, old(job)@, b).1,
    {
        self.flush_text(job);
        self.printer.underline = if b < 2 {
            b
        } else {
            2
        };
        self.log_cmd(job, byte_list3(ESC, 0x2D, b), text_dec("ESC - underline=", b as u64));
        self.state = ParserState::Normal;
    }

    fn on_esc_print_mode(&mut self, b: u8, job: &mut PrintJob)
        ensures
            final(job).received_at == old(job).received_at,
            final(job).id == old(job).id,
            final(self)@.offset == old(self)@.offset,
            final(self)@ == on_esc_print_mode(old(self)@, old(job)@, b).0,
            final(job)@ == on_esc_print_mode(old(self)@, old(job)@, b).1,
    {
        self.flush_text(job);
        self.printer.font = if b & 0x01 != 0 {
            Font::B
        } else {
            Font::A
        };
        self.printer.bold = b & 0x08 != 0;
        self.printer.char_height_multiplier = if b & 0x10 != 0 {
            2
        } else {
            1
        };
        self.printer.char_width_multiplier = if b & 0x20 != 0 {
            2
        } else {
            1
        };
        self.printer.underline = if b & 0x80 != 0 {
            1
        } else {
            0
        };
        self.log_cmd(job, byte_list3(ESC, 0x21, b), text_hex2("ESC ! mode=0x", b));
        self.state = ParserState::Normal;
    }

    fn on_esc_font(&mut self, b: u8, job: &mut PrintJob)
        ensures
            final(job).received_at == old(job).received_at,
            final(job).id == old(job).id,
            final(self)@.offset == old(self)@.offset,
            final(self)@ == on_esc_font(old(self)@, old(job)@, b).0,
            final(job)@ == on_esc_font(old(self)@, old(job)@, b).1,
    {
        self.flush_text(job);
        let f = if b == 1 || b == 49 {
            Font::B
        } else {
            Font::A
        };
        self.printer.font = f;
        let mut d = String::from_str("ESC M font=");
        d.append(font_str(f));
        self.log_cmd(job, byte_list3(ESC, 0x4D, b), d);
        self.state = ParserState::Normal;
    }

    fn on_esc_linespacing(&mut self, b: u8, job: &mut PrintJob)
        ensures
            final(job).received_at == old(job).received_at,
            final(job).id == old(job).id,
            final(self)@.offset == old(self)@.offset,
            final(self)@ == on_esc_linespacing(old(self)@, old(job)@, b).0,
            final(job)@ == on_esc_linespacing(old(self)@, old(job)@, b).1,
    {
        self.printer.line_spacing = b;
        self.log_cmd(job, byte_list3(ESC, 0x33, b), text_dec("ESC 3 spacing=", b as u64));
        self.state = ParserState::Normal;
    }

    fn on_esc_feed_lines(&mut self, b: u8, job: &mut PrintJob)
        ensures
            final(job).received_at == old(job).received_at,
            final(job).id == old(job).id,
            final(self)@.offset == old(self)@.offset,
            final(self)@ == on_esc_feed_lines(old(self)@, old(job)@, b).0,
            final(job)@ == on_esc_feed_lines(old(self)@, old(job)@, b).1,
    {
        self.flush_text(job);
        if b > 0 {
            push_element(job, PrintElement::LineFeed { lines: b as u32 });
        }
        let mut d = text_dec("ESC d feed ", b as u64);
        d.append(" lines");
        self.log_cmd(job, byte_list3(ESC, 0x64, b), d);
        self.state = ParserState::Normal;
    }

    fn on_esc_feed_dots(&mut self, b: u8, job: &mut PrintJob)
        ensures
            final(job).received_at == old(job).received_at,
            final(job).id == old(job).id,
            final(self)@.offset == old(self)@.offset,
            final(self)@ == on_esc_feed_dots(old(self)@, old(job)@, b).0,
            final(job)@ == on_esc_feed_dots(old(self)@, old(job)@, b).1,
    {
        push_element(job, PrintElement::FeedDots { dots: b as u32 });
        let mut d = text_dec("ESC J feed ", b as u64);
        d.append(" dots");
        self.log_cmd(job, byte_list3(ESC, 0x4A, b), d);
        self.state = ParserState::Normal;
    }

    fn on_esc_codepage(&mut self, b: u8, job: &mut PrintJob)
        ensures
            final(job).received_at == old(job).received_at,
            final(job).id == old(job).id,
            final(self)@.offset == old(self)@.offset,
            final(self)@ == on_esc_codepage(old(self)@, old(job)@, b).0,
            final(job)@ == on_esc_codepage(old(self)@, old(job)@, b).1,
    {
        self.printer.code_page = if b == 0 {
            CodePage::Pc437
        } else if b == 2 {
            CodePage::Pc850
        } else if b == 16 || b == 17 {
            CodePage::Windows1252
        } else if b == 255 {
            CodePage::Utf8
        } else {
            CodePage::Unknown(b)
        };
        self.log_cmd(job, byte_list3(ESC, 0x74, b), text_dec("ESC t codepage=", b as u64));
        self.state = ParserState::Normal;
    }

    fn on_gs_char_size(&mut self, b: u8, job: &mut PrintJob)
        ensures
            final(job).received_at == old(job).received_at,
            final(job).id == old(job).id,
            final(self)@.offset == old(self)@.offset,
            final(self)@ == on_gs_char_size(old(self)@, old(job)@, b).0,
            final(job)@ == on_gs_char_size(old(self)@, old(job)@, b).1,
    {
        self.flush_text(job);
        assert((b >> 4u8) & 7u8 <= 7) by (bit_vector);
        assert(b & 7u8 <= 7) by (bit_vector);
        let w = ((b >> 4u8) & 7u8) + 1;
        let h = (b & 7u8) + 1;
        self.printer.char_width_multiplier = w;
        self.printer.char_height_multiplier = h;
        let mut d = text_dec("GS ! size w=", w as u64);
        d.append("x h=");
        push_dec(&mut d, h as u64);
        d.append("x");
        self.log_cmd(job, byte_list3(GS, 0x21, b), d);
        self.state = ParserState::Normal;
    }

    fn on_gs_inverse(&mut self, b: u8, job: &mut PrintJob)
        ensures
            final(job).received_at == old(job).received_at,
            final(job).id == old(job).id,
            final(self)@.offset == old(self)@.offset,
            final(self)@ == on_gs_inverse(old(self)@, old(job)@, b).0,
            final(job)@ == on_gs_inverse(old(self)@, old(job)@, b).1,
    {
        self.flush_text(job);
        self.printer.inverse = b != 0;
        self.log_cmd(job, byte_list3(GS, 0x42, b), text_bool("GS B inverse=", b != 0));
        self.state = ParserState::Normal;
    }

    fn on_gs_cut_type(&mut self, b: u8, job: &mut PrintJob)
        ensures
            final(job).received_at == old(job).received_at,
            final(job).id == old(job).id,
            final(self)@.offset == old(self)@.offset,
            final(self)@ == on_gs_cut_type(old(self)@, old(job)@, b).0,
            final(job)@ == on_gs_cut_type(old(self)@, old(job)@, b).1,
    {
        self.flush_text(job);
        if b == 0 || b == 48 || b == 1 || b == 49 || b == 65 || b == 66 || b == 97 || b == 98 {
            let partial = b == 1 || b == 49 || b == 66 || b == 98;
            let feed = b == 65 || b == 66 || b == 97 || b == 98;
            push_element(job, PrintElement::Cut { partial });
            self.log_cmd(job, byte_list3(GS, 0x56, b), text_bool("GS V cut partial=", partial));
            self.state = if feed {
                ParserState::GsCutFeedParam
            } else {
                ParserState::Normal
            };
        } else {
            self.warn(job, text_hex2("GS V unknown type 0x", b));
            self.state = ParserState::Normal;
        }
    }

    fn on_gs_k_type(&mut self, b: u8, job: &mut PrintJob)
        ensures
            final(job).received_at == old(job).received_at,
            final(job).id == old(job).id,
            final(self)@.offset == old(self)@.offset,
            final(self)@ == on_gs_k_type(old(self)@, old(job)@, b).0,
            final(job)@ == on_gs_k_type(old(self)@, old(job)@, b).1,
    {
        if b <= 8 || b == 10 || b == 11 || b == 32 {
            self.buf = Vec::new();
            self.state = ParserState::GsBarcodeNulTerm { btype: BarcodeType::from_esc_n(b) };
            proof {
                assert(self@ =~= on_gs_k_type(old(self)@, old(job)@, b).0);
            }
        } else if (65 <= b && b <= 73) || b == 97 || b == 104 {
            self.state = ParserState::GsBarcodeNewLen { btype: BarcodeType::from_esc_n(b) };
        } else {
            self.warn(job, text_hex2("GS k unknown barcode type 0x", b));
            self.state = ParserState::Normal;
        }
    }

    fn on_gs_qr_fn(&mut self, f: u8, pl: u8, ph: u8, job: &mut PrintJob)
        ensures
            final(job).received_at == old(job).received_at,
            final(job).id == old(job).id,
            final(self)@.offset == old(self)@.offset,
            final(self)@ == on_gs_qr_fn(old(self)@, old(job)@, f, pl, ph).0,
            final(job)@ == on_gs_qr_fn(old(self)@, old(job)@, f, pl, ph).1,
    {
        let total: usize = (pl as usize) + 256 * (ph as usize);
        let rem: usize = if total >= 2 {
            total - 2
        } else {
            0
        };
        if f == 65 {
            self.log_cmd(job, Vec::new(), String::from_str("GS ( k QR model"));
            self.state = if rem > 0 {
                ParserState::GsQrModelN1 { remaining: rem }
            } else {
                ParserState::Normal
            };
        } else if f == 67 {
            self.log_cmd(job, Vec::new(), String::from_str("GS ( k QR size"));
            self.state = if rem > 0 {
                ParserState::GsQrSize { remaining: rem }
            } else {
                ParserState::Normal
            };
        } else if f == 69 {
            self.log_cmd(job, Vec::new(), String::from_str("GS ( k QR error correction"));
            self.state = if rem > 0 {
                ParserState::GsQrEc { remaining: rem }
            } else {
                ParserState::Normal
            };
        } else if f == 80 {
            self.log_cmd(job, Vec::new(), String::from_str("GS ( k QR store data"));
            if rem > 0 {
                self.buf = Vec::new();
                self.state = ParserState::GsQrStore { remaining: rem };
                proof {
                    assert(self@ =~= on_gs_qr_fn(old(self)@, old(job)@, f, pl, ph).0);
                }
            } else {
                self.state = ParserState::Normal;
            }
        } else if f == 81 {
            self.flush_text(job);
            self.emit_qr(job);
            self.log_cmd(job, Vec::new(), String::from_str("GS ( k QR print"));
            self.state = if rem > 0 {
                ParserState::GsQrPrint { remaining: rem }
            } else {
                ParserState::Normal
            };
        } else {
            self.warn(job, text_hex2("GS ( k unknown fn=0x", f));
            self.state = if rem > 0 {
                ParserState::GsQrSkip { remaining: rem }
            } else {
                ParserState::Normal
            };
        }
    }
}

impl EscPosParser {
    /// Whether the parser holds its invariant (see `model_wf`).
    pub closed spec fn wf(&self) -> bool {
        model_wf(self@)
    }

    fn step(&mut self, b: u8, job: &mut PrintJob)
        requires
            model_wf(old(self)@),
        ensures
            final(job).received_at == old(job).received_at,
            final(job).id == old(job).id,
            final(self)@ == step(old(self)@, old(job)@, b).0,
            final(job)@ == step(old(self)@, old(job)@, b).1,
            final(self)@.offset == old(self)@.offset,
            model_wf(final(self)@),
    {
        proof {
            reveal(step);
        }
        match self.state {
            ParserState::Normal => self.on_normal(b, job),
            ParserState::EscPending => self.on_esc(b, job),
            ParserState::GsPending => self.on_gs(b, job),
            ParserState::EscAlign => self.on_esc_align(b, job),
            ParserState::EscBold => self.on_esc_bold(b, job),
            ParserState::EscUnderline => self.on_esc_underline(b, job),
            ParserState::EscPrintMode => self.on_esc_print_mode(b, job),
            ParserState::EscFont => self.on_esc_font(b, job),
            ParserState::EscLineSpacing => self.on_esc_linespacing(b, job),
            ParserState::EscFeedLines => self.on_esc_feed_lines(b, job),
            ParserState::EscFeedDots => self.on_esc_feed_dots(b, job),
            ParserState::EscCodePage => self.on_esc_codepage(b, job),
            ParserState::EscUpsideDown => {
                self.printer.upside_down = b != 0;
                self.state = ParserState::Normal;
            },
            ParserState::EscSkipOne => {
                self.state = ParserState::Normal;
            },
            ParserState::EscSkipTwo { got } => {
                self.state = if got == 0 {
                    ParserState::EscSkipTwo { got: 1 }
                } else {
                    ParserState::Normal
                };
            },
            _ => self.step_data(b, job),
        }
    }

    #[verifier::rlimit(50)]
    fn step_data(&mut self, b: u8, job: &mut PrintJob)
        requires
            model_wf(old(self)@),
        ensures
            final(job).received_at == old(job).received_at,
            final(job).id == old(job).id,
            final(self)@ == step_data(old(self)@, old(job)@, b).0,
            final(job)@ == step_data(old(self)@, old(job)@, b).1,
            final(self)@.offset == old(self)@.offset,
            model_wf(final(self)@),
    {
        match self.state {
            ParserState::EscBitImageMode => {
                self.state = ParserState::EscBitImageWidthL { mode: b };
            },
            ParserState::EscBitImageWidthL { mode } => {
                self.state = ParserState::EscBitImageWidthH { mode, wl: b };
            },
            ParserState::EscBitImageWidthH { mode, wl } => {
                let width: u16 = (wl as u16) + (b as u16) * 256;
                let bpc: u16 = if mode == 32 || mode == 33 {
                    3
                } else {
                    1
                };
                assert((width as usize) * (bpc as usize) <= 0xFFFF * 3) by (nonlinear_arith)
                    requires
                        width <= 0xFFFF,
                        bpc <= 3,
                ;
                let remaining: usize = (width as usize) * (bpc as usize);
                if remaining == 0 {
                    self.state = ParserState::Normal;
                } else {
                    self.buf = Vec::new();
                    self.state = ParserState::EscBitImageData {
                        mode,
                        width,
                        height: bpc * 8,
                        remaining,
                    };
                    proof {
                        assert(self@ =~= step_data(old(self)@, old(job)@, b).0);
                    }
                }
            },
            ParserState::EscBitImageData { mode, width, height, remaining } => {
                self.buf.push(b);
                if self.buf.len() >= remaining {
                    let wb: u32 = ((width as u32) + 7) / 8;
                    self.emit_raster(wb, height as u32, job);
                    self.state = ParserState::Normal;
                }
            },
            ParserState::GsCharSize => self.on_gs_char_size(b, job),
            ParserState::GsInverse => self.on_gs_inverse(b, job),
            ParserState::GsCutType => self.on_gs_cut_type(b, job),
            ParserState::GsCutFeedParam => {
                self.log_cmd(
                    job,
                    byte_list3(GS, 0x56, b),
                    String::from_str("GS V cut feed param (skipped)"),
                );
                self.state = ParserState::Normal;
            },
            ParserState::GsBarcodeHeight => {
                self.log_cmd(job, byte_list3(GS, 0x68, b), text_dec("GS h height=", b as u64));
                self.bc_height = b;
                self.state = ParserState::Normal;
            },
            ParserState::GsBarcodeWidth => {
                self.log_cmd(job, byte_list3(GS, 0x77, b), text_dec("GS w width=", b as u64));
                self.bc_width = b;
                self.state = ParserState::Normal;
            },
            ParserState::GsHriPosition => {
                self.log_cmd(job, byte_list3(GS, 0x48, b), text_dec("GS H hri=", b as u64));
                self.bc_hri = if b == 0 {
                    HriPosition::Hidden
                } else if b == 1 {
                    HriPosition::Above
                } else if b == 3 {
                    HriPosition::Both
                } else {
                    HriPosition::Below
                };
                self.state = ParserState::Normal;
            },
            ParserState::GsBarcodeFont => {
                self.log_cmd(job, byte_list3(GS, 0x66, b), String::from_str("GS f barcode font"));
                self.state = ParserState::Normal;
            },
            ParserState::GsBarcodeTypeSelect => self.on_gs_k_type(b, job),
            ParserState::GsBarcodeNulTerm { btype } => {
                if b == NUL {
                    let raw = self.buf.clone();
                    self.emit_barcode(btype, &raw, job);
                    self.state = ParserState::Normal;
                } else {
                    self.buf.push(b);
                }
            },
            ParserState::GsBarcodeNewLen { btype } => {
                self.buf = Vec::new();
                self.state = ParserState::GsBarcodeNewData { btype, remaining: b as usize };
                proof {
                    assert(self@ =~= step_data(old(self)@, old(job)@, b).0);
                }
            },
            ParserState::GsBarcodeNewData { btype, remaining } => {
                self.buf.push(b);
                if self.buf.len() >= remaining {
                    let raw = self.buf.clone();
                    self.emit_barcode(btype, &raw, job);
                    self.state = ParserState::Normal;
                }
            },
            _ => self.step_qr(b, job),
        }
    }

    #[verifier::rlimit(50)]
    fn step_qr(&mut self, b: u8, job: &mut PrintJob)
        requires
            model_wf(old(self)@),
        ensures
            final(job).received_at == old(job).received_at,
            final(job).id == old(job).id,
            final(self)@ == step_qr(old(self)@, old(job)@, b).0,
            final(job)@ == step_qr(old(self)@, old(job)@, b).1,
            final(self)@.offset == old(self)@.offset,
            model_wf(final(self)@),
    {
        match self.state {
            ParserState::EscZVersion => {
                self.state = ParserState::EscZEcc { v: b };
            },
            ParserState::EscZEcc { v } => {
                let ec = if b == 0x4C || b == 0x6C || b == 48 || b == 0 {
                    QrErrorCorrection::L
                } else if b == 0x51 || b == 0x71 || b == 50 || b == 2 {
                    QrErrorCorrection::Q
                } else if b == 0x48 || b == 0x68 || b == 51 || b == 3 {
                    QrErrorCorrection::H
                } else {
                    QrErrorCorrection::M
                };
                self.state = ParserState::EscZSize { v, ec };
            },
            ParserState::EscZSize { v, ec } => {
                let size = if b < 1 {
                    1
                } else if b > 16 {
                    16
                } else {
                    b
                };
                self.state = ParserState::EscZLenL { v, ec, size };
            },
            ParserState::EscZLenL { v, ec, size } => {
                self.state = ParserState::EscZLenH { v, ec, size, xl: b };
            },
            ParserState::EscZLenH { v, ec, size, xl } => {
                let len: usize = (xl as usize) + (b as usize) * 256;
                if len == 0 {
                    self.state = ParserState::Normal;
                } else {
                    self.buf = Vec::new();
                    self.state = ParserState::EscZData { ec, size, remaining: len };
                    proof {
                        assert(self@ =~= step_qr(old(self)@, old(job)@, b).0);
                    }
                }
            },
            ParserState::EscZData { ec, size, remaining } => {
                self.buf.push(b);
                if self.buf.len() >= remaining {
                    self.flush_text(job);
                    let data = utf8_lossy(self.buf.as_slice());
                    let png_b64 = self.render_qr_warned(&data, ec, size, job);
                    let mut d = String::from_str("ESC Z QR code data=");
                    d.append(debug_string(data.as_str()).as_str());
                    self.log_cmd(job, Vec::new(), d);
                    push_element(
                        job,
                        PrintElement::QrCode {
                            data,
                            error_correction: ec,
                            module_size: size,
                            png_b64,
                        },
                    );
                    self.state = ParserState::Normal;
                }
            },
            ParserState::GsExtFnType => {
                self.state = ParserState::GsExtFnPL;
            },
            ParserState::GsExtFnPL => {
                self.state = ParserState::GsExtFnPH { pl: b };
            },
            ParserState::GsExtFnPH { pl } => {
                self.state = ParserState::GsExtFnCN { pl, ph: b };
            },
            ParserState::GsExtFnCN { pl, ph } => {
                self.state = ParserState::GsExtFnFN { pl, ph, cn: b };
            },
            ParserState::GsExtFnFN { pl, ph, cn } => self.on_gs_qr_fn(b, pl, ph, job),
            ParserState::GsQrModelN1 { remaining } => {
                self.qr_model = b;
                self.state = if remaining > 1 {
                    ParserState::GsQrModelN2 { remaining: remaining - 1 }
                } else {
                    ParserState::Normal
                };
            },
            ParserState::GsQrModelN2 { remaining } => {
                self.state = skip_after(remaining);
            },
            ParserState::GsQrSize { remaining } => {
                self.qr_size = if b < 1 {
                    1
                } else if b > 16 {
                    16
                } else {
                    b
                };
                self.state = skip_after(remaining);
            },
            ParserState::GsQrEc { remaining } => {
                self.qr_ec = if b == 48 || b == 0 {
                    QrErrorCorrection::L
                } else if b == 50 || b == 2 {
                    QrErrorCorrection::Q
                } else if b == 51 || b == 3 {
                    QrErrorCorrection::H
                } else {
                    QrErrorCorrection::M
                };
                self.state = skip_after(remaining);
            },
            ParserState::GsQrStore { remaining } => {
                self.buf.push(b);
                if self.buf.len() >= remaining {
                    if self.buf.len() > 1 && (self.buf[0] == 0 || self.buf[0] == 0x30) {
                        self.qr_data = chars_after_first(&self.buf);
                    } else {
                        self.qr_data = self.buf.clone();
                    }
                    self.state = ParserState::Normal;
                    proof {
                        assert(self@ =~= step_qr(old(self)@, old(job)@, b).0);
                    }
                }
            },
            ParserState::GsQrPrint { remaining } => {
                self.state = if remaining > 1 {
                    ParserState::GsQrPrint { remaining: remaining - 1 }
                } else {
                    ParserState::Normal
                };
            },
            ParserState::GsQrSkip { remaining } => {
                self.state = skip_after(remaining);
            },
            _ => self.step_raster(b, job),
        }
    }

    fn step_raster(&mut self, b: u8, job: &mut PrintJob)
        requires
            model_wf(old(self)@),
        ensures
            final(job).received_at == old(job).received_at,
            final(job).id == old(job).id,
            final(self)@ == step_raster(old(self)@, old(job)@, b).0,
            final(job)@ == step_raster(old(self)@, old(job)@, b).1,
            final(self)@.offset == old(self)@.offset,
            model_wf(final(self)@),
    {
        match self.state {
            ParserState::GsRasterExpectZero => {
                self.state = if b == 0x30 || b == 0 {
                    ParserState::GsRasterMode
                } else {
                    ParserState::GsRasterXL { mode: b }
                };
            },
            ParserState::GsRasterMode => {
                self.state = ParserState::GsRasterXL { mode: b };
            },
            ParserState::GsRasterXL { mode } => {
                self.state = ParserState::GsRasterXH { mode, xl: b };
            },
            ParserState::GsRasterXH { mode, xl } => {
                self.state = ParserState::GsRasterYL { mode, xl, xh: b };
            },
            ParserState::GsRasterYL { mode, xl, xh } => {
                self.state = ParserState::GsRasterYH { mode, xl, xh, yl: b };
            },
            ParserState::GsRasterYH { mode, xl, xh, yl } => {
                let width_bytes: u32 = (xl as u32) + (xh as u32) * 256;
                let height: u32 = (yl as u32) + (b as u32) * 256;
                assert(width_bytes * height <= 0xFFFF * 0xFFFF) by (nonlinear_arith)
                    requires
                        width_bytes <= 0xFFFF,
                        height <= 0xFFFF,
                ;
                let remaining: usize = (width_bytes as usize) * (height as usize);
                if remaining == 0 {
                    self.state = ParserState::Normal;
                } else {
                    self.buf = Vec::new();
                    self.state = ParserState::GsRasterData { width_bytes, height, remaining };
                    proof {
                        assert(self@ =~= step_raster(old(self)@, old(job)@, b).0);
                    }
                }
            },
            ParserState::GsRasterData { width_bytes, height, remaining } => {
                self.buf.push(b);
                if self.buf.len() >= remaining {
                    self.emit_raster(width_bytes, height, job);
                    self.state = ParserState::Normal;
                }
            },
            _ => {},
        }
    }
}

/// Count down the parameter bytes of a `GS ( k` function.
fn skip_after(remaining: usize) -> (s: ParserState)
    ensures
        s == then_skip(remaining),
{
    if remaining > 1 {
        ParserState::GsQrSkip { remaining: remaining - 1 }
    } else {
        ParserState::Normal
    }
}

fn chars_after_first(v: &Vec<u8>) -> (r: Vec<u8>)
    requires
        v@.len() >= 1,
    ensures
        r@ == v@.drop_first(),
{
    let mut r: Vec<u8> = Vec::new();
    let mut i: usize = 1;
    while i < v.len()
        invariant
            1 <= i <= v@.len(),
            r@ == v@.subrange(1, i as int),
        decreases v@.len() - i,
    {
        r.push(v[i]);
        proof {
            assert(r@ =~= v@.subrange(1, i + 1));
        }
        i += 1;
    }
    proof {
        assert(r@ =~= v@.drop_first());
    }
    r
}

impl EscPosParser {
    /// Parse all bytes in `job.raw_bytes` and add the elements, commands and
    /// warnings they make to the job.
    pub fn parse(&mut self, job: &mut PrintJob)
        requires
            old(self).wf(),
            old(self)@.offset + old(job)@.raw_bytes.len() <= usize::MAX,
        ensures
            final(job).received_at == old(job).received_at,
            final(job).id == old(job).id,
            final(self)@ == parse_job(old(self)@, old(job)@).0,
            final(job)@ == parse_job(old(self)@, old(job)@).1,
            final(self).wf(),
    {
        let ghost m0 = self@;
        let ghost j0 = job@;
        let ghost t0 = job.received_at;
        let bytes = job.raw_bytes.clone();
        let n = bytes.len();
        let mut i: usize = 0;
        proof {
            assert(bytes@.take(0) =~= Seq::<u8>::empty());
        }
        while i < n
            invariant
                n == bytes@.len(),
                bytes@ == j0.raw_bytes,
                i <= n,
                m0.offset + n <= usize::MAX,
                job.received_at == t0,
                job.id == old(job).id,
                self@.offset == m0.offset + i,
                model_wf(self@),
                self@ == run(m0, j0, bytes@.take(i as int)).0,
                job@ == run(m0, j0, bytes@.take(i as int)).1,
            decreases n - i,
        {
            proof {
                assert(bytes@.take(i + 1).drop_last() =~= bytes@.take(i as int));
            }
            self.step(bytes[i], job);
            self.offset += 1;
            i += 1;
        }
        proof {
            assert(bytes@.take(n as int) =~= bytes@);
        }
        self.flush_text(job);
        proof {
            reveal(parse_job);
        }
    }
}

/// Parse raw bytes into a new print job (stamped with the current time).
pub fn parse_escpos(raw: Vec<u8>, paper_width: PaperWidth, job_id: String) -> (job: PrintJob)
    ensures
        job@ == parse_job(
            initial_model(paper_width),
            fresh_job(job_id@, job.received_at, SourceView::DirectApi, raw@),
        ).1,
{
    let byte_count: usize = raw.len();
    let mut job = PrintJob::new(job_id, JobSource::DirectApi, raw);
    let mut parser = EscPosParser::new(paper_width);
    assert(job@.raw_bytes.len() == byte_count);
    parser.parse(&mut job);
    job
}

} // verus!
