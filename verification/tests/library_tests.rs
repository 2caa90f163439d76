// Tests of the library beyond the parser scenarios: warnings, hex dumps,
// HTML rendering and escaping, printer state, paper presets, the server's
// bookkeeping, the sample receipts and the barcode and QR renderers.

use aqnoor_virtual_printer::barcode::{draw_matrix, render_barcode};
use aqnoor_virtual_printer::escpos_parser::{parse_escpos, EscPosParser};
use aqnoor_virtual_printer::print_job::{
    hex_string, BarcodeType, HriPosition, JobSource, PrintElement, PrintJob, QrErrorCorrection,
};
use aqnoor_virtual_printer::printer_state::{
    paper_width_from_mm, paper_width_mm, Alignment, Font, PaperWidth, PrinterState,
};
use aqnoor_virtual_printer::qrcode::{draw_qr, render_qrcode};
use aqnoor_virtual_printer::renderer::{html_escape, ReceiptRenderer};
use aqnoor_virtual_printer::tcp_server::{command_offset_text, process_job, ServerState};
use aqnoor_virtual_printer::test_receipt::{
    build_minimal_receipt, build_text_receipt, build_upi_test_receipt,
};

const ESC: u8 = 0x1B;
const GS: u8 = 0x1D;
const LF: u8 = 0x0A;

fn parse(raw: &[u8]) -> PrintJob {
    parse_escpos(raw.to_vec(), PaperWidth::Mm80, "job-0001".to_string())
}

fn texts(job: &PrintJob) -> Vec<String> {
    job.elements
        .iter()
        .filter_map(|e| match e {
            PrintElement::Text { content, .. } => Some(content.clone()),
            _ => None,
        })
        .collect()
}

// ── Warnings ────────────────────────────────────────────────────────────────

#[test]
fn unknown_esc_command_warns_with_offset() {
    let job = parse(&[b'A', ESC, b'z']);
    assert_eq!(job.warnings, vec!["[+0002] Unknown ESC 0x7A ('z')".to_string()]);
}

#[test]
fn unknown_gs_command_warns() {
    let job = parse(&[GS, b'z']);
    assert_eq!(job.warnings, vec!["[+0001] Unknown GS 0x7A ('z')".to_string()]);
}

#[test]
fn unhandled_control_byte_warns() {
    let job = parse(&[0x01]);
    assert_eq!(job.warnings, vec!["[+0000] Unhandled byte 0x01".to_string()]);
}

#[test]
fn unknown_cut_type_warns() {
    let job = parse(&[GS, b'V', 7]);
    assert_eq!(job.warnings, vec!["[+0002] GS V unknown type 0x07".to_string()]);
    assert!(job.elements.is_empty());
}

#[test]
fn unknown_barcode_type_warns() {
    let job = parse(&[GS, b'k', 0x50]);
    assert_eq!(job.warnings, vec!["[+0002] GS k unknown barcode type 0x50".to_string()]);
}

#[test]
fn qr_print_without_data_warns() {
    // GS ( k pL=3 pH=0 cn=49 fn=81 m=48
    let job = parse(&[GS, b'(', b'k', 3, 0, 49, 81, 48]);
    assert_eq!(job.warnings, vec!["[+0006] QR print: no data stored".to_string()]);
    assert!(job.elements.iter().all(|e| !matches!(e, PrintElement::QrCode { .. })));
}

#[test]
fn unknown_qr_function_warns() {
    let job = parse(&[GS, b'(', b'k', 3, 0, 49, 90, 0]);
    assert_eq!(job.warnings, vec!["[+0006] GS ( k unknown fn=0x5A".to_string()]);
}

// ── Parser behaviour ────────────────────────────────────────────────────────

#[test]
fn esc_at_resets_formatting() {
    let job = parse(&[ESC, b'E', 1, ESC, b'a', 2, b'X', LF, ESC, b'@', b'Y', LF]);
    let styles: Vec<(String, bool, Alignment)> = job
        .elements
        .iter()
        .filter_map(|e| match e {
            PrintElement::Text { content, style } => {
                Some((content.clone(), style.bold, style.alignment))
            }
            _ => None,
        })
        .collect();
    assert_eq!(
        styles,
        vec![("X".to_string(), true, Alignment::Right), ("Y".to_string(), false, Alignment::Left)]
    );
}

#[test]
fn char_size_multipliers_stay_in_range() {
    let job = parse(&[GS, b'!', 0xFF, b'B', LF]);
    match &job.elements[0] {
        PrintElement::Text { content, style } => {
            assert_eq!(content, "B");
            assert_eq!(style.char_width_multiplier, 8);
            assert_eq!(style.char_height_multiplier, 8);
        }
        other => panic!("expected text, got {:?}", other),
    }
}

#[test]
fn underline_is_capped_at_two() {
    let job = parse(&[ESC, b'-', 9, b'U', LF]);
    match &job.elements[0] {
        PrintElement::Text { style, .. } => assert_eq!(style.underline, 2),
        other => panic!("expected text, got {:?}", other),
    }
}

#[test]
fn tab_pads_to_next_eighth_column() {
    let job = parse(&[b'a', b'b', 0x09, b'c', LF]);
    assert_eq!(texts(&job), vec!["ab      c".to_string()]);
}

#[test]
fn high_bytes_print_as_question_marks_on_code_page_437() {
    let job = parse(&[b'a', 0xE9, LF]);
    assert_eq!(texts(&job), vec!["a?".to_string()]);
}

#[test]
fn high_bytes_print_as_latin1_on_code_page_1252() {
    let job = parse(&[ESC, b't', 16, b'a', 0xE9, LF]);
    assert_eq!(texts(&job), vec!["a\u{e9}".to_string()]);
}

#[test]
fn feed_lines_and_dots() {
    let job = parse(&[ESC, b'd', 3, ESC, b'J', 40]);
    assert!(matches!(job.elements[0], PrintElement::LineFeed { lines: 3 }));
    assert!(matches!(job.elements[1], PrintElement::FeedDots { dots: 40 }));
}

#[test]
fn text_is_flushed_at_end_of_job() {
    let job = parse(b"no newline");
    assert_eq!(texts(&job), vec!["no newline".to_string()]);
}

#[test]
fn form_feed_cuts() {
    let job = parse(&[b'x', 0x0C]);
    assert!(matches!(job.elements[1], PrintElement::Cut { partial: false }));
}

#[test]
fn qr_tag_line_becomes_qr_code() {
    let job = parse(b"before\n[QR:hello]\n");
    let qr: Vec<&PrintElement> =
        job.elements.iter().filter(|e| matches!(e, PrintElement::QrCode { .. })).collect();
    assert_eq!(qr.len(), 1);
    match qr[0] {
        PrintElement::QrCode { data, error_correction, module_size, png_b64 } => {
            assert_eq!(data, "hello");
            assert_eq!(*error_correction, QrErrorCorrection::M);
            assert_eq!(*module_size, 4);
            assert!(png_b64.is_some());
        }
        _ => unreachable!(),
    }
}

#[test]
fn commands_are_logged_with_offsets() {
    let job = parse(&[b'a', LF, ESC, b'E', 1]);
    assert_eq!(job.parsed_commands.len(), 2);
    assert_eq!(job.parsed_commands[0].byte_offset, 1);
    assert_eq!(job.parsed_commands[0].description, "LF");
    assert_eq!(job.parsed_commands[1].byte_offset, 4);
    assert_eq!(job.parsed_commands[1].description, "ESC E bold=true");
    assert_eq!(job.parsed_commands[1].raw_bytes, vec![ESC, b'E', 1]);
    assert_eq!(command_offset_text(&job.parsed_commands[1]), "0004");
}

#[test]
fn parser_keeps_raw_bytes_and_count() {
    let raw = [ESC, b'@', b'h', b'i', LF];
    let job = parse(&raw);
    assert_eq!(job.raw_bytes, raw.to_vec());
    assert_eq!(job.byte_count, 5);
    assert_eq!(job.id, "job-0001");
}

#[test]
fn parser_flush_text_emits_pending_line() {
    let mut job = PrintJob::new("j".to_string(), JobSource::DirectApi, b"abc".to_vec());
    let mut parser = EscPosParser::new(PaperWidth::Mm58);
    parser.parse(&mut job);
    assert_eq!(texts(&job), vec!["abc".to_string()]);
    parser.flush_text(&mut job);
    assert_eq!(texts(&job).len(), 1);
}

// ── Hex dumps ───────────────────────────────────────────────────────────────

#[test]
fn hex_dump_separates_bytes_with_spaces() {
    let job = PrintJob::new("j".to_string(), JobSource::DirectApi, vec![0x1B, 0x40, 0x0A, 0xFF]);
    assert_eq!(job.hex_dump(), "1B 40 0A FF");
    assert_eq!(hex_string(&vec![]), "");
    assert_eq!(hex_string(&vec![0x00]), "00");
}

#[test]
fn hex_dump_formatted_has_offsets_and_ascii() {
    let raw: Vec<u8> = (0x41u8..0x41 + 18).collect();
    let job = PrintJob::new("j".to_string(), JobSource::DirectApi, raw);
    let expected = format!(
        "0000  {:<47}  |ABCDEFGHIJKLMNOP|\n0010  {:<47}  |QR|\n",
        "41 42 43 44 45 46 47 48 49 4A 4B 4C 4D 4E 4F 50", "51 52"
    );
    assert_eq!(job.hex_dump_formatted(), expected);
}

#[test]
fn hex_dump_formatted_replaces_unprintable_bytes() {
    let job = PrintJob::new("j".to_string(), JobSource::DirectApi, vec![0x1B, b'a', 0x7F]);
    assert_eq!(job.hex_dump_formatted(), format!("0000  {:<47}  |.a.|\n", "1B 61 7F"));
}

#[test]
fn hex_dump_layout_matches_byte_count() {
    let raw: Vec<u8> = (0u8..=255).collect();
    let dump = hex_string(&raw);
    assert_eq!(dump.len(), 3 * 256 - 1);
    assert_eq!(&dump[3 * 171..3 * 171 + 2], "AB");
}

// ── HTML ────────────────────────────────────────────────────────────────────

#[test]
fn html_escape_replaces_special_characters() {
    assert_eq!(html_escape("<a href=\"x\">Tom & Jerry's</a>"),
        "&lt;a href=&quot;x&quot;&gt;Tom &amp; Jerry&#39;s&lt;/a&gt;");
    assert_eq!(html_escape("plain text"), "plain text");
}

#[test]
fn render_html_draws_text_with_style() {
    let job = parse(&[GS, b'!', 0x11, ESC, b'E', 1, b'<', b'b', b'>', LF]);
    assert!(ReceiptRenderer::renderable(&job));
    let html = ReceiptRenderer::render_html(&job, PaperWidth::Mm80);
    assert!(html.contains("width: 288px;"));
    assert!(html.contains(
        "<div class=\"receipt-line\" style=\"font-family:'Courier New', Courier, monospace; font-size:24px; text-align:left; display:block; white-space:pre-wrap; word-break:break-all; letter-spacing: 4px; font-weight:bold;\">&lt;b&gt;</div>"
    ));
    assert!(html.contains("<div class=\"receipt-feed\"></div>"));
    assert!(html.contains("Job ID: job-0001 | 10 bytes | 80mm | "));
    assert!(html.starts_with("<!DOCTYPE html>"));
    assert!(html.ends_with("</html>"));
}

#[test]
fn render_html_draws_cuts_and_feeds() {
    let job = parse(&[ESC, b'J', 21, GS, b'V', 1, ESC, b'i']);
    let html = ReceiptRenderer::render_html(&job, PaperWidth::Mm58);
    assert!(html.contains("width: 192px;"));
    assert!(html.contains("<div class=\"receipt-feed\" style=\"height:10px;\"></div>"));
    assert!(html.contains("<div class=\"receipt-cut partial\"><span>\u{2014} \u{2014} \u{2014} \u{2014} \u{2014} CUT \u{2014} \u{2014} \u{2014} \u{2014} \u{2014}</span></div>"));
    assert!(html.contains("<div class=\"receipt-cut full\"><span>"));
    assert!(html.contains(" | 58mm | "));
}

#[test]
fn render_html_shows_time_of_day_in_utc() {
    let mut job = parse(b"t\n");
    job.received_at.secs = 86400 * 3 + 3600 * 13 + 60 * 5 + 9;
    job.received_at.nanos = 0;
    let html = ReceiptRenderer::render_html(&job, PaperWidth::Mm80);
    assert!(html.contains("| 13:05:09</div>"));
}

#[test]
fn render_html_cuts_job_id_to_eight_bytes() {
    let job = parse_escpos(vec![b'x'], PaperWidth::Mm80, "0123456789abcdef".to_string());
    let html = ReceiptRenderer::render_html(&job, PaperWidth::Mm80);
    assert!(html.contains("Job ID: 01234567 | 1 bytes |"));
}

#[test]
fn renderable_rejects_an_id_cut_inside_a_character() {
    let job = parse_escpos(vec![b'x'], PaperWidth::Mm80, "abcdefg\u{e9}h".to_string());
    assert!(!ReceiptRenderer::renderable(&job));
    let job = parse_escpos(vec![b'x'], PaperWidth::Mm80, "abcdef\u{e9}h".to_string());
    assert!(ReceiptRenderer::renderable(&job));
}

// ── Printer state and paper ─────────────────────────────────────────────────

#[test]
fn paper_presets() {
    assert_eq!(PaperWidth::Mm80.printable_px(), 576);
    assert_eq!(PaperWidth::Mm58.printable_px(), 384);
    assert_eq!(PaperWidth::Mm80.char_cols_font_a(), 48);
    assert_eq!(PaperWidth::Mm80.char_cols_font_b(), 64);
    assert_eq!(PaperWidth::Mm58.char_cols_font_a(), 32);
    assert_eq!(PaperWidth::Mm58.char_cols_font_b(), 42);
    assert_eq!(paper_width_from_mm(58), PaperWidth::Mm58);
    assert_eq!(paper_width_from_mm(80), PaperWidth::Mm80);
    assert_eq!(paper_width_from_mm(12), PaperWidth::Mm80);
    for w in [PaperWidth::Mm80, PaperWidth::Mm58] {
        assert_eq!(paper_width_from_mm(paper_width_mm(w)), w);
    }
}

#[test]
fn chars_per_line_follows_font_and_width() {
    let mut p = PrinterState::with_paper(PaperWidth::Mm58);
    assert_eq!(p.chars_per_line(), 32);
    p.char_width_multiplier = 2;
    assert_eq!(p.chars_per_line(), 16);
    p.font = Font::B;
    assert_eq!(p.chars_per_line(), 21);
    p.char_width_multiplier = 200;
    assert_eq!(p.chars_per_line(), 1);
}

#[test]
fn reset_keeps_paper_width() {
    let mut p = PrinterState::with_paper(PaperWidth::Mm58);
    p.bold = true;
    p.alignment = Alignment::Center;
    p.char_height_multiplier = 3;
    p.line_buffer.push_str("pending");
    p.reset();
    assert_eq!(p.paper_width, PaperWidth::Mm58);
    assert!(!p.bold);
    assert_eq!(p.alignment, Alignment::Left);
    assert_eq!(p.char_height_multiplier, 1);
    assert_eq!(p.line_spacing, 30);
    assert!(p.line_buffer.is_empty());
    let s = p.current_style();
    assert_eq!(s.font, Font::A);
    assert_eq!(s.char_width_multiplier, 1);
}

#[test]
fn barcode_numbering() {
    assert_eq!(BarcodeType::from_esc_n(0), BarcodeType::UpcA);
    assert_eq!(BarcodeType::from_esc_n(65), BarcodeType::UpcA);
    assert_eq!(BarcodeType::from_esc_n(8), BarcodeType::Code128);
    assert_eq!(BarcodeType::from_esc_n(73), BarcodeType::Code128);
    assert_eq!(BarcodeType::from_esc_n(104), BarcodeType::QrCode);
    assert_eq!(BarcodeType::from_esc_n(9), BarcodeType::Unknown(9));
}

// ── Server bookkeeping ──────────────────────────────────────────────────────

#[test]
fn server_state_begin_and_record() {
    let mut s = ServerState::default();
    assert!(!s.running);
    assert_eq!(s.port, 9100);
    assert_eq!(s.begin(9200, 58), Ok("Server started on 127.0.0.1:9200".to_string()));
    assert!(s.running);
    assert_eq!(s.port, 9200);
    assert_eq!(s.paper_width, PaperWidth::Mm58);
    assert_eq!(s.begin(9300, 80), Err("Server is already running".to_string()));
    assert_eq!(s.port, 9200);
    let job = process_job(b"hi\n".to_vec(), s.paper_width, JobSource::DirectApi);
    s.record_job(job);
    assert_eq!(s.jobs_received, 1);
    assert_eq!(texts(s.last_job.as_ref().unwrap()), vec!["hi".to_string()]);
}

#[test]
fn process_job_gives_a_fresh_id() {
    let a = process_job(vec![b'x'], PaperWidth::Mm80,
        JobSource::TcpConnection { peer_addr: "127.0.0.1:5000".to_string() });
    let b = process_job(vec![b'x'], PaperWidth::Mm80, JobSource::DirectApi);
    assert_eq!(a.id.len(), 36);
    for (i, c) in a.id.chars().enumerate() {
        if i == 8 || i == 13 || i == 18 || i == 23 {
            assert_eq!(c, '-');
        } else {
            assert!(c.is_ascii_digit() || ('a'..='f').contains(&c));
        }
    }
    assert_ne!(a.id, b.id);
    assert_eq!(texts(&a), texts(&b));
}

// ── Sample receipts ─────────────────────────────────────────────────────────

#[test]
fn minimal_receipt_bytes_and_parse() {
    let raw = build_minimal_receipt();
    assert_eq!(raw, vec![ESC, 0x40, ESC, 0x61, 1, ESC, 0x45, 1, b'T', b'E', b'S', b'T', LF,
        ESC, 0x45, 0, GS, 0x56, 0]);
    let job = parse(&raw);
    assert_eq!(texts(&job), vec!["TEST".to_string()]);
    assert!(matches!(job.elements.last(), Some(PrintElement::Cut { partial: false })));
}

#[test]
fn text_receipt_sets_alignment_per_line() {
    let raw = build_text_receipt(&[("L", Alignment::Left), ("C", Alignment::Center),
        ("R", Alignment::Right)]);
    assert_eq!(&raw[..2], &[ESC, 0x40]);
    assert_eq!(&raw[raw.len() - 3..], &[GS, 0x56, 0]);
    let job = parse(&raw);
    let aligns: Vec<Alignment> = job.elements.iter().filter_map(|e| match e {
        PrintElement::Text { style, .. } => Some(style.alignment),
        _ => None,
    }).collect();
    assert_eq!(aligns, vec![Alignment::Left, Alignment::Center, Alignment::Right]);
}

#[test]
fn upi_receipt_has_caption_and_qr() {
    let job = parse(&build_upi_test_receipt());
    assert!(job.elements.iter().any(|e| matches!(e, PrintElement::QrCode { data, .. }
        if data.starts_with("upi://pay"))));
    assert!(job.elements.iter().any(|e| matches!(e, PrintElement::Text { content, style }
        if content == "SCAN TO PAY VIA UPI" && style.bold && style.alignment == Alignment::Center)));
    assert!(ReceiptRenderer::renderable(&job));
}

// ── Barcode and QR rendering ────────────────────────────────────────────────

#[test]
fn render_barcode_gives_base64_png() {
    let b64 = render_barcode(&BarcodeType::Code128, "12345").unwrap();
    assert!(b64.starts_with("iVBORw0KGgo"));
    assert_ne!(b64, "12345");
}

#[test]
fn render_barcode_refuses_bad_data() {
    assert!(render_barcode(&BarcodeType::Ean13, "not digits").is_err());
}

#[test]
fn render_qrcode_gives_base64_png() {
    let b64 = render_qrcode("hello", QrErrorCorrection::H, 3).unwrap();
    assert!(b64.starts_with("iVBORw0KGgo"));
    assert_ne!(b64, "hello");
}

#[test]
fn barcode_in_stream_carries_settings() {
    let raw = [&[GS, b'h', 60, GS, b'H', 0, GS, b'k', 4][..], b"ABC123", &[0u8][..]].concat();
    let job = parse(&raw);
    match &job.elements[0] {
        PrintElement::Barcode { barcode_type, data, hri, height_dots, png_b64 } => {
            assert_eq!(*barcode_type, BarcodeType::Code39);
            assert_eq!(data, "ABC123");
            assert_eq!(*hri, HriPosition::Hidden);
            assert_eq!(*height_dots, 60);
            assert!(png_b64.is_some());
        }
        other => panic!("expected a barcode, got {:?}", other),
    }
}

#[test]
fn esc_z_qr_data_is_decoded_lossily_and_logged_with_quotes() {
    let job = parse(&[ESC, b'Z', 0, b'M', 4, 2, 0, b'A', 0xFF, ESC, b'Z', 0, b'L', 3, 3, 0, b'a',
        b'"', b'b']);
    let data: Vec<String> = job.elements.iter().filter_map(|e| match e {
        PrintElement::QrCode { data, .. } => Some(data.clone()),
        _ => None,
    }).collect();
    assert_eq!(data, vec!["A\u{FFFD}".to_string(), "a\"b".to_string()]);
    assert_eq!(job.parsed_commands.last().unwrap().description,
        "ESC Z QR code data=\"a\\\"b\"");
}

#[test]
fn new_job_is_stamped_with_the_current_time() {
    let job = PrintJob::new("j".to_string(), JobSource::DirectApi, vec![1, 2, 3]);
    assert!(job.received_at.secs > 1_577_836_800);
    assert!(job.received_at.nanos < 1_000_000_000);
    assert_eq!(job.byte_count, 3);
    assert!(job.elements.is_empty() && job.parsed_commands.is_empty() && job.warnings.is_empty());
}

#[test]
fn draw_matrix_paints_set_modules_black() {
    let mut m = rxing::common::BitMatrix::new(3, 2).unwrap();
    m.set(1, 0);
    m.set(2, 1);
    assert_eq!(draw_matrix(&m, 3, 2), vec![255, 0, 255, 255, 255, 0]);
}

#[test]
fn draw_qr_adds_a_quiet_zone_of_four_modules() {
    let mut dark = vec![false; 21 * 21];
    dark[0] = true;
    dark[21 * 20 + 20] = true;
    let px = draw_qr(21, &dark, 2);
    let side = 21 * 2 + 8 * 2;
    assert_eq!(px.len(), side * side);
    let at = |x: usize, y: usize| px[y * side + x];
    assert_eq!(at(7, 7), 255);
    assert_eq!(at(8, 8), 0);
    assert_eq!(at(9, 9), 0);
    assert_eq!(at(10, 10), 255);
    assert_eq!(at(8 + 40, 8 + 40), 0);
    assert_eq!(at(8 + 41, 8 + 41), 0);
    assert_eq!(at(8 + 42, 8 + 42), 255);
    assert_eq!(px.iter().filter(|&&v| v == 0).count(), 8);
}

#[test]
fn formatting_change_flushes_pending_text() {
    let job = parse(&[ESC, b'E', 1, b'X', ESC, b'E', 0, b'Y', GS, b'!', 0x11, b'Z', LF]);
    let styled: Vec<(String, bool, u8)> = job.elements.iter().filter_map(|e| match e {
        PrintElement::Text { content, style } => {
            Some((content.clone(), style.bold, style.char_width_multiplier))
        }
        _ => None,
    }).collect();
    assert_eq!(styled, vec![("X".to_string(), true, 1), ("Y".to_string(), false, 1),
        ("Z".to_string(), false, 2)]);
}

#[test]
fn underline_font_and_inverse_changes_flush_too() {
    let job = parse(&[b'a', ESC, b'-', 1, b'b', ESC, b'M', 1, b'c', GS, b'B', 1, b'd', ESC, b'!', 0,
        b'e']);
    assert_eq!(texts(&job), vec!["a", "b", "c", "d", "e"]);
}

#[test]
fn render_png_bytes_draws_text_cells() {
    let job = parse(b"A B\nC\n");
    let png = ReceiptRenderer::render_png_bytes(&job, PaperWidth::Mm80);
    assert_eq!(&png[..8], &[0x89, 0x50, 0x4E, 0x47, 0x0D, 0x0A, 0x1A, 0x0A]);
    let img = image::load_from_memory(&png).unwrap().to_luma8();
    assert_eq!((img.width(), img.height()), (576, 48));
    assert_eq!(img.get_pixel(5, 10).0[0], 0);
    assert_eq!(img.get_pixel(0, 10).0[0], 255);
    assert_eq!(img.get_pixel(12 + 5, 10).0[0], 255);
    assert_eq!(img.get_pixel(24 + 5, 10).0[0], 0);
    assert_eq!(img.get_pixel(5, 24 + 10).0[0], 0);
    assert_eq!(img.get_pixel(12 + 5, 24 + 10).0[0], 255);
}

#[test]
fn render_png_bytes_of_a_job_without_text_is_one_blank_row() {
    let job = parse(&[ESC, b'd', 2]);
    let png = ReceiptRenderer::render_png_bytes(&job, PaperWidth::Mm58);
    let img = image::load_from_memory(&png).unwrap().to_luma8();
    assert_eq!((img.width(), img.height()), (384, 24));
    assert!(img.pixels().all(|p| p.0[0] == 255));
}

#[test]
fn line_feeds_draw_one_block_per_line() {
    let job = parse(&[ESC, b'd', 4]);
    let html = ReceiptRenderer::render_html(&job, PaperWidth::Mm80);
    assert_eq!(html.matches("<div class=\"receipt-feed\"></div>").count(), 4);
}

#[test]
fn qr_store_and_print_keeps_utf8_text() {
    let data = "https://aqnoor.pharmacy/t\u{e9}st";
    let mut raw = vec![GS, b'(', b'k', (data.len() + 3) as u8, 0, 49, 80, b'0'];
    raw.extend_from_slice(data.as_bytes());
    raw.extend_from_slice(&[GS, b'(', b'k', 3, 0, 49, 81, 0, GS, b'(', b'k', 3, 0, 49, 81, 0]);
    let job = parse(&raw);
    let qr: Vec<String> = job.elements.iter().filter_map(|e| match e {
        PrintElement::QrCode { data, .. } => Some(data.clone()),
        _ => None,
    }).collect();
    assert_eq!(qr, vec![data.to_string()]);
    assert_eq!(job.warnings.len(), 1);
    assert!(job.warnings[0].ends_with("QR print: no data stored"));
}

#[test]
fn large_dot_counts_are_halved_as_single_precision_floats() {
    for dots in [16_777_216u32, 16_777_217, 16_777_219, 33_554_437, 4_294_967_295, 1_000_000_001] {
        let mut job = PrintJob::new("abcdefgh".to_string(), JobSource::DirectApi, vec![]);
        job.elements.push(PrintElement::FeedDots { dots });
        let html = ReceiptRenderer::render_html(&job, PaperWidth::Mm80);
        let px = (dots as f32 * 0.5) as u32;
        assert!(html.contains(&format!("<div class=\"receipt-feed\" style=\"height:{}px;\"></div>", px)),
            "dots {}", dots);
    }
}

#[test]
fn upc_e_and_codabar_refuse_text_that_is_not_ascii() {
    let err = Err("Barcode encode error: data must be ASCII".to_string());
    assert_eq!(render_barcode(&BarcodeType::UpcE, "\u{e9}123456"), err);
    assert_eq!(render_barcode(&BarcodeType::Codabar, "1\u{e9}"), err);
    assert!(render_barcode(&BarcodeType::UpcE, "0123456").is_ok());
    assert!(render_barcode(&BarcodeType::Codabar, "A123A").is_ok());
}

#[test]
fn upc_e_with_non_ascii_data_in_a_job_warns_and_continues() {
    let raw = [&[GS, b'k', 1, 0xC3, 0xA9][..], b"123456", &[0u8, b'O', b'K', LF][..]].concat();
    let job = parse(&raw);
    match &job.elements[0] {
        PrintElement::Barcode { barcode_type, data, png_b64, .. } => {
            assert_eq!(*barcode_type, BarcodeType::UpcE);
            assert_eq!(data, "\u{e9}123456");
            assert!(png_b64.is_none());
        }
        other => panic!("expected a barcode, got {:?}", other),
    }
    assert_eq!(job.warnings.len(), 1);
    assert!(job.warnings[0].contains("data must be ASCII"));
    assert_eq!(texts(&job), vec!["OK".to_string()]);
}
