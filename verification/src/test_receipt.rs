// Sample AqNoor Pharmacy ESC/POS receipts as raw bytes, for trying the parser
// and the preview without a real POS application.
use crate::escpos_model::{ESC, GS, LF};
use crate::printer_state::Alignment;
use vstd::prelude::*;
use vstd::utf8::encode_utf8;

verus! {

/// The bytes of a text (its UTF-8 encoding).
pub open spec fn text_bytes(s: &str) -> Seq<u8> {
    encode_utf8(s@)
}

fn push_bytes(data: &mut Vec<u8>, bytes: &[u8])
    ensures
        final(data)@ == old(data)@ + bytes@,
{
    let mut i: usize = 0;
    let ghost start = data@;
    while i < bytes.len()
        invariant
            i <= bytes@.len(),
            data@ == start + bytes@.take(i as int),
        decreases bytes@.len() - i,
    {
        data.push(bytes[i]);
        proof {
            assert(bytes@.take(i + 1) =~= bytes@.take(i as int).push(bytes@[i as int]));
        }
        i += 1;
    }
    proof {
        assert(bytes@.take(bytes@.len() as int) =~= bytes@);
    }
}

fn push_text(data: &mut Vec<u8>, s: &str)
    ensures
        final(data)@ == old(data)@ + text_bytes(s),
{
    push_bytes(data, s.as_bytes());
}

fn push2(data: &mut Vec<u8>, a: u8, b: u8)
    ensures
        final(data)@ == old(data)@ + seq![a, b],
{
    data.push(a);
    data.push(b);
    proof {
        assert(data@ =~= old(data)@ + seq![a, b]);
    }
}

fn push3(data: &mut Vec<u8>, a: u8, b: u8, c: u8)
    ensures
        final(data)@ == old(data)@ + seq![a, b, c],
{
    data.push(a);
    data.push(b);
    data.push(c);
    proof {
        assert(data@ =~= old(data)@ + seq![a, b, c]);
    }
}

/// A text followed by a line feed.
pub open spec fn line(s: &str) -> Seq<u8> {
    text_bytes(s) + seq![LF]
}

fn push_line(data: &mut Vec<u8>, s: &str)
    ensures
        final(data)@ == old(data)@ + line(s),
{
    push_text(data, s);
    data.push(LF);
    proof {
        assert(data@ =~= old(data)@ + line(s));
    }
}

pub open spec fn separator() -> Seq<u8> {
    line("--------------------------------")
}

/// `GS ( k` with `pL = 3, pH = 0, cn = 49`, then function `f` and parameter `n`.
pub open spec fn qr_function(f: u8, n: u8) -> Seq<u8> {
    seq![GS, 0x28, 0x6B] + seq![3, 0, 49] + seq![f, n]
}

/// The full test receipt: header, items, totals, a QR code of the receipt's
/// address, a CODE128 barcode, footer, feed and full cut.
pub open spec fn test_receipt_bytes() -> Seq<u8> {
    let qr = text_bytes("https://aqnoor.pharmacy/rx/00042");
    seq![ESC, 0x40] + seq![ESC, 0x61, 1] + seq![GS, 0x21, 0x11] + seq![ESC, 0x45, 1] + line(
        "AQNOOR PHARMACY",
    ) + seq![GS, 0x21, 0x00] + seq![ESC, 0x45, 0] + line("123 Main Street, Pharmacy Lane")
        + line("Tel: +92-300-0000000") + seq![ESC, 0x61, 0] + separator() + seq![ESC, 0x61, 0]
        + line("Date: 2026-08-20  Time: 10:15") + line("Receipt#: 00042") + separator() + line(
        "ITEM                       QTY   PRICE",
    ) + line("Paracetamol 500mg            2   50.00") + line(
        "Amoxicillin 500mg            1   80.00",
    ) + line("ORS Sachet                   3   25.00") + separator() + seq![ESC, 0x61, 0] + line(
        "Subtotal               155.00",
    ) + line("GST (6.45%)             10.00") + separator() + seq![ESC, 0x45, 1] + seq![
        GS,
        0x21,
        0x01,
    ] + line("TOTAL                  165.00") + seq![GS, 0x21, 0x00] + seq![ESC, 0x45, 0] + line(
        "Payment: Cash",
    ) + line("Tendered:              200.00") + line("Change:                 35.00")
        + separator() + seq![ESC, 0x61, 1]
    // QR: model 2, module size 4, error correction M, store, print
     + seq![GS, 0x28, 0x6B] + seq![4, 0, 49] + seq![65, 50, 0] + qr_function(67, 4)
        + qr_function(69, 49) + seq![GS, 0x28, 0x6B] + seq![(qr.len() + 3) as u8, 0, 49] + seq![
        80,
        0,
    ] + qr + qr_function(81, 0) + seq![LF]
    // CODE128 barcode: height 80, width 2, HRI below, 10 data bytes
     + seq![GS, 0x68, 80] + seq![GS, 0x77, 2] + seq![GS, 0x48, 2] + seq![GS, 0x6B, 73] + seq![10]
        + text_bytes("00042RX001") + seq![LF] + seq![ESC, 0x61, 1] + line(
        "Thank you for choosing AqNoor!",
    ) + line("Get well soon.") + line("www.aqnoor.pharmacy") + seq![ESC, 0x64, 3] + seq![
        GS,
        0x56,
        0,
    ]
}

fn push1(data: &mut Vec<u8>, a: u8)
    ensures
        final(data)@ == old(data)@ + seq![a],
{
    data.push(a);
    proof {
        assert(data@ =~= old(data)@ + seq![a]);
    }
}

fn push_qr_function(data: &mut Vec<u8>, f: u8, n: u8)
    ensures
        final(data)@ == old(data)@ + qr_function(f, n),
{
    push3(data, GS, 0x28, 0x6B);
    push3(data, 3, 0, 49);
    push2(data, f, n);
    proof {
        assert(data@ =~= old(data)@ + qr_function(f, n));
    }
}

/// Build the full test receipt as raw ESC/POS bytes.
pub fn build_test_receipt() -> (r: Vec<u8>)
    ensures
        r@ == test_receipt_bytes(),
{
    let mut data: Vec<u8> = Vec::new();
    push2(&mut data, ESC, 0x40);
    push3(&mut data, ESC, 0x61, 1);
    push3(&mut data, GS, 0x21, 0x11);
    push3(&mut data, ESC, 0x45, 1);
    push_line(&mut data, "AQNOOR PHARMACY");
    push3(&mut data, GS, 0x21, 0x00);
    push3(&mut data, ESC, 0x45, 0);
    push_line(&mut data, "123 Main Street, Pharmacy Lane");
    push_line(&mut data, "Tel: +92-300-0000000");
    push3(&mut data, ESC, 0x61, 0);
    push_line(&mut data, "--------------------------------");
    push3(&mut data, ESC, 0x61, 0);
    push_line(&mut data, "Date: 2026-08-20  Time: 10:15");
    push_line(&mut data, "Receipt#: 00042");
    push_line(&mut data, "--------------------------------");
    push_line(&mut data, "ITEM                       QTY   PRICE");
    push_line(&mut data, "Paracetamol 500mg            2   50.00");
    push_line(&mut data, "Amoxicillin 500mg            1   80.00");
    push_line(&mut data, "ORS Sachet                   3   25.00");
    push_line(&mut data, "--------------------------------");
    push3(&mut data, ESC, 0x61, 0);
    push_line(&mut data, "Subtotal               155.00");
    push_line(&mut data, "GST (6.45%)             10.00");
    push_line(&mut data, "--------------------------------");
    push3(&mut data, ESC, 0x45, 1);
    push3(&mut data, GS, 0x21, 0x01);
    push_line(&mut data, "TOTAL                  165.00");
    push3(&mut data, GS, 0x21, 0x00);
    push3(&mut data, ESC, 0x45, 0);
    push_line(&mut data, "Payment: Cash");
    push_line(&mut data, "Tendered:              200.00");
    push_line(&mut data, "Change:                 35.00");
    push_line(&mut data, "--------------------------------");
    push3(&mut data, ESC, 0x61, 1);
    // GS ( k: model 2
    push3(&mut data, GS, 0x28, 0x6B);
    push3(&mut data, 4, 0, 49);
    push3(&mut data, 65, 50, 0);
    // GS ( k: module size 4, error correction M
    push_qr_function(&mut data, 67, 4);
    push_qr_function(&mut data, 69, 49);
    // GS ( k: store data (pL counts cn, fn and m besides the data)
    let qr = "https://aqnoor.pharmacy/rx/00042".as_bytes();
    assert(qr@.len() + 3 < 256) by {
        reveal_strlit("https://aqnoor.pharmacy/rx/00042");
        vstd::string::is_ascii_spec_bytes("https://aqnoor.pharmacy/rx/00042");
    }
    let pl = (qr.len() + 3) as u8;
    push3(&mut data, GS, 0x28, 0x6B);
    push3(&mut data, pl, 0, 49);
    push2(&mut data, 80, 0);
    push_bytes(&mut data, qr);
    // GS ( k: print
    push_qr_function(&mut data, 81, 0);
    push1(&mut data, LF);
    // CODE128 barcode: height 80, width 2, HRI below
    push3(&mut data, GS, 0x68, 80);
    push3(&mut data, GS, 0x77, 2);
    push3(&mut data, GS, 0x48, 2);
    push3(&mut data, GS, 0x6B, 73);
    push1(&mut data, 10);
    push_text(&mut data, "00042RX001");
    push1(&mut data, LF);
    push3(&mut data, ESC, 0x61, 1);
    push_line(&mut data, "Thank you for choosing AqNoor!");
    push_line(&mut data, "Get well soon.");
    push_line(&mut data, "www.aqnoor.pharmacy");
    push3(&mut data, ESC, 0x64, 3);
    push3(&mut data, GS, 0x56, 0);
    data
}

/// The minimal receipt for unit tests: centred bold "TEST", then a cut.
pub open spec fn minimal_receipt_bytes() -> Seq<u8> {
    seq![ESC, 0x40] + seq![ESC, 0x61, 1] + seq![ESC, 0x45, 1] + line("TEST") + seq![ESC, 0x45, 0]
        + seq![GS, 0x56, 0]
}

/// Build a minimal test receipt for unit tests.
pub fn build_minimal_receipt() -> (r: Vec<u8>)
    ensures
        r@ == minimal_receipt_bytes(),
{
    let mut data: Vec<u8> = Vec::new();
    push2(&mut data, ESC, 0x40);
    push3(&mut data, ESC, 0x61, 1);
    push3(&mut data, ESC, 0x45, 1);
    push_line(&mut data, "TEST");
    push3(&mut data, ESC, 0x45, 0);
    push3(&mut data, GS, 0x56, 0);
    proof {
        assert(data@ =~= minimal_receipt_bytes());
    }
    data
}

/// The `ESC a` parameter of an alignment.
pub open spec fn alignment_code(a: Alignment) -> u8 {
    match a {
        Alignment::Left => 0,
        Alignment::Center => 1,
        Alignment::Right => 2,
    }
}

/// Each line as `ESC a n`, its text and a line feed.
pub open spec fn text_lines_bytes<'a>(lines: Seq<(&'a str, Alignment)>) -> Seq<u8>
    decreases lines.len(),
{
    if lines.len() == 0 {
        seq![]
    } else {
        text_lines_bytes(lines.drop_last()) + seq![ESC, 0x61, alignment_code(lines.last().1)]
            + line(lines.last().0)
    }
}

/// Build raw bytes for a text-only receipt: each line with its alignment,
/// then a full cut.
pub fn build_text_receipt(lines: &[(&str, Alignment)]) -> (r: Vec<u8>)
    ensures
        r@ == seq![ESC, 0x40] + text_lines_bytes(lines@) + seq![GS, 0x56, 0],
{
    let mut data: Vec<u8> = Vec::new();
    push2(&mut data, ESC, 0x40);
    let mut i: usize = 0;
    while i < lines.len()
        invariant
            i <= lines@.len(),
            data@ == seq![ESC, 0x40] + text_lines_bytes(lines@.take(i as int)),
        decreases lines@.len() - i,
    {
        let (text, align) = lines[i];
        let a: u8 = match align {
            Alignment::Left => 0,
            Alignment::Center => 1,
            Alignment::Right => 2,
        };
        push3(&mut data, ESC, 0x61, a);
        push_line(&mut data, text);
        proof {
            assert(lines@.take(i + 1).drop_last() =~= lines@.take(i as int));
            assert(data@ =~= seq![ESC, 0x40] + text_lines_bytes(lines@.take(i + 1)));
        }
        i += 1;
    }
    push3(&mut data, GS, 0x56, 0);
    proof {
        assert(lines@.take(lines@.len() as int) =~= lines@);
        assert(data@ =~= seq![ESC, 0x40] + text_lines_bytes(lines@) + seq![GS, 0x56, 0]);
    }
    data
}

/// The UPI sample receipt: the pharmacy receipt with an embedded
/// `[UPI_QR:...]` tag instead of a QR command.
pub open spec fn upi_receipt_bytes() -> Seq<u8> {
    seq![ESC, 0x40] + seq![ESC, 0x61, 1] + seq![GS, 0x21, 0x11] + seq![ESC, 0x45, 1] + line(
        "AQNOOR PHARMACY",
    ) + seq![GS, 0x21, 0x00] + seq![ESC, 0x45, 0] + text_bytes(
        "123 Main Street, Pharmacy Lane\nTel: +92-300-0000000\n--------------------------------\n",
    ) + text_bytes(
        "Date: 2026-08-20  Time: 10:15\nReceipt#: 00042\n--------------------------------\n",
    ) + text_bytes(
        "ITEM                       QTY   PRICE\nParacetamol 500mg            2   50.00\nAmoxicillin 500mg            1   80.00\nORS Sachet                   3   25.00\n--------------------------------\n",
    ) + text_bytes(
        "Subtotal               155.00\nGST (6.45%)             10.00\n--------------------------------\nTOTAL                  165.00\n--------------------------------\n",
    ) + text_bytes("[UPI_QR:") + text_bytes(
        "upi://pay?pa=aqnoor@upi&pn=AQNOOR%20PHARMACY&am=165.00&cu=INR&tn=RX-00042",
    ) + text_bytes("]\n") + seq![ESC, 0x61, 1] + text_bytes(
        "Thank you for choosing AqNoor!\nGet well soon.\n",
    ) + seq![ESC, 0x64, 3] + seq![GS, 0x56, 0]
}

/// Build a sample receipt featuring a UPI payment QR code.
pub fn build_upi_test_receipt() -> (r: Vec<u8>)
    ensures
        r@ == upi_receipt_bytes(),
{
    let mut data: Vec<u8> = Vec::new();
    push2(&mut data, ESC, 0x40);
    push3(&mut data, ESC, 0x61, 1);
    push3(&mut data, GS, 0x21, 0x11);
    push3(&mut data, ESC, 0x45, 1);
    push_line(&mut data, "AQNOOR PHARMACY");
    push3(&mut data, GS, 0x21, 0x00);
    push3(&mut data, ESC, 0x45, 0);
    push_text(
        &mut data,
        "123 Main Street, Pharmacy Lane\nTel: +92-300-0000000\n--------------------------------\n",
    );
    push_text(
        &mut data,
        "Date: 2026-08-20  Time: 10:15\nReceipt#: 00042\n--------------------------------\n",
    );
    push_text(
        &mut data,
        "ITEM                       QTY   PRICE\nParacetamol 500mg            2   50.00\nAmoxicillin 500mg            1   80.00\nORS Sachet                   3   25.00\n--------------------------------\n",
    );
    push_text(
        &mut data,
        "Subtotal               155.00\nGST (6.45%)             10.00\n--------------------------------\nTOTAL                  165.00\n--------------------------------\n",
    );
    push_text(&mut data, "[UPI_QR:");
    push_text(&mut data, "upi://pay?pa=aqnoor@upi&pn=AQNOOR%20PHARMACY&am=165.00&cu=INR&tn=RX-00042");
    push_text(&mut data, "]\n");
    push3(&mut data, ESC, 0x61, 1);
    push_text(&mut data, "Thank you for choosing AqNoor!\nGet well soon.\n");
    push3(&mut data, ESC, 0x64, 3);
    push3(&mut data, GS, 0x56, 0);
    proof {
        assert(data@ =~= upi_receipt_bytes());
    }
    data
}

} // verus!
