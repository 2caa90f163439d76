// The typed representation of a complete print job: the parser produces it,
// the renderer consumes it. No I/O or UI concerns here.
use crate::printer_state::TextStyle;
use crate::text::{digit_char, hex_text, push_char, push_hex, radix_text};
use vstd::prelude::*;
use vstd::string::{StrSliceExecFns, StringExecFns};

verus! {

/// Barcode symbology (ESC/POS `GS k n`).
#[derive(Clone, Copy, Debug, PartialEq, Eq, Structural)]
pub enum BarcodeType {
    UpcA,
    UpcE,
    Ean13,
    Ean8,
    Code39,
    Itf,
    Codabar,
    Code93,
    Code128,
    Pdf417,
    QrCode,
    Unknown(u8),
}

/// The symbology that `GS k n` selects: the old form uses `n` = 0 to 8, the
/// new form `n` = 65 to 73 (`'A'` to `'I'`) for the same nine symbologies;
/// 10, 11, 32, 97 and 104 select a QR code.
pub open spec fn barcode_type_of(n: u8) -> BarcodeType {
    if n == 10 || n == 11 || n == 32 || n == 97 || n == 104 {
        BarcodeType::QrCode
    } else {
        let k: int = if 65 <= n <= 73 {
            n - 65
        } else {
            n as int
        };
        if k == 0 {
            BarcodeType::UpcA
        } else if k == 1 {
            BarcodeType::UpcE
        } else if k == 2 {
            BarcodeType::Ean13
        } else if k == 3 {
            BarcodeType::Ean8
        } else if k == 4 {
            BarcodeType::Code39
        } else if k == 5 {
            BarcodeType::Itf
        } else if k == 6 {
            BarcodeType::Codabar
        } else if k == 7 {
            BarcodeType::Code93
        } else if k == 8 {
            BarcodeType::Code128
        } else {
            BarcodeType::Unknown(n)
        }
    }
}

impl BarcodeType {
    pub fn from_esc_n(n: u8) -> (r: Self)
        ensures
            r == barcode_type_of(n),
    {
        match n {
            0 => BarcodeType::UpcA,
            1 => BarcodeType::UpcE,
            2 => BarcodeType::Ean13,
            3 => BarcodeType::Ean8,
            4 => BarcodeType::Code39,
            5 => BarcodeType::Itf,
            6 => BarcodeType::Codabar,
            7 => BarcodeType::Code93,
            8 => BarcodeType::Code128,
            10 | 11 | 32 => BarcodeType::QrCode,
            65 => BarcodeType::UpcA,
            66 => BarcodeType::UpcE,
            67 => BarcodeType::Ean13,
            68 => BarcodeType::Ean8,
            69 => BarcodeType::Code39,
            70 => BarcodeType::Itf,
            71 => BarcodeType::Codabar,
            72 => BarcodeType::Code93,
            73 => BarcodeType::Code128,
            97 | 104 => BarcodeType::QrCode,
            _ => BarcodeType::Unknown(n),
        }
    }
}

/// Old and new `GS k` numbering name the same symbology: `n` and `n + 65`
/// select the same barcode type for every `n` from 0 to 8.
pub proof fn law_barcode_numbering_agrees(n: u8)
    requires
        n <= 8,
    ensures
        barcode_type_of(n) == barcode_type_of((n + 65) as u8),
        barcode_type_of(n) !is Unknown,
        barcode_type_of(n) !is QrCode,
{
}

/// The `GS k` symbology numbers as ESC/POS assigns them: 0 to 8, or 65 to 73
/// (`'A'` to `'I'`), select UPC-A, UPC-E, EAN-13, EAN-8, CODE39, ITF,
/// Codabar, CODE93 and CODE128 in that order; 10, 11, 32, 97 and 104 select
/// a QR code; every other number is unknown and kept as it is.
pub proof fn law_barcode_symbology_numbers()
    ensures
        barcode_type_of(0) == BarcodeType::UpcA && barcode_type_of(65) == BarcodeType::UpcA,
        barcode_type_of(1) == BarcodeType::UpcE && barcode_type_of(66) == BarcodeType::UpcE,
        barcode_type_of(2) == BarcodeType::Ean13 && barcode_type_of(67) == BarcodeType::Ean13,
        barcode_type_of(3) == BarcodeType::Ean8 && barcode_type_of(68) == BarcodeType::Ean8,
        barcode_type_of(4) == BarcodeType::Code39 && barcode_type_of(69) == BarcodeType::Code39,
        barcode_type_of(5) == BarcodeType::Itf && barcode_type_of(70) == BarcodeType::Itf,
        barcode_type_of(6) == BarcodeType::Codabar && barcode_type_of(71) == BarcodeType::Codabar,
        barcode_type_of(7) == BarcodeType::Code93 && barcode_type_of(72) == BarcodeType::Code93,
        barcode_type_of(8) == BarcodeType::Code128 && barcode_type_of(73)
            == BarcodeType::Code128,
        barcode_type_of(10) == BarcodeType::QrCode && barcode_type_of(11) == BarcodeType::QrCode
            && barcode_type_of(32) == BarcodeType::QrCode && barcode_type_of(97)
            == BarcodeType::QrCode && barcode_type_of(104) == BarcodeType::QrCode,
        forall|n: u8|
            !(n <= 8 || 65 <= n <= 73 || n == 10 || n == 11 || n == 32 || n == 97 || n == 104)
                ==> #[trigger] barcode_type_of(n) == BarcodeType::Unknown(n),
{
}

/// HRI (human readable interpretation) position for barcodes.
#[derive(Clone, Copy, Debug, PartialEq, Eq, Structural)]
pub enum HriPosition {
    /// No human readable text is printed.
    Hidden,
    Above,
    Below,
    Both,
}

/// QR code error correction level.
#[derive(Clone, Copy, Debug, PartialEq, Eq, Structural)]
pub enum QrErrorCorrection {
    /// About 7% of codewords recoverable.
    L,
    /// About 15%.
    M,
    /// About 25%.
    Q,
    /// About 30%.
    H,
}

/// A raster image (from `ESC *` or `GS v 0`).
#[derive(Debug)]
pub struct RasterImage {
    pub width_dots: u32,
    pub height_dots: u32,
    /// PNG bytes, base64-encoded.
    pub png_b64: String,
}

/// A single element of a print job; the renderer processes them in order.
#[derive(Debug)]
#[allow(inconsistent_fields)]
pub enum PrintElement {
    /// Printable text with the formatting it was printed in.
    Text { content: String, style: TextStyle },
    /// Advance the paper by `lines` lines.
    LineFeed { lines: u32 },
    /// Feed the paper by an exact number of dots.
    FeedDots { dots: u32 },
    /// A barcode; `png_b64` is `None` when rendering failed.
    Barcode {
        barcode_type: BarcodeType,
        data: String,
        hri: HriPosition,
        height_dots: u8,
        png_b64: Option<String>,
    },
    /// A QR code; `png_b64` is `None` when rendering failed.
    QrCode {
        data: String,
        error_correction: QrErrorCorrection,
        module_size: u8,
        png_b64: Option<String>,
    },
    /// A raster image.
    Image(RasterImage),
    /// A paper cut; `partial == false` is a full cut.
    Cut { partial: bool },
    /// A horizontal rule.
    Rule,
}

/// The value of a `PrintElement`, strings taken as character sequences.
#[allow(inconsistent_fields)]
#[verifier::ext_equal]
pub enum ElementView {
    Text { content: Seq<char>, style: TextStyle },
    LineFeed { lines: u32 },
    FeedDots { dots: u32 },
    Barcode {
        barcode_type: BarcodeType,
        data: Seq<char>,
        hri: HriPosition,
        height_dots: u8,
        png_b64: Option<Seq<char>>,
    },
    QrCode {
        data: Seq<char>,
        error_correction: QrErrorCorrection,
        module_size: u8,
        png_b64: Option<Seq<char>>,
    },
    Image { width_dots: u32, height_dots: u32, png_b64: Seq<char> },
    Cut { partial: bool },
    Rule,
}

pub open spec fn opt_view(o: Option<String>) -> Option<Seq<char>> {
    match o {
        Some(s) => Some(s@),
        None => None,
    }
}

impl View for PrintElement {
    type V = ElementView;

    open spec fn view(&self) -> ElementView {
        match self {
            PrintElement::Text { content, style } => ElementView::Text {
                content: content@,
                style: *style,
            },
            PrintElement::LineFeed { lines } => ElementView::LineFeed { lines: *lines },
            PrintElement::FeedDots { dots } => ElementView::FeedDots { dots: *dots },
            PrintElement::Barcode { barcode_type, data, hri, height_dots, png_b64 } =>
                ElementView::Barcode {
                barcode_type: *barcode_type,
                data: data@,
                hri: *hri,
                height_dots: *height_dots,
                png_b64: opt_view(*png_b64),
            },
            PrintElement::QrCode { data, error_correction, module_size, png_b64 } =>
                ElementView::QrCode {
                data: data@,
                error_correction: *error_correction,
                module_size: *module_size,
                png_b64: opt_view(*png_b64),
            },
            PrintElement::Image(r) => ElementView::Image {
                width_dots: r.width_dots,
                height_dots: r.height_dots,
                png_b64: r.png_b64@,
            },
            PrintElement::Cut { partial } => ElementView::Cut { partial: *partial },
            PrintElement::Rule => ElementView::Rule,
        }
    }
}

/// Debug record of a single parsed ESC/POS command.
#[derive(Debug)]
pub struct ParsedCommand {
    pub byte_offset: usize,
    pub raw_bytes: Vec<u8>,
    pub description: String,
}

/// The value of a `ParsedCommand`.
#[verifier::ext_equal]
pub struct CommandView {
    pub byte_offset: usize,
    pub raw_bytes: Seq<u8>,
    pub description: Seq<char>,
}

impl View for ParsedCommand {
    type V = CommandView;

    open spec fn view(&self) -> CommandView {
        CommandView {
            byte_offset: self.byte_offset,
            raw_bytes: self.raw_bytes@,
            description: self.description@,
        }
    }
}

/// Where a job came from.
#[derive(Debug)]
pub enum JobSource {
    TcpConnection { peer_addr: String },
    DirectApi,
}

#[verifier::ext_equal]
pub enum SourceView {
    TcpConnection { peer_addr: Seq<char> },
    DirectApi,
}

impl View for JobSource {
    type V = SourceView;

    open spec fn view(&self) -> SourceView {
        match self {
            JobSource::TcpConnection { peer_addr } => SourceView::TcpConnection {
                peer_addr: peer_addr@,
            },
            JobSource::DirectApi => SourceView::DirectApi,
        }
    }
}

/// An instant in UTC: whole seconds since the Unix epoch and the nanoseconds
/// past that second.
#[derive(Clone, Copy, Debug, PartialEq, Eq, Structural)]
pub struct Timestamp {
    pub secs: i64,
    pub nanos: u32,
}

/// The current time (`chrono::Utc::now`), read from the system clock. Its
/// value depends on the clock, so nothing is stated of it but the range the
/// source builds it in: seconds since 1970 and sub-second nanoseconds.
#[verifier::external_body]
fn utc_now() -> (t: Timestamp)
    ensures
        t.secs >= 0,
        t.nanos < 1_000_000_000,
{
    let now = chrono::Utc::now();
    Timestamp { secs: now.timestamp(), nanos: now.timestamp_subsec_nanos() }
}

/// A complete print job: one TCP connection or one direct submission.
#[derive(Debug)]
pub struct PrintJob {
    pub id: String,
    pub received_at: Timestamp,
    pub source: JobSource,
    /// Ordered elements to render.
    pub elements: Vec<PrintElement>,
    /// Raw bytes as received.
    pub raw_bytes: Vec<u8>,
    /// All parsed commands (for the debug panel).
    pub parsed_commands: Vec<ParsedCommand>,
    /// Parse warnings and unsupported commands.
    pub warnings: Vec<String>,
    /// Total byte count.
    pub byte_count: usize,
}

/// The value of a `PrintJob`.
#[verifier::ext_equal]
pub struct JobView {
    pub id: Seq<char>,
    pub received_at: Timestamp,
    pub source: SourceView,
    pub elements: Seq<ElementView>,
    pub raw_bytes: Seq<u8>,
    pub commands: Seq<CommandView>,
    pub warnings: Seq<Seq<char>>,
    pub byte_count: usize,
}

impl View for PrintJob {
    type V = JobView;

    open spec fn view(&self) -> JobView {
        JobView {
            id: self.id@,
            received_at: self.received_at,
            source: self.source@,
            elements: self.elements@.map_values(|e: PrintElement| e@),
            raw_bytes: self.raw_bytes@,
            commands: self.parsed_commands@.map_values(|c: ParsedCommand| c@),
            warnings: self.warnings@.map_values(|w: String| w@),
            byte_count: self.byte_count,
        }
    }
}

/// A job as `PrintJob::new` makes it: no elements, commands or warnings yet.
pub open spec fn fresh_job(id: Seq<char>, received_at: Timestamp, source: SourceView, raw: Seq<u8>) -> JobView {
    JobView {
        id,
        received_at,
        source,
        elements: Seq::empty(),
        raw_bytes: raw,
        commands: Seq::empty(),
        warnings: Seq::empty(),
        byte_count: raw.len() as usize,
    }
}

/// Two upper-case hexadecimal digits per byte, separated by single spaces.
pub open spec fn hex_join(bytes: Seq<u8>) -> Seq<char>
    decreases bytes.len(),
{
    if bytes.len() == 0 {
        seq![]
    } else if bytes.len() == 1 {
        hex_text(bytes[0] as nat, 2)
    } else {
        hex_join(bytes.drop_last()) + seq![' '] + hex_text(bytes.last() as nat, 2)
    }
}

/// The two digits of a byte in a hex dump: high nibble, then low nibble.
pub open spec fn hex_pair(b: u8) -> Seq<char> {
    seq![digit_char((b / 16) as nat), digit_char((b % 16) as nat)]
}

proof fn lemma_hex_text_byte(b: u8)
    ensures
        hex_text(b as nat, 2) == hex_pair(b),
{
    reveal_with_fuel(radix_text, 3);
    let n = b as nat;
    assert(n / 16 < 16);
    assert(radix_text(n / 16, 16, 1) == seq![digit_char(n / 16)]);
    assert(hex_text(n, 2) =~= hex_pair(b));
}

/// The layout of a hex dump: byte `i` is written as its two upper-case hex
/// digits at characters `3i` and `3i + 1`, a single space follows every byte
/// but the last, and nothing else is written.
pub proof fn law_hex_dump_layout(bytes: Seq<u8>)
    ensures
        hex_join(bytes).len() == (if bytes.len() == 0 {
            0
        } else {
            3 * bytes.len() - 1
        }),
        forall|i: int|
            0 <= i < bytes.len() ==> hex_join(bytes)[3 * i] == hex_pair(#[trigger] bytes[i])[0]
                && hex_join(bytes)[3 * i + 1] == hex_pair(bytes[i])[1],
        forall|i: int|
            0 <= i < bytes.len() - 1 ==> #[trigger] hex_join(bytes)[3 * i + 2] == ' ',
    decreases bytes.len(),
{
    if bytes.len() == 1 {
        lemma_hex_text_byte(bytes[0]);
    } else if bytes.len() > 1 {
        let p = bytes.drop_last();
        law_hex_dump_layout(p);
        lemma_hex_text_byte(bytes.last());
        let n = bytes.len() as int;
        assert forall|i: int| 0 <= i < bytes.len() implies hex_join(bytes)[3 * i] == hex_pair(
            #[trigger] bytes[i],
        )[0] && hex_join(bytes)[3 * i + 1] == hex_pair(bytes[i])[1] by {
            if i < n - 1 {
                assert(p[i] == bytes[i]);
            }
        }
        assert forall|i: int| 0 <= i < bytes.len() - 1 implies #[trigger] hex_join(bytes)[3 * i
            + 2] == ' ' by {
            if i < n - 2 {
                assert(hex_join(bytes)[3 * i + 2] == hex_join(p)[3 * i + 2]);
            }
        }
    }
}

/// The character a byte shows as in the ASCII column of a hex dump.
pub open spec fn dump_char(b: u8) -> char {
    if 0x20 <= b < 0x7F {
        b as char
    } else {
        '.'
    }
}

/// `s` padded on the right with spaces to at least `width` characters.
pub open spec fn pad_right(s: Seq<char>, width: nat) -> Seq<char> {
    if s.len() >= width {
        s
    } else {
        s + Seq::new((width - s.len()) as nat, |i: int| ' ')
    }
}

/// One line of the formatted dump: offset, hex column, ASCII column.
pub open spec fn dump_line(offset: nat, chunk: Seq<u8>) -> Seq<char> {
    hex_text(offset, 4) + "  "@ + pad_right(hex_join(chunk), 47) + "  |"@ + chunk.map_values(
        |b: u8| dump_char(b),
    ) + "|\n"@
}

/// The first `n` lines of the formatted dump of `bytes`, 16 bytes per line.
pub open spec fn dump_lines(bytes: Seq<u8>, n: nat) -> Seq<char>
    decreases n,
{
    if n == 0 {
        seq![]
    } else {
        let start = 16 * (n - 1);
        let end = if bytes.len() < 16 * n {
            bytes.len() as int
        } else {
            (16 * n) as int
        };
        dump_lines(bytes, (n - 1) as nat) + dump_line(start as nat, bytes.subrange(start, end))
    }
}

/// The number of 16-byte lines that `len` bytes fill.
pub open spec fn line_count(len: nat) -> nat {
    (len + 15) / 16
}

impl PrintJob {
    /// A job with no elements, commands or warnings yet, stamped with the
    /// current time.
    pub fn new(id: String, source: JobSource, raw_bytes: Vec<u8>) -> (r: Self)
        ensures
            r@ == fresh_job(id@, r.received_at, source@, raw_bytes@),
            r.received_at.nanos < 1_000_000_000,
    {
        let byte_count = raw_bytes.len();
        let r = PrintJob {
            id,
            received_at: utc_now(),
            source,
            elements: Vec::new(),
            raw_bytes,
            parsed_commands: Vec::new(),
            warnings: Vec::new(),
            byte_count,
        };
        proof {
            assert(r@ =~= fresh_job(id@, r.received_at, source@, raw_bytes@));
        }
        r
    }

    /// Hex dump of the raw bytes, formatted as "XX XX XX ...".
    pub fn hex_dump(&self) -> (r: String)
        ensures
            r@ == hex_join(self.raw_bytes@),
    {
        hex_string(&self.raw_bytes)
    }

    /// Hex dump with offsets, 16 bytes per line.
    #[verifier::rlimit(40)]
    pub fn hex_dump_formatted(&self) -> (r: String)
        ensures
            r@ == dump_lines(self.raw_bytes@, line_count(self.raw_bytes@.len())),
    {
        let bytes = &self.raw_bytes;
        let n = bytes.len();
        let mut out = String::new();
        let mut line: usize = 0;
        let mut start: usize = 0;
        while start < n
            invariant
                n == bytes@.len(),
                start as int == (if 16 * line <= n {
                    16 * line
                } else {
                    n as int
                }),
                16 * line < n + 16,
                out@ == dump_lines(bytes@, line as nat),
            decreases n - start,
        {
            let end = if n - start < 16 {
                n
            } else {
                start + 16
            };
            push_hex(&mut out, start as u64, 4);
            out.append("  ");
            let ghost chunk = bytes@.subrange(start as int, end as int);
            let hex = hex_range(bytes, start, end);
            let mut k: usize = hex.as_str().unicode_len();
            out.append(hex.as_str());
            while k < 47
                invariant
                    hex@.len() <= k,
                    k <= 47 || k == hex@.len(),
                    out@ == dump_lines(bytes@, line as nat) + hex_text(start as nat, 4) + "  "@
                        + hex@ + Seq::new((k - hex@.len()) as nat, |i: int| ' '),
                decreases 47 - k,
            {
                push_char(&mut out, ' ');
                k += 1;
                proof {
                    assert(Seq::new((k - hex@.len()) as nat, |i: int| ' ') =~= Seq::new(
                        (k - 1 - hex@.len()) as nat,
                        |i: int| ' ',
                    ).push(' '));
                }
            }
            proof {
                if hex@.len() >= 47 {
                    assert(Seq::new((k - hex@.len()) as nat, |i: int| ' ') =~= Seq::<
                        char,
                    >::empty());
                }
                assert(pad_right(hex@, 47) =~= hex@ + Seq::new(
                    (k - hex@.len()) as nat,
                    |i: int| ' ',
                ));
            }
            out.append("  |");
            let mut j = start;
            while j < end
                invariant
                    start <= j <= end <= n,
                    n == bytes@.len(),
                    out@ == dump_lines(bytes@, line as nat) + hex_text(start as nat, 4) + "  "@
                        + pad_right(hex@, 47) + "  |"@ + bytes@.subrange(
                        start as int,
                        j as int,
                    ).map_values(|b: u8| dump_char(b)),
                decreases end - j,
            {
                let b = bytes[j];
                let c = if 0x20 <= b && b < 0x7F {
                    b as char
                } else {
                    '.'
                };
                push_char(&mut out, c);
                proof {
                    assert(bytes@.subrange(start as int, j + 1).map_values(|b: u8| dump_char(b))
                        =~= bytes@.subrange(start as int, j as int).map_values(
                        |b: u8| dump_char(b),
                    ).push(dump_char(b)));
                }
                j += 1;
            }
            out.append("|\n");
            proof {
                let l1 = (line + 1) as nat;
                assert(16 * (l1 - 1) == start);
                assert(chunk == bytes@.subrange(start as int, end as int));
                assert(out@ =~= dump_lines(bytes@, l1));
            }
            line += 1;
            start = end;
        }
        proof {
            assert(line == line_count(n as nat)) by (nonlinear_arith)
                requires
                    16 * line >= n,
                    16 * line < n + 16,
            ;
        }
        out
    }
}

/// The hex column for `bytes[start..end]`.
fn hex_range(bytes: &Vec<u8>, start: usize, end: usize) -> (r: String)
    requires
        start <= end <= bytes@.len(),
    ensures
        r@ == hex_join(bytes@.subrange(start as int, end as int)),
{
    let mut out = String::new();
    let mut i = start;
    while i < end
        invariant
            start <= i <= end <= bytes@.len(),
            out@ == hex_join(bytes@.subrange(start as int, i as int)),
        decreases end - i,
    {
        let ghost prev = bytes@.subrange(start as int, i as int);
        if i > start {
            push_char(&mut out, ' ');
        }
        push_hex(&mut out, bytes[i] as u64, 2);
        proof {
            let next = bytes@.subrange(start as int, i + 1);
            assert(next.drop_last() =~= prev);
            if i == start {
                assert(Seq::<char>::empty() + hex_text(bytes@[i as int] as nat, 2) =~= hex_text(
                    bytes@[i as int] as nat,
                    2,
                ));
            }
        }
        i += 1;
    }
    out
}

/// Two upper-case hexadecimal digits per byte, separated by single spaces.
pub fn hex_string(bytes: &Vec<u8>) -> (r: String)
    ensures
        r@ == hex_join(bytes@),
{
    let r = hex_range(bytes, 0, bytes.len());
    proof {
        assert(bytes@.subrange(0, bytes@.len() as int) =~= bytes@);
    }
    r
}

} // verus!
