// The mutable state of a virtual thermal printer: paper, formatting, font and
// encoding. Pure data; no I/O and no rendering.
use vstd::prelude::*;

verus! {

/// Paper width preset.
#[derive(Clone, Copy, Debug, PartialEq, Eq, Structural)]
pub enum PaperWidth {
    /// 80mm paper: 72mm printable, 576 dots at 203 DPI.
    Mm80,
    /// 58mm paper: 48mm printable, 384 dots at 203 DPI.
    Mm58,
}

/// Printable width in dots at 203 DPI.
pub open spec fn printable_dots(w: PaperWidth) -> u32 {
    match w {
        PaperWidth::Mm80 => 576,
        PaperWidth::Mm58 => 384,
    }
}

impl Default for PaperWidth {
    fn default() -> (r: Self)
        ensures
            r == PaperWidth::Mm80,
    {
        PaperWidth::Mm80
    }
}

impl PaperWidth {
    /// Printable width in pixels at 203 DPI.
    pub fn printable_px(&self) -> (r: u32)
        ensures
            r == printable_dots(*self),
    {
        match self {
            PaperWidth::Mm80 => 576,
            PaperWidth::Mm58 => 384,
        }
    }

    /// Character columns for font A (12 dots wide).
    pub fn char_cols_font_a(&self) -> (r: u32)
        ensures
            r == printable_dots(*self) / 12,
    {
        self.printable_px() / 12
    }

    /// Character columns for font B (9 dots wide).
    pub fn char_cols_font_b(&self) -> (r: u32)
        ensures
            r == printable_dots(*self) / 9,
    {
        self.printable_px() / 9
    }
}

/// The paper preset for a width in millimetres: 58 selects the 58mm preset,
/// every other value the 80mm one.
pub open spec fn paper_for_mm(mm: u8) -> PaperWidth {
    if mm == 58 {
        PaperWidth::Mm58
    } else {
        PaperWidth::Mm80
    }
}

/// The nominal width of a paper preset in millimetres.
pub open spec fn mm_of_paper(w: PaperWidth) -> u8 {
    match w {
        PaperWidth::Mm80 => 80,
        PaperWidth::Mm58 => 58,
    }
}

/// Selects the paper preset from a width in millimetres.
pub fn paper_width_from_mm(mm: u8) -> (r: PaperWidth)
    ensures
        r == paper_for_mm(mm),
{
    if mm == 58 {
        PaperWidth::Mm58
    } else {
        PaperWidth::Mm80
    }
}

/// The nominal width of a paper preset in millimetres.
pub fn paper_width_mm(w: PaperWidth) -> (r: u8)
    ensures
        r == mm_of_paper(w),
{
    match w {
        PaperWidth::Mm80 => 80,
        PaperWidth::Mm58 => 58,
    }
}

/// A preset named by its width in millimetres is that preset again.
pub proof fn law_paper_mm_round_trip(w: PaperWidth)
    ensures
        paper_for_mm(mm_of_paper(w)) == w,
{
}

/// Text alignment.
#[derive(Clone, Copy, Debug, PartialEq, Eq, Structural)]
pub enum Alignment {
    Left,
    Center,
    Right,
}

impl Default for Alignment {
    fn default() -> (r: Self)
        ensures
            r == Alignment::Left,
    {
        Alignment::Left
    }
}

/// Font selection.
#[derive(Clone, Copy, Debug, PartialEq, Eq, Structural)]
pub enum Font {
    /// Font A: standard 12x24 dot matrix.
    A,
    /// Font B: smaller 9x17 dot matrix.
    B,
}

impl Default for Font {
    fn default() -> (r: Self)
        ensures
            r == Font::A,
    {
        Font::A
    }
}

/// Code page / character encoding.
#[derive(Clone, Copy, Debug, PartialEq, Eq, Structural)]
pub enum CodePage {
    /// IBM code page 437 (the default).
    Pc437,
    /// IBM code page 850.
    Pc850,
    /// Windows-1252.
    Windows1252,
    /// UTF-8 passthrough.
    Utf8,
    /// An unrecognised code page number.
    Unknown(u8),
}

impl Default for CodePage {
    fn default() -> (r: Self)
        ensures
            r == CodePage::Pc437,
    {
        CodePage::Pc437
    }
}

/// Snapshot of text formatting at the moment text was emitted.
#[derive(Clone, Copy, Debug, PartialEq, Eq, Structural)]
pub struct TextStyle {
    pub alignment: Alignment,
    pub bold: bool,
    pub underline: u8,
    pub inverse: bool,
    pub italic: bool,
    pub font: Font,
    pub char_width_multiplier: u8,
    pub char_height_multiplier: u8,
    pub double_strike: bool,
}

/// Complete printer state, as kept by a real ESC/POS thermal printer.
#[derive(Debug)]
pub struct PrinterState {
    pub paper_width: PaperWidth,
    pub alignment: Alignment,
    pub bold: bool,
    /// 0 = off, 1 = single, 2 = double.
    pub underline: u8,
    /// GS B: white on black.
    pub inverse: bool,
    pub italic: bool,
    pub double_strike: bool,
    pub font: Font,
    /// 1 to 8 (GS ! upper nibble).
    pub char_width_multiplier: u8,
    /// 1 to 8 (GS ! lower nibble).
    pub char_height_multiplier: u8,
    /// Dots between lines.
    pub line_spacing: u8,
    pub code_page: CodePage,
    pub cursor_x: u32,
    pub cursor_y: u32,
    pub line_buffer: String,
    pub upside_down: bool,
    pub rotate_90: bool,
}

/// The mathematical value of a `PrinterState`: its fields, with the line
/// buffer as a character sequence.
#[verifier::ext_equal]
pub struct PrinterModel {
    pub paper_width: PaperWidth,
    pub alignment: Alignment,
    pub bold: bool,
    pub underline: u8,
    pub inverse: bool,
    pub italic: bool,
    pub double_strike: bool,
    pub font: Font,
    pub char_width_multiplier: u8,
    pub char_height_multiplier: u8,
    pub line_spacing: u8,
    pub code_page: CodePage,
    pub cursor_x: u32,
    pub cursor_y: u32,
    pub line_buffer: Seq<char>,
    pub upside_down: bool,
    pub rotate_90: bool,
}

impl View for PrinterState {
    type V = PrinterModel;

    open spec fn view(&self) -> PrinterModel {
        PrinterModel {
            paper_width: self.paper_width,
            alignment: self.alignment,
            bold: self.bold,
            underline: self.underline,
            inverse: self.inverse,
            italic: self.italic,
            double_strike: self.double_strike,
            font: self.font,
            char_width_multiplier: self.char_width_multiplier,
            char_height_multiplier: self.char_height_multiplier,
            line_spacing: self.line_spacing,
            code_page: self.code_page,
            cursor_x: self.cursor_x,
            cursor_y: self.cursor_y,
            line_buffer: self.line_buffer@,
            upside_down: self.upside_down,
            rotate_90: self.rotate_90,
        }
    }
}

/// The factory-default printer state on the given paper.
pub open spec fn default_printer(paper_width: PaperWidth) -> PrinterModel {
    PrinterModel {
        paper_width,
        alignment: Alignment::Left,
        bold: false,
        underline: 0,
        inverse: false,
        italic: false,
        double_strike: false,
        font: Font::A,
        char_width_multiplier: 1,
        char_height_multiplier: 1,
        line_spacing: 30,
        code_page: CodePage::Pc437,
        cursor_x: 0,
        cursor_y: 0,
        line_buffer: Seq::empty(),
        upside_down: false,
        rotate_90: false,
    }
}

/// The style that text printed in the given state is stamped with.
pub open spec fn style_of(p: PrinterModel) -> TextStyle {
    TextStyle {
        alignment: p.alignment,
        bold: p.bold,
        underline: p.underline,
        inverse: p.inverse,
        italic: p.italic,
        font: p.font,
        char_width_multiplier: p.char_width_multiplier,
        char_height_multiplier: p.char_height_multiplier,
        double_strike: p.double_strike,
    }
}

/// Characters per line for a font, paper and (non-zero) width multiplier;
/// never below 1.
pub open spec fn spec_chars_per_line(p: PrinterModel) -> u32 {
    let base: u32 = match p.font {
        Font::A => printable_dots(p.paper_width) / 12,
        Font::B => printable_dots(p.paper_width) / 9,
    };
    let q: u32 = (base / (p.char_width_multiplier as u32)) as u32;
    if q < 1 {
        1
    } else {
        q
    }
}

impl Default for PrinterState {
    fn default() -> (r: Self)
        ensures
            r@ == default_printer(PaperWidth::Mm80),
    {
        PrinterState {
            paper_width: PaperWidth::Mm80,
            alignment: Alignment::Left,
            bold: false,
            underline: 0,
            inverse: false,
            italic: false,
            double_strike: false,
            font: Font::A,
            char_width_multiplier: 1,
            char_height_multiplier: 1,
            line_spacing: 30,
            code_page: CodePage::Pc437,
            cursor_x: 0,
            cursor_y: 0,
            line_buffer: String::new(),
            upside_down: false,
            rotate_90: false,
        }
    }
}

impl PrinterState {
    /// A factory-default printer on the given paper.
    pub fn with_paper(paper_width: PaperWidth) -> (r: Self)
        ensures
            r@ == default_printer(paper_width),
    {
        let mut p = PrinterState::default();
        p.paper_width = paper_width;
        p
    }

    /// Reset to factory defaults (ESC @), keeping the paper width.
    pub fn reset(&mut self)
        ensures
            final(self)@ == default_printer(old(self).paper_width),
    {
        let pw = self.paper_width;
        *self = PrinterState::with_paper(pw);
    }

    /// Snapshot of the current text style (stamped on a text element).
    pub fn current_style(&self) -> (r: TextStyle)
        ensures
            r == style_of(self@),
    {
        TextStyle {
            alignment: self.alignment,
            bold: self.bold,
            underline: self.underline,
            inverse: self.inverse,
            italic: self.italic,
            font: self.font,
            char_width_multiplier: self.char_width_multiplier,
            char_height_multiplier: self.char_height_multiplier,
            double_strike: self.double_strike,
        }
    }

    /// Characters per line for the current font and width multiplier.
    pub fn chars_per_line(&self) -> (r: u32)
        requires
            self.char_width_multiplier != 0,
        ensures
            r == spec_chars_per_line(self@),
            r >= 1,
    {
        let base = match self.font {
            Font::A => self.paper_width.char_cols_font_a(),
            Font::B => self.paper_width.char_cols_font_b(),
        };
        let q = base / (self.char_width_multiplier as u32);
        if q < 1 {
            1
        } else {
            q
        }
    }
}

} // verus!
