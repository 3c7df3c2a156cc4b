//! The 80x25 VGA text console: colours, character cells, the screen model and
//! the interpretation of control bytes and CSI sequences.

use crate::vt::{parsed_run, stepped_run, VtEvent};
use vstd::prelude::*;
use vstd::string::StringSliceAdditionalSpecFns;

verus! {

/// Number of text rows.
pub const BUF_HEIGHT: usize = 25;

/// Number of text columns.
pub const BUF_WIDTH: usize = 80;

/// Number of character cells on the screen.
pub const BUF_CELLS: usize = 2000;

/// Byte stored for a character that cannot be shown.
pub const UNPRINTABLE: u8 = 0x00;

/// The sixteen colours of the text-mode palette, in palette order.
#[derive(Debug, Clone, Copy, PartialEq, Eq, Structural)]
pub enum Color {
    Black,
    Blue,
    Green,
    Cyan,
    Red,
    Magenta,
    Brown,
    LightGray,
    DarkGray,
    LightBlue,
    LightGreen,
    LightCyan,
    LightRed,
    Pink,
    Yellow,
    White,
}

impl Color {
    /// Position of the colour in the palette, `0..16`.
    pub open spec fn index(self) -> int {
        match self {
            Color::Black => 0,
            Color::Blue => 1,
            Color::Green => 2,
            Color::Cyan => 3,
            Color::Red => 4,
            Color::Magenta => 5,
            Color::Brown => 6,
            Color::LightGray => 7,
            Color::DarkGray => 8,
            Color::LightBlue => 9,
            Color::LightGreen => 10,
            Color::LightCyan => 11,
            Color::LightRed => 12,
            Color::Pink => 13,
            Color::Yellow => 14,
            Color::White => 15,
        }
    }

    /// The colour at palette position `idx`.
    pub open spec fn at_index(idx: int) -> Color {
        if idx == 0 {
            Color::Black
        } else if idx == 1 {
            Color::Blue
        } else if idx == 2 {
            Color::Green
        } else if idx == 3 {
            Color::Cyan
        } else if idx == 4 {
            Color::Red
        } else if idx == 5 {
            Color::Magenta
        } else if idx == 6 {
            Color::Brown
        } else if idx == 7 {
            Color::LightGray
        } else if idx == 8 {
            Color::DarkGray
        } else if idx == 9 {
            Color::LightBlue
        } else if idx == 10 {
            Color::LightGreen
        } else if idx == 11 {
            Color::LightCyan
        } else if idx == 12 {
            Color::LightRed
        } else if idx == 13 {
            Color::Pink
        } else if idx == 14 {
            Color::Yellow
        } else {
            Color::White
        }
    }

    /// The colour an ANSI foreground code selects; codes outside `30..=37`
    /// and `90..=97` select black.
    pub open spec fn ansi(code: int) -> Color {
        if code == 31 {
            Color::Red
        } else if code == 32 {
            Color::Green
        } else if code == 33 {
            Color::Brown
        } else if code == 34 {
            Color::Blue
        } else if code == 35 {
            Color::Magenta
        } else if code == 36 {
            Color::Cyan
        } else if code == 37 {
            Color::LightGray
        } else if code == 90 {
            Color::DarkGray
        } else if code == 91 {
            Color::LightRed
        } else if code == 92 {
            Color::LightGreen
        } else if code == 93 {
            Color::Yellow
        } else if code == 94 {
            Color::LightBlue
        } else if code == 95 {
            Color::Pink
        } else if code == 96 {
            Color::LightCyan
        } else if code == 97 {
            Color::White
        } else {
            Color::Black
        }
    }

    /// Value of the attribute-controller register that shows this colour.
    pub open spec fn vga_reg(self) -> int {
        match self {
            Color::Black => 0x00,
            Color::Blue => 0x01,
            Color::Green => 0x02,
            Color::Cyan => 0x03,
            Color::Red => 0x04,
            Color::Magenta => 0x05,
            Color::Brown => 0x14,
            Color::LightGray => 0x07,
            Color::DarkGray => 0x38,
            Color::LightBlue => 0x39,
            Color::LightGreen => 0x3A,
            Color::LightCyan => 0x3B,
            Color::LightRed => 0x3C,
            Color::Pink => 0x3D,
            Color::Yellow => 0x3E,
            Color::White => 0x3F,
        }
    }

    /// Palette position as a byte.
    pub fn to_idx(self) -> (idx: u8)
        ensures
            idx == self.index(),
    {
        match self {
            Color::Black => 0,
            Color::Blue => 1,
            Color::Green => 2,
            Color::Cyan => 3,
            Color::Red => 4,
            Color::Magenta => 5,
            Color::Brown => 6,
            Color::LightGray => 7,
            Color::DarkGray => 8,
            Color::LightBlue => 9,
            Color::LightGreen => 10,
            Color::LightCyan => 11,
            Color::LightRed => 12,
            Color::Pink => 13,
            Color::Yellow => 14,
            Color::White => 15,
        }
    }

    /// The colour at palette position `idx`.
    pub fn from_idx(idx: usize) -> (color: Color)
        requires
            idx < 16,
        ensures
            color == Color::at_index(idx as int),
            color.index() == idx,
    {
        match idx {
            0 => Color::Black,
            1 => Color::Blue,
            2 => Color::Green,
            3 => Color::Cyan,
            4 => Color::Red,
            5 => Color::Magenta,
            6 => Color::Brown,
            7 => Color::LightGray,
            8 => Color::DarkGray,
            9 => Color::LightBlue,
            10 => Color::LightGreen,
            11 => Color::LightCyan,
            12 => Color::LightRed,
            13 => Color::Pink,
            14 => Color::Yellow,
            _ => Color::White,
        }
    }

    /// The colour selected by an ANSI foreground code.
    pub fn from_ansi(code: u8) -> (color: Color)
        ensures
            color == Color::ansi(code as int),
    {
        match code {
            30 => Color::Black,
            31 => Color::Red,
            32 => Color::Green,
            33 => Color::Brown,
            34 => Color::Blue,
            35 => Color::Magenta,
            36 => Color::Cyan,
            37 => Color::LightGray,
            90 => Color::DarkGray,
            91 => Color::LightRed,
            92 => Color::LightGreen,
            93 => Color::Yellow,
            94 => Color::LightBlue,
            95 => Color::Pink,
            96 => Color::LightCyan,
            97 => Color::White,
            _ => Color::Black,
        }
    }

    /// Value of the attribute-controller register that shows this colour.
    pub fn to_vga_reg(self) -> (reg: u8)
        ensures
            reg == self.vga_reg(),
    {
        match self {
            Color::Black => 0x00,
            Color::Blue => 0x01,
            Color::Green => 0x02,
            Color::Cyan => 0x03,
            Color::Red => 0x04,
            Color::Magenta => 0x05,
            Color::Brown => 0x14,
            Color::LightGray => 0x07,
            Color::DarkGray => 0x38,
            Color::LightBlue => 0x39,
            Color::LightGreen => 0x3A,
            Color::LightCyan => 0x3B,
            Color::LightRed => 0x3C,
            Color::Pink => 0x3D,
            Color::Yellow => 0x3E,
            Color::White => 0x3F,
        }
    }
}

/// Default foreground colour.
pub open spec fn default_fg() -> Color {
    Color::LightGray
}

/// Default background colour.
pub open spec fn default_bg() -> Color {
    Color::Black
}

/// A cell attribute: background in the high nibble, foreground in the low.
#[derive(Debug, Clone, Copy, PartialEq, Eq, Structural)]
pub struct ColorCode(pub u8);

impl ColorCode {
    /// The attribute byte `(bg << 4) | fg`, which equals `16 * bg + fg`.
    pub open spec fn of(fg: Color, bg: Color) -> ColorCode {
        ColorCode((bg.index() * 16 + fg.index()) as u8)
    }

    /// The attribute that shows `fg` on `bg`.
    pub fn new(fg: Color, bg: Color) -> (cc: ColorCode)
        ensures
            cc == ColorCode::of(fg, bg),
            cc.0 == (bg.index() as u8) << 4 | (fg.index() as u8),
    {
        let f: u8 = fg.to_idx();
        let b: u8 = bg.to_idx();
        assert(b < 16 && f < 16 ==> (b << 4 | f) == b * 16 + f) by (bit_vector);
        ColorCode(b << 4 | f)
    }
}

/// The attribute of a freshly cleared screen: light gray on black.
pub open spec fn default_cc() -> ColorCode {
    ColorCode::of(default_fg(), default_bg())
}

/// One character cell.
#[derive(Debug, Clone, Copy, PartialEq, Eq, Structural)]
pub struct SChar {
    pub ascii: u8,
    pub cc: ColorCode,
}

/// A blank cell in the given attribute.
pub open spec fn blank(cc: ColorCode) -> SChar {
    SChar { ascii: 0x20, cc }
}

/// Whether the console shows `c` as it is: the printable ASCII range,
/// backspace, line feed, carriage return, and everything from `0x7F` up.
pub open spec fn printable(c: u8) -> bool {
    0x20 <= c <= 0x7E || c == 0x08 || c == 0x0A || c == 0x0D || c >= 0x7F
}

/// Whether the console shows `c` as it is.
pub fn is_printable(c: u8) -> (r: bool)
    ensures
        r == printable(c),
{
    (0x20 <= c && c <= 0x7E) || c == 0x08 || c == 0x0A || c == 0x0D || c >= 0x7F
}

/// The text screen as a mathematical value: the cells in row-major order,
/// the place where the next character lands, the visible caret, the current
/// attribute, and whether the hardware caret is shown.
pub struct Screen {
    pub cells: Seq<SChar>,
    pub writer_x: int,
    pub writer_y: int,
    pub cursor_x: int,
    pub cursor_y: int,
    pub cc: ColorCode,
    pub cursor_visible: bool,
}

impl Screen {
    /// The screen has all its cells, and both positions lie on it; a column
    /// equal to the width stands for "past the last column".
    pub open spec fn wf(self) -> bool {
        &&& self.cells.len() == 2000
        &&& 0 <= self.writer_x <= 80
        &&& 0 <= self.writer_y < 25
        &&& 0 <= self.cursor_x <= 80
        &&& 0 <= self.cursor_y < 25
    }

    /// The cell in column `x` of row `y`.
    pub open spec fn at(self, x: int, y: int) -> SChar {
        self.cells[y * 80 + x]
    }

    /// The screen with the cell in column `x` of row `y` replaced.
    pub open spec fn put(self, x: int, y: int, c: SChar) -> Screen {
        Screen { cells: self.cells.update(y * 80 + x, c), ..self }
    }

    /// The screen with another writer position.
    pub open spec fn with_writer(self, x: int, y: int) -> Screen {
        Screen { writer_x: x, writer_y: y, ..self }
    }

    /// The screen with another caret position.
    pub open spec fn with_cursor(self, x: int, y: int) -> Screen {
        Screen { cursor_x: x, cursor_y: y, ..self }
    }

    /// Row `row` blanked from column `x` to its end, in the current attribute.
    pub open spec fn clear_row_after(self, x: int, row: int) -> Screen {
        Screen {
            cells: Seq::new(
                2000,
                |i: int|
                    if row * 80 + x <= i < row * 80 + 80 {
                        blank(self.cc)
                    } else {
                        self.cells[i]
                    },
            ),
            ..self
        }
    }

    /// Every cell blanked in the current attribute.
    pub open spec fn clear_screen(self) -> Screen {
        Screen { cells: Seq::new(2000, |i: int| blank(self.cc)), ..self }
    }

    /// Rows 1..25 moved up by one, and the last row blanked.
    pub open spec fn scroll(self) -> Screen {
        Screen {
            cells: Seq::new(
                2000,
                |i: int|
                    if i < 1920 {
                        self.cells[i + 80]
                    } else {
                        blank(self.cc)
                    },
            ),
            ..self
        }
    }

    /// The writer moved to the start of the next row; on the last row the
    /// screen scrolls instead.
    pub open spec fn new_line(self) -> Screen {
        if self.writer_y < 24 {
            self.with_writer(0, self.writer_y + 1)
        } else {
            self.scroll().with_writer(0, self.writer_y)
        }
    }

    /// The effect of one output byte: line feed starts a new line, carriage
    /// return does nothing, backspace blanks the previous column and steps
    /// back, and any other byte is stored at the writer (as `0x00` when it is
    /// not printable), after a line break when the row is full.
    pub open spec fn write_byte(self, byte: u8) -> Screen {
        if byte == 0x0A {
            self.new_line()
        } else if byte == 0x0D {
            self
        } else if byte == 0x08 {
            if self.writer_x > 0 {
                self.put(self.writer_x - 1, self.writer_y, blank(self.cc)).with_writer(
                    self.writer_x - 1,
                    self.writer_y,
                )
            } else {
                self
            }
        } else {
            let s = if self.writer_x >= 80 {
                self.new_line()
            } else {
                self
            };
            let ascii = if printable(byte) {
                byte
            } else {
                0x00u8
            };
            s.put(s.writer_x, s.writer_y, SChar { ascii, cc: s.cc }).with_writer(
                s.writer_x + 1,
                s.writer_y,
            )
        }
    }
}

/// The last parameter of a sequence, or `default` when there is none.
pub open spec fn last_param(params: Seq<u16>, default: int) -> int {
    if params.len() == 0 {
        default
    } else {
        params.last() as int
    }
}

/// A count or a 1-based position taken from the last parameter: a missing
/// parameter and a parameter of zero both stand for one.
pub open spec fn count_param(params: Seq<u16>) -> int {
    if last_param(params, 1) == 0 {
        1
    } else {
        last_param(params, 1)
    }
}

/// The 1-based position in parameter `i`: a missing parameter and a
/// parameter of zero both stand for one.
pub open spec fn position_param(params: Seq<u16>, i: int) -> int {
    if i < params.len() && params[i] != 0 {
        params[i] as int
    } else {
        1
    }
}

/// The colours after one SGR parameter: 0 resets both, 30..=37 and 90..=97
/// select the foreground, 40..=47 and 100..=107 the background, and any other
/// parameter changes nothing.
pub open spec fn sgr_step(colors: (Color, Color), p: u16) -> (Color, Color) {
    if p == 0 {
        (default_fg(), default_bg())
    } else if 30 <= p <= 37 || 90 <= p <= 97 {
        (Color::ansi(p as int), colors.1)
    } else if 40 <= p <= 47 || 100 <= p <= 107 {
        (colors.0, Color::ansi(p - 10))
    } else {
        colors
    }
}

/// Foreground and background that an SGR sequence selects: the parameters
/// applied in order, starting from the defaults.
pub open spec fn sgr_colors(params: Seq<u16>) -> (Color, Color)
    decreases params.len(),
{
    if params.len() == 0 {
        (default_fg(), default_bg())
    } else {
        sgr_step(sgr_colors(params.drop_last()), params.last())
    }
}

/// What a mode sequence has settled: the echo setting it asks for, if any,
/// and whether the caret is shown.
pub struct Modes {
    pub echo: Option<bool>,
    pub cursor_visible: bool,
}

/// The modes after a set (`on`) or reset sequence: parameter 12 is input
/// echo, 25 the caret, and the first other parameter ends the sequence.
pub open spec fn mode_scan(params: Seq<u16>, on: bool, m: Modes) -> Modes
    decreases params.len(),
{
    if params.len() == 0 {
        m
    } else if params[0] == 12 {
        mode_scan(params.skip(1), on, Modes { echo: Some(on), ..m })
    } else if params[0] == 25 {
        mode_scan(params.skip(1), on, Modes { cursor_visible: on, ..m })
    } else {
        m
    }
}

/// The smaller of two integers.
pub open spec fn min_int(a: int, b: int) -> int {
    if a <= b {
        a
    } else {
        b
    }
}

/// The larger of two integers.
pub open spec fn max_int(a: int, b: int) -> int {
    if a >= b {
        a
    } else {
        b
    }
}

impl Screen {
    /// The effect of the CSI sequence with final character `action`, where
    /// `params` holds the first value of each parameter: the new screen, and
    /// the echo setting that the sequence asks for, if any.
    ///
    /// `m` selects colours; `A`, `B`, `C`, `D` move writer and caret up,
    /// down, right and left, stopping at the edge; `G` sets the column and
    /// ignores one beyond the width; `H` sets row and column, clamped to the
    /// screen; `J` with 2 clears the screen and homes both; `K` clears the
    /// caret's row from the caret (0) or as a whole (2) and puts the writer
    /// on the caret; `h` and `l` set and reset modes; anything else does
    /// nothing.
    pub open spec fn csi(self, params: Seq<u16>, action: char) -> (Screen, Option<bool>) {
        let n = count_param(params);
        if action == 'm' {
            let (fg, bg) = sgr_colors(params);
            (Screen { cc: ColorCode::of(fg, bg), ..self }, None)
        } else if action == 'A' {
            (
                Screen {
                    writer_y: max_int(self.writer_y - n, 0),
                    cursor_y: max_int(self.cursor_y - n, 0),
                    ..self
                },
                None,
            )
        } else if action == 'B' {
            (
                Screen {
                    writer_y: min_int(self.writer_y + n, 24),
                    cursor_y: min_int(self.cursor_y + n, 24),
                    ..self
                },
                None,
            )
        } else if action == 'C' {
            (
                Screen {
                    writer_x: min_int(self.writer_x + n, 79),
                    cursor_x: min_int(self.cursor_x + n, 79),
                    ..self
                },
                None,
            )
        } else if action == 'D' {
            (
                Screen {
                    writer_x: max_int(self.writer_x - n, 0),
                    cursor_x: max_int(self.cursor_x - n, 0),
                    ..self
                },
                None,
            )
        } else if action == 'G' {
            if n > 80 {
                (self, None)
            } else {
                (self.with_writer(n - 1, self.cursor_y).with_cursor(n - 1, self.cursor_y), None)
            }
        } else if action == 'H' {
            let row = min_int(position_param(params, 0), 25);
            let col = min_int(position_param(params, 1), 80);
            (self.with_writer(col - 1, row - 1).with_cursor(col - 1, row - 1), None)
        } else if action == 'J' {
            if last_param(params, 0) == 2 {
                (self.clear_screen().with_writer(0, 0).with_cursor(0, 0), None)
            } else {
                (self, None)
            }
        } else if action == 'K' {
            let mode = last_param(params, 0);
            if mode == 0 {
                (
                    self.clear_row_after(self.cursor_x, self.cursor_y).with_writer(
                        self.cursor_x,
                        self.cursor_y,
                    ),
                    None,
                )
            } else if mode == 2 {
                (
                    self.clear_row_after(0, self.cursor_y).with_writer(
                        self.cursor_x,
                        self.cursor_y,
                    ),
                    None,
                )
            } else {
                (self, None)
            }
        } else if action == 'h' || action == 'l' {
            let m = mode_scan(
                params,
                action == 'h',
                Modes { echo: None, cursor_visible: self.cursor_visible },
            );
            (Screen { cursor_visible: m.cursor_visible, ..self }, m.echo)
        } else {
            (self, None)
        }
    }
}

impl Screen {
    /// The effect of one parser event, and the echo setting it asks for.
    pub open spec fn apply(self, event: VtEvent) -> (Screen, Option<bool>) {
        match event {
            VtEvent::Print(c) => (self.write_byte(c as u8), None),
            VtEvent::Execute(byte) => (self.write_byte(byte), None),
            VtEvent::Csi(params, action) => self.csi(params@, action),
        }
    }

    /// The effect of a run of parser events in order, and the last echo
    /// setting that any of them asks for.
    pub open spec fn apply_all(self, events: Seq<VtEvent>) -> (Screen, Option<bool>)
        decreases events.len(),
    {
        if events.len() == 0 {
            (self, None)
        } else {
            let before = self.apply_all(events.drop_last());
            let after = before.0.apply(events.last());
            (
                after.0,
                if after.1 is Some {
                    after.1
                } else {
                    before.1
                },
            )
        }
    }

    /// The caret put where the writer is.
    pub open spec fn sync_cursor(self) -> Screen {
        self.with_cursor(self.writer_x, self.writer_y)
    }
}

/// Two runs of events, one after the other, do what the second does to the
/// screen that the first leaves, and ask for the echo setting of the second
/// if it asks for one, else for that of the first.
pub proof fn lemma_apply_all_concat(s: Screen, a: Seq<VtEvent>, b: Seq<VtEvent>)
    ensures
        s.apply_all(a + b).0 == s.apply_all(a).0.apply_all(b).0,
        s.apply_all(a + b).1 == if s.apply_all(a).0.apply_all(b).1 is Some {
            s.apply_all(a).0.apply_all(b).1
        } else {
            s.apply_all(a).1
        },
    decreases b.len(),
{
    if b.len() == 0 {
        assert(a + b =~= a);
    } else {
        assert((a + b).drop_last() =~= a + b.drop_last());
        assert((a + b).last() == b.last());
        lemma_apply_all_concat(s, a, b.drop_last());
    }
}

/// The screen at the start: every cell blank in the default attribute,
/// writer and caret at the top left, the caret shown.
pub open spec fn cleared() -> Screen {
    Screen {
        cells: Seq::new(2000, |i: int| blank(default_cc())),
        writer_x: 0,
        writer_y: 0,
        cursor_x: 0,
        cursor_y: 0,
        cc: default_cc(),
        cursor_visible: true,
    }
}

/// The VGA text console.
pub struct Writer {
    cursor: [usize; 2],
    writer: [usize; 2],
    cc: ColorCode,
    cursor_visible: bool,
    buf: Vec<SChar>,
}

impl View for Writer {
    type V = Screen;

    closed spec fn view(&self) -> Screen {
        Screen {
            cells: self.buf@,
            writer_x: self.writer[0] as int,
            writer_y: self.writer[1] as int,
            cursor_x: self.cursor[0] as int,
            cursor_y: self.cursor[1] as int,
            cc: self.cc,
            cursor_visible: self.cursor_visible,
        }
    }
}

impl Writer {
    /// The console's invariant, which every operation keeps.
    pub open spec fn wf(&self) -> bool {
        self@.wf()
    }

    /// A cleared screen in the default attribute, writer and caret at the
    /// top left, caret shown.
    pub fn new() -> (w: Writer)
        ensures
            w.wf(),
            w@ == cleared(),
    {
        let cc = ColorCode::new(Color::LightGray, Color::Black);
        let c = SChar { ascii: 0x20, cc };
        let mut buf: Vec<SChar> = Vec::new();
        let mut i: usize = 0;
        while i < BUF_CELLS
            invariant
                i <= 2000,
                buf@.len() == i,
                forall|j: int| 0 <= j < i ==> buf@[j] == c,
            decreases 2000 - i,
        {
            buf.push(c);
            i += 1;
        }
        assert(buf@ =~= Seq::new(2000, |i: int| blank(default_cc())));
        Writer { cursor: [0, 0], writer: [0, 0], cc, cursor_visible: true, buf }
    }

    /// Column and row where the next character lands.
    pub fn writer_pos(&self) -> (pos: (usize, usize))
        ensures
            pos.0 == self@.writer_x,
            pos.1 == self@.writer_y,
    {
        (self.writer[0], self.writer[1])
    }

    /// Column and row of the caret.
    pub fn cursor_pos(&self) -> (pos: (usize, usize))
        ensures
            pos.0 == self@.cursor_x,
            pos.1 == self@.cursor_y,
    {
        (self.cursor[0], self.cursor[1])
    }

    /// The current attribute.
    pub fn color_code(&self) -> (cc: ColorCode)
        ensures
            cc == self@.cc,
    {
        self.cc
    }

    /// Whether the hardware caret is shown.
    pub fn cursor_visible(&self) -> (v: bool)
        ensures
            v == self@.cursor_visible,
    {
        self.cursor_visible
    }

    /// The cell in column `x` of row `y`.
    pub fn cell(&self, x: usize, y: usize) -> (c: SChar)
        requires
            self.wf(),
            x < 80,
            y < 25,
        ensures
            c == self@.at(x as int, y as int),
    {
        self.buf[y * BUF_WIDTH + x]
    }

    /// Moves the writer.
    pub fn set_writer_pos(&mut self, x: usize, y: usize)
        requires
            old(self).wf(),
            x <= 80,
            y < 25,
        ensures
            final(self)@ == old(self)@.with_writer(x as int, y as int),
            final(self).wf(),
    {
        self.writer = [x, y];
    }

    /// Moves the caret.
    pub fn set_cursor_pos(&mut self, x: usize, y: usize)
        requires
            old(self).wf(),
            x <= 80,
            y < 25,
        ensures
            final(self)@ == old(self)@.with_cursor(x as int, y as int),
            final(self).wf(),
    {
        self.cursor = [x, y];
    }

    /// Selects the attribute for what is written next.
    pub fn set_color(&mut self, fg: Color, bg: Color)
        ensures
            final(self)@ == (Screen { cc: ColorCode::of(fg, bg), ..old(self)@ }),
    {
        self.cc = ColorCode::new(fg, bg);
    }

    /// Blanks row `row` from column `x` to its end, in the current attribute.
    pub fn clear_row_after(&mut self, x: usize, row: usize)
        requires
            old(self).wf(),
            x <= 80,
            row < 25,
        ensures
            final(self)@ == old(self)@.clear_row_after(x as int, row as int),
            final(self).wf(),
    {
        let c = SChar { ascii: 0x20, cc: self.cc };
        let mut col: usize = x;
        while col < BUF_WIDTH
            invariant
                x <= col <= 80,
                row < 25,
                c == blank(self.cc),
                self.buf@.len() == 2000,
                self.writer == old(self).writer,
                self.cursor == old(self).cursor,
                self.cc == old(self).cc,
                self.cursor_visible == old(self).cursor_visible,
                forall|i: int|
                    0 <= i < 2000 ==> self.buf@[i] == if row * 80 + x <= i < row * 80 + col {
                        c
                    } else {
                        old(self).buf@[i]
                    },
            decreases 80 - col,
        {
            self.buf.set(row * BUF_WIDTH + col, c);
            col += 1;
        }
        assert(self.buf@ =~= old(self)@.clear_row_after(x as int, row as int).cells);
    }

    /// Blanks every cell in the current attribute.
    pub fn clear_screen(&mut self)
        requires
            old(self).wf(),
        ensures
            final(self)@ == old(self)@.clear_screen(),
            final(self).wf(),
    {
        let mut y: usize = 0;
        while y < BUF_HEIGHT
            invariant
                y <= 25,
                self.wf(),
                self.writer == old(self).writer,
                self.cursor == old(self).cursor,
                self.cc == old(self).cc,
                self.cursor_visible == old(self).cursor_visible,
                forall|i: int|
                    0 <= i < 2000 ==> self.buf@[i] == if i < y * 80 {
                        blank(self.cc)
                    } else {
                        old(self).buf@[i]
                    },
            decreases 25 - y,
        {
            self.clear_row_after(0, y);
            y += 1;
        }
        assert(self.buf@ =~= old(self)@.clear_screen().cells);
    }

    /// Starts a new line: the writer goes to the start of the next row, and
    /// on the last row the screen scrolls up by one row instead.
    pub fn new_line(&mut self)
        requires
            old(self).wf(),
        ensures
            final(self)@ == old(self)@.new_line(),
            final(self).wf(),
    {
        if self.writer[1] < BUF_HEIGHT - 1 {
            let y: usize = self.writer[1] + 1;
            self.writer = [0, y];
        } else {
            let mut i: usize = 0;
            while i < BUF_CELLS - BUF_WIDTH
                invariant
                    i <= 1920,
                    self.buf@.len() == 2000,
                    self.writer == old(self).writer,
                    self.cursor == old(self).cursor,
                    self.cc == old(self).cc,
                    self.cursor_visible == old(self).cursor_visible,
                    forall|j: int|
                        0 <= j < 2000 ==> self.buf@[j] == if j < i {
                            old(self).buf@[j + 80]
                        } else {
                            old(self).buf@[j]
                        },
                decreases 1920 - i,
            {
                let c = self.buf[i + BUF_WIDTH];
                self.buf.set(i, c);
                i += 1;
            }
            self.clear_row_after(0, BUF_HEIGHT - 1);
            let y: usize = self.writer[1];
            self.writer = [0, y];
            assert(self.buf@ =~= old(self)@.scroll().cells);
        }
    }

    /// Writes one byte at the writer position.
    pub fn write_byte(&mut self, byte: u8)
        requires
            old(self).wf(),
        ensures
            final(self)@ == old(self)@.write_byte(byte),
            final(self).wf(),
    {
        if byte == 0x0A {
            self.new_line();
        } else if byte == 0x0D {
        } else if byte == 0x08 {
            if self.writer[0] > 0 {
                let x: usize = self.writer[0] - 1;
                let y: usize = self.writer[1];
                let c = SChar { ascii: 0x20, cc: self.cc };
                self.buf.set(y * BUF_WIDTH + x, c);
                self.writer = [x, y];
            }
        } else {
            if self.writer[0] >= BUF_WIDTH {
                self.new_line();
            }
            let x: usize = self.writer[0];
            let y: usize = self.writer[1];
            let ascii: u8 = if is_printable(byte) {
                byte
            } else {
                UNPRINTABLE
            };
            let c = SChar { ascii, cc: self.cc };
            self.buf.set(y * BUF_WIDTH + x, c);
            self.writer = [x + 1, y];
        }
    }

    /// Draws a character: its low byte is written at the writer position.
    pub fn print(&mut self, c: char)
        requires
            old(self).wf(),
        ensures
            final(self)@ == old(self)@.write_byte(c as u8),
            final(self).wf(),
    {
        self.write_byte(#[verifier::truncate] (c as u8));
    }

    /// Carries out a control byte, which is written like any other byte.
    pub fn execute(&mut self, byte: u8)
        requires
            old(self).wf(),
        ensures
            final(self)@ == old(self)@.write_byte(byte),
            final(self).wf(),
    {
        self.write_byte(byte);
    }

    /// Carries out the CSI sequence with final character `action`; `params`
    /// holds the first value of each of its parameters. Returns the echo
    /// setting that the sequence asks for, if any.
    pub fn csi_dispatch(&mut self, params: &Vec<u16>, action: char) -> (echo: Option<bool>)
        requires
            old(self).wf(),
        ensures
            (final(self)@, echo) == old(self)@.csi(params@, action),
            final(self).wf(),
    {
        let n: usize = count_of(params);
        if action == 'm' {
            let (fg, bg) = sgr(params);
            self.set_color(fg, bg);
            None
        } else if action == 'A' {
            let wy: usize = if self.writer[1] >= n { self.writer[1] - n } else { 0 };
            let cy: usize = if self.cursor[1] >= n { self.cursor[1] - n } else { 0 };
            self.writer = [self.writer[0], wy];
            self.cursor = [self.cursor[0], cy];
            None
        } else if action == 'B' {
            let wy: usize = if self.writer[1] + n <= BUF_HEIGHT - 1 { self.writer[1] + n } else { BUF_HEIGHT - 1 };
            let cy: usize = if self.cursor[1] + n <= BUF_HEIGHT - 1 { self.cursor[1] + n } else { BUF_HEIGHT - 1 };
            self.writer = [self.writer[0], wy];
            self.cursor = [self.cursor[0], cy];
            None
        } else if action == 'C' {
            let wx: usize = if self.writer[0] + n <= BUF_WIDTH - 1 { self.writer[0] + n } else { BUF_WIDTH - 1 };
            let cx: usize = if self.cursor[0] + n <= BUF_WIDTH - 1 { self.cursor[0] + n } else { BUF_WIDTH - 1 };
            self.writer = [wx, self.writer[1]];
            self.cursor = [cx, self.cursor[1]];
            None
        } else if action == 'D' {
            let wx: usize = if self.writer[0] >= n { self.writer[0] - n } else { 0 };
            let cx: usize = if self.cursor[0] >= n { self.cursor[0] - n } else { 0 };
            self.writer = [wx, self.writer[1]];
            self.cursor = [cx, self.cursor[1]];
            None
        } else if action == 'G' {
            if n > BUF_WIDTH {
                return None;
            }
            let y: usize = self.cursor[1];
            self.set_writer_pos(n - 1, y);
            self.set_cursor_pos(n - 1, y);
            None
        } else if action == 'H' {
            let row: usize = position_of(params, 0);
            let col: usize = position_of(params, 1);
            let y: usize = if row <= BUF_HEIGHT { row - 1 } else { BUF_HEIGHT - 1 };
            let x: usize = if col <= BUF_WIDTH { col - 1 } else { BUF_WIDTH - 1 };
            self.set_writer_pos(x, y);
            self.set_cursor_pos(x, y);
            None
        } else if action == 'J' {
            if last_of(params, 0) != 2 {
                return None;
            }
            self.clear_screen();
            self.set_writer_pos(0, 0);
            self.set_cursor_pos(0, 0);
            None
        } else if action == 'K' {
            let mode: usize = last_of(params, 0);
            let (x, y) = self.cursor_pos();
            if mode == 0 {
                self.clear_row_after(x, y);
            } else if mode == 2 {
                self.clear_row_after(0, y);
            } else {
                return None;
            }
            self.set_writer_pos(x, y);
            None
        } else if action == 'h' || action == 'l' {
            let (echo, visible) = scan_modes(params, action == 'h', self.cursor_visible);
            self.cursor_visible = visible;
            echo
        } else {
            None
        }
    }

    /// Carries out one parser event. Returns the echo setting that it asks
    /// for, if any.
    pub fn apply(&mut self, event: &VtEvent) -> (echo: Option<bool>)
        requires
            old(self).wf(),
        ensures
            (final(self)@, echo) == old(self)@.apply(*event),
            final(self).wf(),
    {
        match event {
            VtEvent::Print(c) => {
                self.print(*c);
                None
            },
            VtEvent::Execute(byte) => {
                self.execute(*byte);
                None
            },
            VtEvent::Csi(params, action) => self.csi_dispatch(params, *action),
        }
    }

    /// Carries out a run of parser events in order. Returns the last echo
    /// setting that any of them asks for.
    pub fn apply_all(&mut self, events: &Vec<VtEvent>) -> (echo: Option<bool>)
        requires
            old(self).wf(),
        ensures
            (final(self)@, echo) == old(self)@.apply_all(events@),
            final(self).wf(),
    {
        let mut echo: Option<bool> = None;
        let mut i: usize = 0;
        while i < events.len()
            invariant
                i <= events@.len(),
                self.wf(),
                (self@, echo) == old(self)@.apply_all(events@.take(i as int)),
            decreases events@.len() - i,
        {
            proof {
                assert(events@.take(i + 1).drop_last() =~= events@.take(i as int));
                assert(events@.take(i + 1).last() == events@[i as int]);
            }
            let e = self.apply(&events[i]);
            if e.is_some() {
                echo = e;
            }
            i += 1;
        }
        proof {
            assert(events@.take(i as int) =~= events@);
        }
        echo
    }

    /// Writes bytes through the escape-sequence parser, then puts the caret
    /// where the writer is: the parser takes the bytes one after the other,
    /// and every event that it reports is carried out as [`Writer::apply`]
    /// says, in order. Returns the last echo setting that the events ask
    /// for, if any.
    pub fn write_bytes(&mut self, parser: &mut vte::Parser, bytes: &[u8]) -> (echo: Option<bool>)
        requires
            old(self).wf(),
        ensures
            final(self).wf(),
            final(self)@ == old(self)@.apply_all(
                parsed_run(*old(parser), bytes@),
            ).0.sync_cursor(),
            echo == old(self)@.apply_all(parsed_run(*old(parser), bytes@)).1,
            *final(parser) == stepped_run(*old(parser), bytes@),
    {
        let mut echo: Option<bool> = None;
        let mut i: usize = 0;
        proof {
            assert(bytes@.take(0) =~= Seq::<u8>::empty());
        }
        while i < bytes.len()
            invariant
                i <= bytes@.len(),
                self.wf(),
                (self@, echo) == old(self)@.apply_all(
                    parsed_run(*old(parser), bytes@.take(i as int)),
                ),
                *parser == stepped_run(*old(parser), bytes@.take(i as int)),
            decreases bytes@.len() - i,
        {
            proof {
                assert(bytes@.take(i + 1).drop_last() =~= bytes@.take(i as int));
                assert(bytes@.take(i + 1).last() == bytes@[i as int]);
            }
            let events = crate::vt::advance(parser, bytes[i]);
            let e = self.apply_all(&events);
            proof {
                lemma_apply_all_concat(
                    old(self)@,
                    parsed_run(*old(parser), bytes@.take(i as int)),
                    events@,
                );
            }
            if e.is_some() {
                echo = e;
            }
            i += 1;
        }
        proof {
            assert(bytes@.take(i as int) =~= bytes@);
        }
        let (x, y) = self.writer_pos();
        self.set_cursor_pos(x, y);
        echo
    }

    /// Writes a string through the escape-sequence parser, as
    /// [`Writer::write_bytes`] writes its bytes.
    pub fn write_str(&mut self, parser: &mut vte::Parser, s: &str) -> (echo: Option<bool>)
        requires
            old(self).wf(),
        ensures
            final(self).wf(),
            final(self)@ == old(self)@.apply_all(
                parsed_run(*old(parser), s.spec_bytes()),
            ).0.sync_cursor(),
            echo == old(self)@.apply_all(parsed_run(*old(parser), s.spec_bytes())).1,
            *final(parser) == stepped_run(*old(parser), s.spec_bytes()),
    {
        self.write_bytes(parser, s.as_bytes())
    }
}

/// The last parameter, or `default` when there is none.
fn last_of(params: &Vec<u16>, default: usize) -> (n: usize)
    ensures
        n == last_param(params@, default as int),
{
    if params.len() == 0 {
        default
    } else {
        params[params.len() - 1] as usize
    }
}

/// The count or 1-based position in the last parameter.
fn count_of(params: &Vec<u16>) -> (n: usize)
    ensures
        n == count_param(params@),
        1 <= n <= 0xFFFF,
{
    let n: usize = last_of(params, 1);
    if n == 0 {
        1
    } else {
        n
    }
}

/// The 1-based position in parameter `i`.
fn position_of(params: &Vec<u16>, i: usize) -> (n: usize)
    ensures
        n == position_param(params@, i as int),
        1 <= n <= 0xFFFF,
{
    if i < params.len() && params[i] != 0 {
        params[i] as usize
    } else {
        1
    }
}

/// The colours that an SGR sequence selects.
fn sgr(params: &Vec<u16>) -> (colors: (Color, Color))
    ensures
        colors == sgr_colors(params@),
{
    let mut fg = Color::LightGray;
    let mut bg = Color::Black;
    let mut i: usize = 0;
    while i < params.len()
        invariant
            i <= params@.len(),
            (fg, bg) == sgr_colors(params@.take(i as int)),
        decreases params@.len() - i,
    {
        let p: u16 = params[i];
        proof {
            assert(params@.take(i + 1).drop_last() =~= params@.take(i as int));
            assert(params@.take(i + 1).last() == p);
        }
        if p == 0 {
            fg = Color::LightGray;
            bg = Color::Black;
        } else if (30 <= p && p <= 37) || (90 <= p && p <= 97) {
            fg = Color::from_ansi(p as u8);
        } else if (40 <= p && p <= 47) || (100 <= p && p <= 107) {
            bg = Color::from_ansi((p - 10) as u8);
        }
        i += 1;
    }
    proof {
        assert(params@.take(i as int) =~= params@);
    }
    (fg, bg)
}

/// The echo request and caret visibility after a mode sequence.
fn scan_modes(params: &Vec<u16>, on: bool, cursor_visible: bool) -> (r: (Option<bool>, bool))
    ensures
        (Modes { echo: r.0, cursor_visible: r.1 }) == mode_scan(
            params@,
            on,
            Modes { echo: None, cursor_visible },
        ),
{
    let mut echo: Option<bool> = None;
    let mut visible = cursor_visible;
    let mut i: usize = 0;
    proof {
        assert(params@.skip(0) =~= params@);
    }
    while i < params.len()
        invariant
            i <= params@.len(),
            mode_scan(params@, on, Modes { echo: None, cursor_visible }) == mode_scan(
                params@.skip(i as int),
                on,
                Modes { echo, cursor_visible: visible },
            ),
        decreases params@.len() - i,
    {
        let p: u16 = params[i];
        proof {
            assert(params@.skip(i as int).skip(1) =~= params@.skip(i + 1));
            assert(params@.skip(i as int)[0] == p);
        }
        if p == 12 {
            echo = Some(on);
        } else if p == 25 {
            visible = on;
        } else {
            return (echo, visible);
        }
        i += 1;
    }
    (echo, visible)
}

/// Erasing the display with `CSI 2 J` leaves every cell blank in the current
/// attribute and puts writer and caret at the top left.
pub proof fn lemma_erase_display_clears_and_homes(s: Screen)
    requires
        s.wf(),
    ensures
        forall|x: int, y: int|
            0 <= x < 80 && 0 <= y < 25 ==> #[trigger] s.csi(seq![2u16], 'J').0.at(x, y) == blank(
                s.cc,
            ),
        s.csi(seq![2u16], 'J').0.writer_x == 0,
        s.csi(seq![2u16], 'J').0.writer_y == 0,
        s.csi(seq![2u16], 'J').0.cursor_x == 0,
        s.csi(seq![2u16], 'J').0.cursor_y == 0,
        s.csi(seq![2u16], 'J').0.wf(),
        s.csi(seq![2u16], 'J').1 is None,
{
    assert(seq![2u16].last() == 2u16);
}

/// After `CSI H` without a row or column (or with zeros for them), a
/// character that is written lands in the top-left cell, in the current
/// attribute, and the writer stands in the next column.
pub proof fn lemma_home_then_write(s: Screen, params: Seq<u16>, byte: u8)
    requires
        s.wf(),
        position_param(params, 0) == 1,
        position_param(params, 1) == 1,
        byte != 0x0A && byte != 0x0D && byte != 0x08,
    ensures
        s.csi(params, 'H').0.write_byte(byte).at(0, 0) == (SChar {
            ascii: if printable(byte) {
                byte
            } else {
                0x00u8
            },
            cc: s.cc,
        }),
        s.csi(params, 'H').0.write_byte(byte).writer_x == 1,
        s.csi(params, 'H').0.write_byte(byte).writer_y == 0,
{
}

/// Every byte and every CSI sequence leaves a well-formed screen well-formed.
pub proof fn lemma_screen_stays_well_formed(s: Screen, byte: u8, params: Seq<u16>, action: char)
    requires
        s.wf(),
    ensures
        s.write_byte(byte).wf(),
        s.csi(params, action).0.wf(),
{
}

} // verus!
