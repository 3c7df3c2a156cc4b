//! A plain screen writer without escape sequences: text goes to the bottom
//! row, and the screen scrolls up when the row is full.

use crate::vga::{blank, ColorCode, SChar};
use vstd::prelude::*;
use vstd::string::StringSliceAdditionalSpecFns;

verus! {

/// Byte shown in place of one that cannot be printed.
pub const UNPRINTABLE: u8 = 0xfe;

/// The screen as a mathematical value: the cells in row-major order, the
/// column where the next character lands, and the current attribute.
pub struct Page {
    pub cells: Seq<SChar>,
    pub col_pos: int,
    pub cc: ColorCode,
}

impl Page {
    /// The screen has all its cells, and the column lies on it or just
    /// past its end.
    pub open spec fn wf(self) -> bool {
        self.cells.len() == 2000 && 0 <= self.col_pos <= 80
    }

    /// The cell in column `x` of row `y`.
    pub open spec fn at(self, x: int, y: int) -> SChar {
        self.cells[y * 80 + x]
    }

    /// Every row moved up by one, the bottom row blanked, and the column
    /// back at the start.
    pub open spec fn new_line(self) -> Page {
        Page {
            cells: Seq::new(
                2000,
                |i: int|
                    if i < 1920 {
                        self.cells[i + 80]
                    } else {
                        blank(self.cc)
                    },
            ),
            col_pos: 0,
            cc: self.cc,
        }
    }

    /// The effect of one byte: a line feed starts a new line, and any
    /// other byte is stored in the bottom row, after a new line when the
    /// row is full.
    pub open spec fn write_byte(self, byte: u8) -> Page {
        if byte == 0x0A {
            self.new_line()
        } else {
            let s = if self.col_pos >= 80 {
                self.new_line()
            } else {
                self
            };
            Page {
                cells: s.cells.update(1920 + s.col_pos, SChar { ascii: byte, cc: s.cc }),
                col_pos: s.col_pos + 1,
                cc: s.cc,
            }
        }
    }

    /// The byte that is written for a byte of a string: itself if it is
    /// printable ASCII or a line feed, and a filled square otherwise.
    pub open spec fn shown(byte: u8) -> u8 {
        if 0x20 <= byte <= 0x7e || byte == 0x0A {
            byte
        } else {
            UNPRINTABLE
        }
    }

    /// The effect of the bytes of a string, in order.
    pub open spec fn write_bytes(self, bytes: Seq<u8>) -> Page
        decreases bytes.len(),
    {
        if bytes.len() == 0 {
            self
        } else {
            self.write_bytes(bytes.drop_last()).write_byte(Page::shown(bytes.last()))
        }
    }
}

/// The plain screen writer.
pub struct Writer {
    col_pos: usize,
    cc: ColorCode,
    buf: Vec<SChar>,
}

impl View for Writer {
    type V = Page;

    closed spec fn view(&self) -> Page {
        Page { cells: self.buf@, col_pos: self.col_pos as int, cc: self.cc }
    }
}

impl Writer {
    /// The writer's invariant, which every operation keeps.
    pub open spec fn wf(&self) -> bool {
        self@.wf()
    }

    /// A writer on a screen of blanks in the attribute `cc`.
    pub fn new(cc: ColorCode) -> (w: Writer)
        ensures
            w.wf(),
            w@.cells == Seq::new(2000, |i: int| blank(cc)),
            w@.col_pos == 0,
            w@.cc == cc,
    {
        let c = SChar { ascii: 0x20, cc };
        let mut buf: Vec<SChar> = Vec::new();
        let mut i: usize = 0;
        while i < 2000
            invariant
                i <= 2000,
                buf@.len() == i,
                forall|j: int| 0 <= j < i ==> buf@[j] == c,
            decreases 2000 - i,
        {
            buf.push(c);
            i += 1;
        }
        assert(buf@ =~= Seq::new(2000, |i: int| blank(cc)));
        Writer { col_pos: 0, cc, buf }
    }

    /// The cell in column `x` of row `y`.
    pub fn cell(&self, x: usize, y: usize) -> (c: SChar)
        requires
            self.wf(),
            x < 80,
            y < 25,
        ensures
            c == self@.at(x as int, y as int),
    {
        self.buf[y * 80 + x]
    }

    /// The column where the next character lands.
    pub fn col_pos(&self) -> (x: usize)
        ensures
            x == self@.col_pos,
    {
        self.col_pos
    }

    /// Blanks row `row` in the current attribute.
    fn clear_row(&mut self, row: usize)
        requires
            old(self).wf(),
            row < 25,
        ensures
            final(self).wf(),
            final(self)@.col_pos == old(self)@.col_pos,
            final(self)@.cc == old(self)@.cc,
            final(self)@.cells == Seq::new(
                2000,
                |i: int|
                    if row * 80 <= i < row * 80 + 80 {
                        blank(old(self)@.cc)
                    } else {
                        old(self)@.cells[i]
                    },
            ),
    {
        let c = SChar { ascii: 0x20, cc: self.cc };
        let mut col: usize = 0;
        while col < 80
            invariant
                col <= 80,
                row < 25,
                c == blank(self.cc),
                self.buf@.len() == 2000,
                self.col_pos == old(self).col_pos,
                self.cc == old(self).cc,
                forall|i: int|
                    0 <= i < 2000 ==> self.buf@[i] == if row * 80 <= i < row * 80 + col {
                        c
                    } else {
                        old(self).buf@[i]
                    },
            decreases 80 - col,
        {
            self.buf.set(row * 80 + col, c);
            col += 1;
        }
        assert(self.buf@ =~= Seq::new(
            2000,
            |i: int|
                if row * 80 <= i < row * 80 + 80 {
                    blank(old(self)@.cc)
                } else {
                    old(self)@.cells[i]
                },
        ));
    }

    /// Scrolls the screen up by one row and goes back to the first column.
    fn new_line(&mut self)
        requires
            old(self).wf(),
        ensures
            final(self).wf(),
            final(self)@ == old(self)@.new_line(),
    {
        let mut i: usize = 0;
        while i < 1920
            invariant
                i <= 1920,
                self.buf@.len() == 2000,
                self.col_pos == old(self).col_pos,
                self.cc == old(self).cc,
                forall|j: int|
                    0 <= j < 2000 ==> self.buf@[j] == if j < i {
                        old(self).buf@[j + 80]
                    } else {
                        old(self).buf@[j]
                    },
            decreases 1920 - i,
        {
            let c = self.buf[i + 80];
            self.buf.set(i, c);
            i += 1;
        }
        self.clear_row(24);
        self.col_pos = 0;
        assert(self.buf@ =~= old(self)@.new_line().cells);
    }

    /// Writes one byte.
    pub fn write_byte(&mut self, byte: u8)
        requires
            old(self).wf(),
        ensures
            final(self).wf(),
            final(self)@ == old(self)@.write_byte(byte),
    {
        if byte == 0x0A {
            self.new_line();
        } else {
            if self.col_pos >= 80 {
                self.new_line();
            }
            let col: usize = self.col_pos;
            self.buf.set(1920 + col, SChar { ascii: byte, cc: self.cc });
            self.col_pos = col + 1;
        }
    }

    /// Writes a string byte by byte; a byte that is neither printable
    /// ASCII nor a line feed is written as a filled square.
    pub fn write_string(&mut self, s: &str)
        requires
            old(self).wf(),
        ensures
            final(self).wf(),
            final(self)@ == old(self)@.write_bytes(s.spec_bytes()),
    {
        let bytes = s.as_bytes();
        let mut i: usize = 0;
        while i < bytes.len()
            invariant
                i <= bytes@.len(),
                self.wf(),
                self@ == old(self)@.write_bytes(bytes@.take(i as int)),
            decreases bytes@.len() - i,
        {
            proof {
                assert(bytes@.take(i + 1).drop_last() =~= bytes@.take(i as int));
                assert(bytes@.take(i + 1).last() == bytes@[i as int]);
            }
            let b: u8 = bytes[i];
            if (0x20 <= b && b <= 0x7e) || b == 0x0A {
                self.write_byte(b);
            } else {
                self.write_byte(UNPRINTABLE);
            }
            i += 1;
        }
        proof {
            assert(bytes@.take(i as int) =~= bytes@);
        }
    }
}

} // verus!
