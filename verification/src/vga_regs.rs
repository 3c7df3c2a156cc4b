//! Values for the VGA registers: the attribute controller's palette
//! indices, the DAC palette, and the CRTC caret registers. The port accesses
//! themselves are the caller's.

use crate::vga::Color;
use bit_field::BitField;
use vstd::prelude::*;

verus! {

/// Attribute-controller port for index and data writes.
pub const ATTR_ADDR_DATA_REG: u16 = 0x3C0;

/// Attribute-controller port for data reads.
pub const ATTR_DATA_READ_REG: u16 = 0x3C1;

/// DAC port that selects the palette entry to write.
pub const DAC_ADDR_WRITE_MODE_REG: u16 = 0x3C8;

/// DAC data port.
pub const DAC_DATA_REG: u16 = 0x3C9;

/// CRTC index port.
pub const CRTC_ADDR_REG: u16 = 0x3D4;

/// CRTC data port.
pub const CRTC_DATA_REG: u16 = 0x3D5;

/// Input status port; reading it resets the attribute controller's flip-flop.
pub const INPUT_STATUS_REG: u16 = 0x3DA;

/// Attribute-controller register that holds the mode bits.
pub const ATTR_MODE_REG: u8 = 0x10;

/// Underline location that lies below every character row.
pub const UNDERLINE_OFF: u8 = 0x1F;

/// CRTC register and value that hide the caret.
pub const CURSOR_DISABLE: (u8, u8) = (0x0A, 0x20);

/// `bit_field::BitField::set_bit` on a byte: bit `bit` set or cleared, the
/// other bits kept. The method panics for a bit beyond the byte.
#[verifier::external_body]
fn set_bit(value: u8, bit: usize, on: bool) -> (r: u8)
    requires
        bit < 8,
    ensures
        r == if on {
            value | (1u8 << bit)
        } else {
            value & !(1u8 << bit)
        },
{
    let mut v = value;
    v.set_bit(bit, on);
    v
}

/// The attribute mode register with blinking switched off: bit 3 cleared.
pub fn blink_off(attr: u8) -> (r: u8)
    ensures
        r == attr & 0xF7,
{
    let r = set_bit(attr, 3, false);
    assert(attr & !(1u8 << 3usize) == attr & 0xF7) by (bit_vector);
    r
}

/// The sixteen attribute-controller registers and their values: register
/// `i` shows the colour at palette position `i`.
pub fn attribute_table() -> (table: Vec<(u8, u8)>)
    ensures
        table@.len() == 16,
        forall|i: int|
            0 <= i < 16 ==> #[trigger] table@[i] == (i as u8, Color::at_index(i).vga_reg() as u8),
{
    let mut table: Vec<(u8, u8)> = Vec::new();
    let mut i: usize = 0;
    while i < 16
        invariant
            i <= 16,
            table@.len() == i,
            forall|j: int|
                0 <= j < i ==> #[trigger] table@[j] == (
                    j as u8,
                    Color::at_index(j).vga_reg() as u8,
                ),
        decreases 16 - i,
    {
        table.push((i as u8, Color::from_idx(i).to_vga_reg()));
        i += 1;
    }
    table
}

/// Red, green and blue of each of the sixteen colours, eight bits each.
pub struct Palette {
    pub colors: Vec<(u8, u8, u8)>,
}

impl Palette {
    /// A palette has sixteen entries.
    pub open spec fn wf(&self) -> bool {
        self.colors@.len() == 16
    }

    /// The standard text-mode palette.
    pub open spec fn standard() -> Seq<(u8, u8, u8)> {
        seq![
            (0x00u8, 0x00u8, 0x00u8),
            (0x00u8, 0x00u8, 0x80u8),
            (0x00u8, 0x80u8, 0x00u8),
            (0x00u8, 0x80u8, 0x80u8),
            (0x80u8, 0x00u8, 0x00u8),
            (0x80u8, 0x00u8, 0x80u8),
            (0x80u8, 0x80u8, 0x00u8),
            (0xC0u8, 0xC0u8, 0xC0u8),
            (0x80u8, 0x80u8, 0x80u8),
            (0x00u8, 0x00u8, 0xFFu8),
            (0x00u8, 0xFFu8, 0x00u8),
            (0x00u8, 0xFFu8, 0xFFu8),
            (0xFFu8, 0x00u8, 0x00u8),
            (0xFFu8, 0x00u8, 0xFFu8),
            (0xFFu8, 0xFFu8, 0x00u8),
            (0xFFu8, 0xFFu8, 0xFFu8),
        ]
    }
}

impl Default for Palette {
    fn default() -> (p: Palette)
        ensures
            p.wf(),
            p.colors@ == Palette::standard(),
    {
        let colors: Vec<(u8, u8, u8)> = vec![
            (0x00, 0x00, 0x00),
            (0x00, 0x00, 0x80),
            (0x00, 0x80, 0x00),
            (0x00, 0x80, 0x80),
            (0x80, 0x00, 0x00),
            (0x80, 0x00, 0x80),
            (0x80, 0x80, 0x00),
            (0xC0, 0xC0, 0xC0),
            (0x80, 0x80, 0x80),
            (0x00, 0x00, 0xFF),
            (0x00, 0xFF, 0x00),
            (0x00, 0xFF, 0xFF),
            (0xFF, 0x00, 0x00),
            (0xFF, 0x00, 0xFF),
            (0xFF, 0xFF, 0x00),
            (0xFF, 0xFF, 0xFF),
        ];
        assert(colors@ =~= Palette::standard());
        Palette { colors }
    }
}

/// One palette entry as the DAC takes it: the register, then red, green and
/// blue with six bits each.
#[derive(Debug, Clone, Copy, PartialEq, Eq, Structural)]
pub struct DacEntry {
    pub reg: u8,
    pub red: u8,
    pub green: u8,
    pub blue: u8,
}

/// The DAC writes that load a palette: for each palette position the
/// register of its colour, and each component reduced to six bits.
pub fn set_palette(palette: &Palette) -> (writes: Vec<DacEntry>)
    requires
        palette.wf(),
    ensures
        writes@.len() == 16,
        forall|i: int|
            0 <= i < 16 ==> #[trigger] writes@[i] == (DacEntry {
                reg: Color::at_index(i).vga_reg() as u8,
                red: palette.colors@[i].0 / 4,
                green: palette.colors@[i].1 / 4,
                blue: palette.colors@[i].2 / 4,
            }),
{
    let mut writes: Vec<DacEntry> = Vec::new();
    let mut i: usize = 0;
    while i < 16
        invariant
            i <= 16,
            palette.colors@.len() == 16,
            writes@.len() == i,
            forall|j: int|
                0 <= j < i ==> #[trigger] writes@[j] == (DacEntry {
                    reg: Color::at_index(j).vga_reg() as u8,
                    red: palette.colors@[j].0 / 4,
                    green: palette.colors@[j].1 / 4,
                    blue: palette.colors@[j].2 / 4,
                }),
        decreases 16 - i,
    {
        let (r, g, b) = palette.colors[i];
        assert(r >> 2 == r / 4) by (bit_vector);
        assert(g >> 2 == g / 4) by (bit_vector);
        assert(b >> 2 == b / 4) by (bit_vector);
        writes.push(
            DacEntry { reg: Color::from_idx(i).to_vga_reg(), red: r >> 2, green: g >> 2, blue: b >> 2 },
        );
        i += 1;
    }
    writes
}

/// The CRTC caret-location registers (low byte for register `0x0F`, high
/// byte for `0x0E`) for a caret in column `x` of row `y`.
pub fn write_cursor(x: usize, y: usize) -> (regs: (u8, u8))
    requires
        x <= 80,
        y < 25,
    ensures
        regs.0 == (x + y * 80) % 256,
        regs.1 == (x + y * 80) / 256,
{
    let pos: usize = x + y * 80;
    assert(pos < 0x10000 ==> (pos & 0xFF) == pos % 256 && ((pos >> 8) & 0xFF) == pos / 256)
        by (bit_vector);
    ((pos & 0xFF) as u8, ((pos >> 8) & 0xFF) as u8)
}

/// The CRTC caret-shape registers `0x0A` and `0x0B` that show the caret on
/// scan lines 13 to 14, given what the two registers hold now: the upper
/// bits are kept.
pub fn enable_cursor(start: u8, end: u8) -> (regs: (u8, u8))
    ensures
        regs.0 == (start & 0xC0) | 13,
        regs.1 == (end & 0xE0) | 14,
{
    ((start & 0xC0) | 13, (end & 0xE0) | 14)
}

} // verus!
