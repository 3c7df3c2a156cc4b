//! The console: colour styles for text, and the line discipline that sits
//! between the keyboard or the serial line and a reading process.

use crate::serial::{events_echo, events_output, Serial};
use crate::vga::{Screen, Writer};
use crate::vt::{parsed_run, stepped_run};
use vstd::prelude::*;
use vstd::string::StringExecFns;
use vstd::string::StringSliceAdditionalSpecFns;
use vstd::utf8::encode_scalar;

verus! {

/// Whether two strings hold the same characters.
pub fn str_eq(a: &str, b: &str) -> (r: bool)
    ensures
        r == (a@ == b@),
{
    let x: String = a.to_owned();
    let y: String = b.to_owned();
    x.eq(&y)
}

/// A foreground and a background for text, as ANSI colour codes.
#[derive(Clone, Copy)]
pub struct Style {
    fg: Option<usize>,
    bg: Option<usize>,
}

/// The ANSI foreground code of a colour name, if it names one of the
/// sixteen colours.
pub open spec fn fg_code(color: Seq<char>) -> Option<usize> {
    if color == "Black"@ {
        Some(30usize)
    } else if color == "Red"@ {
        Some(31usize)
    } else if color == "Green"@ {
        Some(32usize)
    } else if color == "Brown"@ {
        Some(33usize)
    } else if color == "Blue"@ {
        Some(34usize)
    } else if color == "Magenta"@ {
        Some(35usize)
    } else if color == "Cyan"@ {
        Some(36usize)
    } else if color == "LightGray"@ {
        Some(37usize)
    } else if color == "DarkGray"@ {
        Some(90usize)
    } else if color == "LightRed"@ {
        Some(91usize)
    } else if color == "LightGreen"@ {
        Some(92usize)
    } else if color == "Yellow"@ {
        Some(93usize)
    } else if color == "LightBlue"@ {
        Some(94usize)
    } else if color == "Pink"@ {
        Some(95usize)
    } else if color == "LightCyan"@ {
        Some(96usize)
    } else if color == "White"@ {
        Some(97usize)
    } else {
        None
    }
}

/// The ANSI background code of a colour name: ten above its foreground code.
pub open spec fn bg_code(color: Seq<char>) -> Option<usize> {
    match fg_code(color) {
        Some(fg) => Some((fg + 10) as usize),
        None => None,
    }
}

/// The character of a decimal digit.
pub open spec fn digit_char(d: nat) -> char {
    if d == 0 {
        '0'
    } else if d == 1 {
        '1'
    } else if d == 2 {
        '2'
    } else if d == 3 {
        '3'
    } else if d == 4 {
        '4'
    } else if d == 5 {
        '5'
    } else if d == 6 {
        '6'
    } else if d == 7 {
        '7'
    } else if d == 8 {
        '8'
    } else {
        '9'
    }
}

/// A number in decimal, without leading zeros.
pub open spec fn decimal(n: nat) -> Seq<char>
    decreases n,
{
    if n < 10 {
        seq![digit_char(n)]
    } else {
        decimal(n / 10).push(digit_char(n % 10))
    }
}

/// The SGR escape sequence that selects the given codes: `ESC [ fg ; bg m`,
/// with only the code that is set when one is missing, and `ESC [ 0 m` when
/// both are.
pub open spec fn sgr_sequence(fg: Option<usize>, bg: Option<usize>) -> Seq<char> {
    match (fg, bg) {
        (Some(f), Some(b)) => seq!['\x1b', '['] + decimal(f as nat) + seq![';'] + decimal(
            b as nat,
        ) + seq!['m'],
        (Some(f), None) => seq!['\x1b', '['] + decimal(f as nat) + seq!['m'],
        (None, Some(b)) => seq!['\x1b', '['] + decimal(b as nat) + seq!['m'],
        (None, None) => seq!['\x1b', '[', '0', 'm'],
    }
}

/// One decimal digit as a string.
fn digit_str(d: usize) -> (s: &'static str)
    requires
        d < 10,
    ensures
        s@ == seq![digit_char(d as nat)],
{
    proof {
        reveal_strlit("0");
        reveal_strlit("1");
        reveal_strlit("2");
        reveal_strlit("3");
        reveal_strlit("4");
        reveal_strlit("5");
        reveal_strlit("6");
        reveal_strlit("7");
        reveal_strlit("8");
        reveal_strlit("9");
    }
    let s = if d == 0 {
        "0"
    } else if d == 1 {
        "1"
    } else if d == 2 {
        "2"
    } else if d == 3 {
        "3"
    } else if d == 4 {
        "4"
    } else if d == 5 {
        "5"
    } else if d == 6 {
        "6"
    } else if d == 7 {
        "7"
    } else if d == 8 {
        "8"
    } else {
        "9"
    };
    assert(s@ =~= seq![digit_char(d as nat)]);
    s
}

/// A number in decimal.
fn decimal_string(n: usize) -> (s: String)
    ensures
        s@ == decimal(n as nat),
    decreases n,
{
    if n < 10 {
        String::from_str(digit_str(n))
    } else {
        let mut s = decimal_string(n / 10);
        s.append(digit_str(n % 10));
        assert(s@ =~= decimal(n as nat));
        s
    }
}

impl Style {
    /// The foreground code, if one is set.
    pub closed spec fn fg(self) -> Option<usize> {
        self.fg
    }

    /// The background code, if one is set.
    pub closed spec fn bg(self) -> Option<usize> {
        self.bg
    }

    /// The ANSI foreground code of a colour name.
    pub fn color_to_fg(color: &str) -> (code: Option<usize>)
        ensures
            code == fg_code(color@),
            code is Some ==> 30 <= code->0 <= 97,
    {
        if str_eq(color, "Black") {
            Some(30)
        } else if str_eq(color, "Red") {
            Some(31)
        } else if str_eq(color, "Green") {
            Some(32)
        } else if str_eq(color, "Brown") {
            Some(33)
        } else if str_eq(color, "Blue") {
            Some(34)
        } else if str_eq(color, "Magenta") {
            Some(35)
        } else if str_eq(color, "Cyan") {
            Some(36)
        } else if str_eq(color, "LightGray") {
            Some(37)
        } else if str_eq(color, "DarkGray") {
            Some(90)
        } else if str_eq(color, "LightRed") {
            Some(91)
        } else if str_eq(color, "LightGreen") {
            Some(92)
        } else if str_eq(color, "Yellow") {
            Some(93)
        } else if str_eq(color, "LightBlue") {
            Some(94)
        } else if str_eq(color, "Pink") {
            Some(95)
        } else if str_eq(color, "LightCyan") {
            Some(96)
        } else if str_eq(color, "White") {
            Some(97)
        } else {
            None
        }
    }

    /// The ANSI background code of a colour name.
    pub fn color_to_bg(color: &str) -> (code: Option<usize>)
        ensures
            code == bg_code(color@),
    {
        match Style::color_to_fg(color) {
            Some(fg) => Some(fg + 10),
            None => None,
        }
    }

    /// A style with the named foreground and no background.
    pub fn foreground(color: &str) -> (s: Style)
        ensures
            s.fg() == fg_code(color@),
            s.bg() is None,
    {
        Style { fg: Style::color_to_fg(color), bg: None }
    }

    /// This style with the named foreground.
    pub fn with_foreground(self, color: &str) -> (s: Style)
        ensures
            s.fg() == fg_code(color@),
            s.bg() == self.bg(),
    {
        Style { fg: Style::color_to_fg(color), bg: self.bg }
    }

    /// A style with the named background and no foreground.
    pub fn background(color: &str) -> (s: Style)
        ensures
            s.fg() is None,
            s.bg() == bg_code(color@),
    {
        Style { fg: None, bg: Style::color_to_bg(color) }
    }

    /// This style with the named background.
    pub fn with_background(self, color: &str) -> (s: Style)
        ensures
            s.fg() == self.fg(),
            s.bg() == bg_code(color@),
    {
        Style { fg: self.fg, bg: Style::color_to_bg(color) }
    }

    /// A style with the named foreground and no background.
    pub fn color(color: &str) -> (s: Style)
        ensures
            s.fg() == fg_code(color@),
            s.bg() is None,
    {
        Style::foreground(color)
    }

    /// This style with the named foreground.
    pub fn with_color(self, color: &str) -> (s: Style)
        ensures
            s.fg() == fg_code(color@),
            s.bg() == self.bg(),
    {
        self.with_foreground(color)
    }

    /// The style that resets all colours.
    pub fn reset() -> (s: Style)
        ensures
            s.fg() is None,
            s.bg() is None,
    {
        Style { fg: None, bg: None }
    }

    /// The escape sequence that selects this style.
    pub fn to_string(&self) -> (s: String)
        ensures
            s@ == sgr_sequence(self.fg(), self.bg()),
    {
        proof {
            reveal_strlit("\x1b[");
            reveal_strlit(";");
            reveal_strlit("m");
            reveal_strlit("\x1b[0m");
        }
        let mut s = String::from_str("\x1b[");
        assert(s@ =~= seq!['\x1b', '[']);
        match (self.fg, self.bg) {
            (Some(f), Some(b)) => {
                s.append(decimal_string(f).as_str());
                s.append(";");
                s.append(decimal_string(b).as_str());
                s.append("m");
                assert(s@ =~= sgr_sequence(self.fg(), self.bg()));
                s
            },
            (Some(f), None) => {
                s.append(decimal_string(f).as_str());
                s.append("m");
                assert(s@ =~= sgr_sequence(self.fg(), self.bg()));
                s
            },
            (None, Some(b)) => {
                s.append(decimal_string(b).as_str());
                s.append("m");
                assert(s@ =~= sgr_sequence(self.fg(), self.bg()));
                s
            },
            (None, None) => {
                let r = String::from_str("\x1b[0m");
                assert(r@ =~= sgr_sequence(self.fg(), self.bg()));
                r
            },
        }
    }
}

/// End of text, echoed as `^C`.
pub const ETX: char = '\x03';

/// End of transmission, echoed as `^D`.
pub const EOT: char = '\x04';

/// Backspace.
pub const BACKSPACE: char = '\x08';

/// Escape, echoed as `^[`.
pub const ESC: char = '\x1b';

/// `char::encode_utf8`: the UTF-8 encoding of a character, one to four
/// bytes.
#[verifier::external_body]
fn encode_char(c: char) -> (bytes: Vec<u8>)
    ensures
        bytes@ == encode_scalar(c as u32),
{
    let mut buf = [0u8; 4];
    c.encode_utf8(&mut buf).as_bytes().to_vec()
}

/// How many backspaces erase the echo of a character: two for a control
/// character that was shown as a caret pair, one for a character below
/// `0xFF`, and the length of its UTF-8 encoding otherwise.
pub open spec fn erase_width(c: char) -> nat {
    if c == ETX || c == EOT || c == ESC {
        2
    } else if (c as u32) < 0xFF {
        1
    } else {
        encode_scalar(c as u32).len()
    }
}

/// What is printed when a character is echoed: `^C`, `^D` and `^[` for end
/// of text, end of transmission and escape, and the character itself
/// otherwise.
pub open spec fn key_echo(c: char) -> Seq<u8> {
    if c == ETX {
        seq![0x5Eu8, 0x43u8]
    } else if c == EOT {
        seq![0x5Eu8, 0x44u8]
    } else if c == ESC {
        seq![0x5Eu8, 0x5Bu8]
    } else {
        encode_scalar(c as u32)
    }
}

/// One key reaching the line discipline: the input buffer afterwards, and
/// the bytes that are echoed.
///
/// Outside raw mode a backspace removes the last character of the buffer, if
/// there is one, and echoes the backspaces that erase it. Every other key,
/// and a backspace in raw mode, is appended and echoed. Nothing is echoed
/// while echo is off.
pub open spec fn key_step(input: Seq<char>, echo: bool, raw: bool, key: char) -> (
    Seq<char>,
    Seq<u8>,
) {
    if key == BACKSPACE && !raw {
        if input.len() > 0 {
            (
                input.drop_last(),
                if echo {
                    Seq::new(erase_width(input.last()), |i: int| 0x08u8)
                } else {
                    Seq::empty()
                },
            )
        } else {
            (input, Seq::empty())
        }
    } else {
        (
            input.push(key),
            if echo {
                key_echo(key)
            } else {
                Seq::empty()
            },
        )
    }
}

/// The UTF-8 encoding of the longest run of leading characters that fits
/// into `limit` bytes.
pub open spec fn utf8_fit(chars: Seq<char>, limit: int) -> Seq<u8>
    decreases chars.len(),
{
    if chars.len() == 0 {
        Seq::empty()
    } else if encode_scalar(chars[0] as u32).len() > limit {
        Seq::empty()
    } else {
        encode_scalar(chars[0] as u32) + utf8_fit(
            chars.drop_first(),
            limit - encode_scalar(chars[0] as u32).len(),
        )
    }
}

/// The UTF-8 encoding of the longest run of leading characters that fits
/// into `limit` bytes.
fn encode_fit(chars: &Vec<char>, limit: usize) -> (out: Vec<u8>)
    ensures
        out@ == utf8_fit(chars@, limit as int),
        out@.len() <= limit,
{
    let mut out: Vec<u8> = Vec::new();
    let mut i: usize = 0;
    proof {
        assert(chars@.skip(0) =~= chars@);
    }
    while i < chars.len()
        invariant
            i <= chars@.len(),
            out@.len() <= limit,
            utf8_fit(chars@, limit as int) == out@ + utf8_fit(
                chars@.skip(i as int),
                limit - out@.len(),
            ),
        decreases chars@.len() - i,
    {
        let mut enc = encode_char(chars[i]);
        proof {
            assert(chars@.skip(i as int)[0] == chars@[i as int]);
            assert(chars@.skip(i as int).drop_first() =~= chars@.skip(i + 1));
        }
        if enc.len() > limit - out.len() {
            assert(out@ + Seq::<u8>::empty() =~= out@);
            return out;
        }
        let ghost before = out@;
        out.append(&mut enc);
        proof {
            let e = encode_scalar(chars@[i as int] as u32);
            let rest = utf8_fit(chars@.skip(i + 1), limit - before.len() - e.len());
            assert(before + (e + rest) =~= (before + e) + rest);
        }
        i += 1;
    }
    assert(out@ + Seq::<u8>::empty() =~= out@);
    out
}

/// The echo setting after printing: the one that the serial line's events
/// ask for, else the one that the screen's events ask for, else the one
/// that was there.
pub open spec fn echo_after(echo: bool, screen: Option<bool>, line: Option<bool>) -> bool {
    match line {
        Some(on) => on,
        None => match screen {
            Some(on) => on,
            None => echo,
        },
    }
}

/// The console as a mathematical value: the input buffer and its modes,
/// the screen with its parser, what waits on the serial line with that
/// line's parser, and which of the two sinks are configured.
pub struct ConsoleModel {
    pub input: Seq<char>,
    pub echo: bool,
    pub raw: bool,
    pub screen: Screen,
    pub screen_parser: vte::Parser,
    pub line: Seq<u8>,
    pub line_parser: vte::Parser,
    pub to_vga: bool,
    pub to_serial: bool,
}

impl ConsoleModel {
    /// The console after `bytes` have been printed. A sink that is
    /// configured takes the bytes through its parser, in order: the screen
    /// carries out the events and puts the caret where the writer is, and
    /// the serial line queues what the events send. A sink that is not
    /// configured stays as it is, and so does its parser. The echo setting
    /// is what [`echo_after`] says; the input buffer stays as it is.
    pub open spec fn print(self, bytes: Seq<u8>) -> ConsoleModel {
        let shown = self.screen.apply_all(parsed_run(self.screen_parser, bytes));
        let sent = parsed_run(self.line_parser, bytes);
        ConsoleModel {
            screen: if self.to_vga {
                shown.0.sync_cursor()
            } else {
                self.screen
            },
            screen_parser: if self.to_vga {
                stepped_run(self.screen_parser, bytes)
            } else {
                self.screen_parser
            },
            line: if self.to_serial {
                self.line + events_output(sent)
            } else {
                self.line
            },
            line_parser: if self.to_serial {
                stepped_run(self.line_parser, bytes)
            } else {
                self.line_parser
            },
            echo: echo_after(
                self.echo,
                if self.to_vga {
                    shown.1
                } else {
                    None
                },
                if self.to_serial {
                    events_echo(sent)
                } else {
                    None
                },
            ),
            ..self
        }
    }

    /// The console after one key has reached it: the line discipline takes
    /// the key as [`key_step`] says, and the bytes that it echoes, if there
    /// are any, are printed.
    pub open spec fn key(self, key: char) -> ConsoleModel {
        let step = key_step(self.input, self.echo, self.raw, key);
        let taken = ConsoleModel { input: step.0, ..self };
        if step.1.len() > 0 {
            taken.print(step.1)
        } else {
            taken
        }
    }
}

/// The console: the input buffer with its echo and raw modes, and the
/// output sinks.
pub struct Console {
    /// Characters typed and not yet read, oldest first.
    pub input: Vec<char>,
    /// Whether typed characters are printed.
    pub echo: bool,
    /// Whether a backspace is delivered instead of erasing.
    pub raw: bool,
    /// The text screen.
    pub vga: Writer,
    /// The parser for what is written to the screen.
    pub vga_parser: vte::Parser,
    /// The serial line.
    pub serial: Serial,
    /// Whether output goes to the screen.
    pub to_vga: bool,
    /// Whether output goes to the serial line.
    pub to_serial: bool,
}

impl View for Console {
    type V = ConsoleModel;

    open spec fn view(&self) -> ConsoleModel {
        ConsoleModel {
            input: self.input@,
            echo: self.echo,
            raw: self.raw,
            screen: self.vga@,
            screen_parser: self.vga_parser,
            line: self.serial@,
            line_parser: self.serial.parser(),
            to_vga: self.to_vga,
            to_serial: self.to_serial,
        }
    }
}

impl Console {
    /// The console's invariant, which every operation keeps.
    pub open spec fn wf(&self) -> bool {
        self.vga.wf()
    }

    /// A console with an empty input buffer, echo on, raw mode off, a cleared
    /// screen and nothing waiting on the serial line.
    pub fn new(to_vga: bool, to_serial: bool) -> (c: Console)
        ensures
            c.wf(),
            c.input@ == Seq::<char>::empty(),
            c.echo,
            !c.raw,
            c.to_vga == to_vga,
            c.to_serial == to_serial,
            c.serial@ == Seq::<u8>::empty(),
            c.vga@ == crate::vga::cleared(),
    {
        Console {
            input: Vec::new(),
            echo: true,
            raw: false,
            vga: Writer::new(),
            vga_parser: crate::vt::new_parser(),
            serial: Serial::new(),
            to_vga,
            to_serial,
        }
    }

    /// Prepares for reading a single character: echo goes off and raw mode
    /// on until the character has been read.
    pub fn start_read_char(&mut self)
        ensures
            *final(self) == (Console { echo: false, raw: true, ..*old(self) }),
    {
        self.echo = false;
        self.raw = true;
    }

    /// Takes the oldest character from the input buffer, if there is one,
    /// and then switches echo on and raw mode off. With an empty buffer
    /// nothing changes and the caller has to wait.
    pub fn read_char(&mut self) -> (c: Option<char>)
        ensures
            old(self).input@.len() == 0 ==> c is None && *final(self) == *old(self),
            old(self).input@.len() > 0 ==> c == Some(old(self).input@[0]) && final(self).input@
                == old(self).input@.drop_first() && final(self).echo && !final(self).raw,
            final(self).vga == old(self).vga,
            final(self).vga_parser == old(self).vga_parser,
            final(self).serial == old(self).serial,
            final(self).to_vga == old(self).to_vga,
            final(self).to_serial == old(self).to_serial,
    {
        if self.input.len() == 0 {
            return None;
        }
        let c = self.input.remove(0);
        self.echo = true;
        self.raw = false;
        assert(self.input@ =~= old(self).input@.drop_first());
        Some(c)
    }

    /// Takes the whole input buffer if it ends in a line feed. Otherwise
    /// nothing changes and the caller has to wait.
    pub fn read_line(&mut self) -> (line: Option<Vec<char>>)
        ensures
            line is Some <==> old(self).input@.len() > 0 && old(self).input@.last() == '\n',
            line is Some ==> line->0@ == old(self).input@ && final(self).input@ == Seq::<
                char,
            >::empty(),
            line is None ==> *final(self) == *old(self),
            final(self).echo == old(self).echo,
            final(self).raw == old(self).raw,
            final(self).vga == old(self).vga,
            final(self).vga_parser == old(self).vga_parser,
            final(self).serial == old(self).serial,
            final(self).to_vga == old(self).to_vga,
            final(self).to_serial == old(self).to_serial,
    {
        let n: usize = self.input.len();
        if n > 0 && self.input[n - 1] == '\n' {
            let mut line: Vec<char> = Vec::new();
            std::mem::swap(&mut line, &mut self.input);
            Some(line)
        } else {
            None
        }
    }

    /// One attempt at a read into a buffer of `len` bytes: a buffer of four
    /// bytes reads a single character, any other a completed line. Returns
    /// the bytes read, in UTF-8 and cut to what fits, or `None` when the
    /// input is not there yet and the caller has to wait.
    pub fn read(&mut self, len: usize) -> (bytes: Option<Vec<u8>>)
        ensures
            len == 4 ==> (bytes is Some <==> old(self).input@.len() > 0),
            len == 4 && bytes is Some ==> bytes->0@ == utf8_fit(seq![old(self).input@[0]], 4)
                && final(self).input@ == old(self).input@.drop_first() && final(self).echo
                && !final(self).raw,
            len != 4 ==> (bytes is Some <==> old(self).input@.len() > 0 && old(self).input@.last() == '\n'),
            len != 4 && bytes is Some ==> bytes->0@ == utf8_fit(old(self).input@, len as int)
                && final(self).input@ == Seq::<char>::empty()
                    && final(self).echo == old(self).echo
                    && final(self).raw == old(self).raw,
            bytes is Some ==> bytes->0@.len() <= len,
            bytes is None ==> *final(self) == *old(self),
            final(self).vga == old(self).vga,
            final(self).vga_parser == old(self).vga_parser,
            final(self).serial == old(self).serial,
            final(self).to_vga == old(self).to_vga,
            final(self).to_serial == old(self).to_serial,
    {
        if len == 4 {
            match self.read_char() {
                Some(c) => {
                    let mut one: Vec<char> = Vec::new();
                    one.push(c);
                    assert(one@ =~= seq![old(self).input@[0]]);
                    Some(encode_fit(&one, len))
                },
                None => None,
            }
        } else {
            match self.read_line() {
                Some(line) => Some(encode_fit(&line, len)),
                None => None,
            }
        }
    }

    /// One key reaching the line discipline. Returns the bytes to echo.
    pub fn key_input(&mut self, key: char) -> (echoed: Vec<u8>)
        ensures
            (final(self).input@, echoed@) == key_step(
                old(self).input@,
                old(self).echo,
                old(self).raw,
                key,
            ),
            final(self).echo == old(self).echo,
            final(self).raw == old(self).raw,
            final(self).vga == old(self).vga,
            final(self).vga_parser == old(self).vga_parser,
            final(self).serial == old(self).serial,
            final(self).to_vga == old(self).to_vga,
            final(self).to_serial == old(self).to_serial,
    {
        let mut echoed: Vec<u8> = Vec::new();
        if key == BACKSPACE && !self.raw {
            match self.input.pop() {
                Some(c) => {
                    if self.echo {
                        let n: usize = if c == ETX || c == EOT || c == ESC {
                            2
                        } else if (c as u32) < 0xFF {
                            1
                        } else {
                            encode_char(c).len()
                        };
                        let mut i: usize = 0;
                        while i < n
                            invariant
                                i <= n,
                                echoed@.len() == i,
                                forall|j: int| 0 <= j < i ==> echoed@[j] == 0x08u8,
                            decreases n - i,
                        {
                            echoed.push(0x08);
                            i += 1;
                        }
                        assert(echoed@ =~= Seq::new(erase_width(c), |i: int| 0x08u8));
                    }
                },
                None => {},
            }
        } else {
            self.input.push(key);
            if self.echo {
                if key == ETX {
                    echoed.push(0x5E);
                    echoed.push(0x43);
                } else if key == EOT {
                    echoed.push(0x5E);
                    echoed.push(0x44);
                } else if key == ESC {
                    echoed.push(0x5E);
                    echoed.push(0x5B);
                } else {
                    echoed = encode_char(key);
                }
                assert(echoed@ =~= key_echo(key));
            }
        }
        echoed
    }

    /// Prints bytes on the configured sinks, each through its own
    /// escape-sequence parser, and takes over the echo setting that the text
    /// asks for, as [`ConsoleModel::print`] says.
    pub fn print(&mut self, bytes: &[u8])
        requires
            old(self).wf(),
        ensures
            final(self).wf(),
            final(self)@ == old(self)@.print(bytes@),
            final(self).input == old(self).input,
            !old(self).to_vga ==> final(self).vga == old(self).vga,
            !old(self).to_serial ==> final(self).serial == old(self).serial,
    {
        if self.to_vga {
            let e = self.vga.write_bytes(&mut self.vga_parser, bytes);
            match e {
                Some(on) => {
                    self.echo = on;
                },
                None => {},
            }
        }
        if self.to_serial {
            let e = self.serial.write_bytes(bytes);
            match e {
                Some(on) => {
                    self.echo = on;
                },
                None => {},
            }
        }
    }

    /// Writes a buffer to the console: its bytes are printed. Returns the
    /// number of bytes taken, which is all of them.
    pub fn write(&mut self, buf: &[u8]) -> (n: usize)
        requires
            old(self).wf(),
        ensures
            n == buf@.len(),
            final(self).wf(),
            final(self)@ == old(self)@.print(buf@),
            final(self).input == old(self).input,
            !old(self).to_vga ==> final(self).vga == old(self).vga,
            !old(self).to_serial ==> final(self).serial == old(self).serial,
    {
        self.print(buf);
        buf.len()
    }
}

/// Switches echo on for `"enable"` and off for `"disable"`; any other
/// command changes nothing.
pub fn switch_echo(console: &mut Console, cmd: &str)
    ensures
        *final(console) == (Console {
            echo: if cmd@ == "enable"@ {
                true
            } else if cmd@ == "disable"@ {
                false
            } else {
                old(console).echo
            },
            ..*old(console)
        }),
{
    if str_eq(cmd, "enable") {
        console.echo = true;
    } else if str_eq(cmd, "disable") {
        console.echo = false;
    }
}

/// Switches raw mode on for `"enable"` and off for `"disable"`; any other
/// command changes nothing.
pub fn switch_raw(console: &mut Console, cmd: &str)
    ensures
        *final(console) == (Console {
            raw: if cmd@ == "enable"@ {
                true
            } else if cmd@ == "disable"@ {
                false
            } else {
                old(console).raw
            },
            ..*old(console)
        }),
{
    if str_eq(cmd, "enable") {
        console.raw = true;
    } else if str_eq(cmd, "disable") {
        console.raw = false;
    }
}

/// Whether the mode named `"echo"` or `"raw"` is on; any other name gives
/// `false`.
pub fn is_enabled(console: &Console, mode: &str) -> (on: bool)
    ensures
        on == if mode@ == "echo"@ {
            console.echo
        } else if mode@ == "raw"@ {
            console.raw
        } else {
            false
        },
{
    if str_eq(mode, "echo") {
        console.echo
    } else if str_eq(mode, "raw") {
        console.raw
    } else {
        false
    }
}

/// Delivers one key to the console: the line discipline takes it, and what
/// it echoes is printed on the sinks, as [`ConsoleModel::key`] says. A key
/// that echoes nothing leaves the sinks untouched.
pub fn handle_key_inp(console: &mut Console, key: char)
    requires
        old(console).wf(),
    ensures
        final(console).wf(),
        final(console)@ == old(console)@.key(key),
        key_step(old(console).input@, old(console).echo, old(console).raw, key).1.len() == 0
            ==> final(console).echo == old(console).echo && final(console).vga == old(console).vga
            && final(console).serial == old(console).serial,
        !old(console).to_vga ==> final(console).vga == old(console).vga,
        !old(console).to_serial ==> final(console).serial == old(console).serial,
{
    let echoed = console.key_input(key);
    if echoed.len() > 0 {
        console.print(echoed.as_slice());
    }
}

/// Prints text on the console's sinks: its bytes are printed as
/// [`ConsoleModel::print`] says.
pub fn console_print(console: &mut Console, text: &str)
    requires
        old(console).wf(),
    ensures
        final(console).wf(),
        final(console)@ == old(console)@.print(text.spec_bytes()),
        final(console).input == old(console).input,
        !old(console).to_vga ==> final(console).vga == old(console).vga,
        !old(console).to_serial ==> final(console).serial == old(console).serial,
{
    console.print(text.as_bytes());
}

/// With echo on, a printable ASCII character other than backspace that is
/// typed is echoed as exactly one byte, the character itself, and joins the
/// input buffer.
pub proof fn lemma_echo_is_one_byte(input: Seq<char>, raw: bool, key: char)
    requires
        key as u32 <= 0x7F,
        crate::vga::printable(key as u8),
        key != BACKSPACE,
    ensures
        key_step(input, true, raw, key).1 == seq![key as u8],
        key_step(input, true, raw, key).0 == input.push(key),
{
    let v = key as u32;
    assert(v <= 0x7F ==> (v & 0x7F) == v) by (bit_vector);
    assert(encode_scalar(v) =~= seq![key as u8]);
}

/// With echo off nothing is echoed, whatever is typed.
pub proof fn lemma_no_echo_is_silent(input: Seq<char>, raw: bool, key: char)
    ensures
        key_step(input, false, raw, key).1 == Seq::<u8>::empty(),
{
}

/// A character that is typed and then erased with a backspace, outside raw
/// mode, leaves the input buffer as it was.
pub proof fn lemma_backspace_undoes_key(input: Seq<char>, echo: bool, key: char)
    requires
        key != BACKSPACE,
    ensures
        key_step(key_step(input, echo, false, key).0, echo, false, BACKSPACE).0 == input,
{
    assert(input.push(key).drop_last() =~= input);
}

/// A key that echoes nothing changes nothing but the input buffer: screen,
/// serial line and echo setting stay as they are.
pub proof fn lemma_silent_key_leaves_sinks(c: ConsoleModel, key: char)
    requires
        key_step(c.input, c.echo, c.raw, key).1.len() == 0,
    ensures
        c.key(key) == (ConsoleModel { input: key_step(c.input, c.echo, c.raw, key).0, ..c }),
{
}

/// Outside raw mode a backspace on an empty input buffer does nothing at
/// all: nothing is removed and nothing is printed.
pub proof fn lemma_backspace_on_empty_does_nothing(c: ConsoleModel)
    requires
        c.input.len() == 0,
        !c.raw,
    ensures
        c.key(BACKSPACE) == c,
{
    assert(key_step(c.input, c.echo, c.raw, BACKSPACE).0 =~= c.input);
}

/// With echo on, a printable ASCII character other than backspace joins
/// the input buffer, and exactly one byte is printed: the character itself.
pub proof fn lemma_printable_key_prints_itself(c: ConsoleModel, key: char)
    requires
        c.echo,
        key as u32 <= 0x7F,
        crate::vga::printable(key as u8),
        key != BACKSPACE,
    ensures
        c.key(key) == (ConsoleModel { input: c.input.push(key), ..c }).print(seq![key as u8]),
{
    lemma_echo_is_one_byte(c.input, c.raw, key);
}

/// With echo on and outside raw mode, a backspace takes the last character
/// from the input buffer and prints the backspaces that erase its echo:
/// two after end of text, end of transmission and escape, which were
/// echoed as two characters, and one after any other character below
/// `0xFF`.
pub proof fn lemma_backspace_erases_the_echo(c: ConsoleModel)
    requires
        c.echo,
        !c.raw,
        c.input.len() > 0,
        (c.input.last() as u32) < 0xFF,
    ensures
        c.key(BACKSPACE) == (ConsoleModel { input: c.input.drop_last(), ..c }).print(
            if c.input.last() == ETX || c.input.last() == EOT || c.input.last() == ESC {
                seq![0x08u8, 0x08u8]
            } else {
                seq![0x08u8]
            },
        ),
{
    let last = c.input.last();
    let echoed = key_step(c.input, c.echo, c.raw, BACKSPACE).1;
    if last == ETX || last == EOT || last == ESC {
        assert(echoed =~= seq![0x08u8, 0x08u8]);
    } else {
        assert(echoed =~= seq![0x08u8]);
    }
}

} // verus!
