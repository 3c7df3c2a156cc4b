use prestige::console::{console_print, Console};
use prestige::vga::{is_printable, Color, ColorCode, SChar, Writer};
use prestige::vt::{EventLog, VtEvent};
use vte::Perform;

fn default_cc() -> ColorCode {
    ColorCode::new(Color::LightGray, Color::Black)
}

fn cell(c: u8) -> SChar {
    SChar { ascii: c, cc: default_cc() }
}

#[test]
fn color_code_packs_background_high() {
    assert_eq!(ColorCode::new(Color::Yellow, Color::Blue), ColorCode(0x1E));
    assert_eq!(default_cc(), ColorCode(0x07));
    assert_eq!(ColorCode::new(Color::White, Color::White), ColorCode(0xFF));
}

#[test]
fn color_tables() {
    for i in 0..16usize {
        assert_eq!(Color::from_idx(i).to_idx() as usize, i);
    }
    assert_eq!(Color::from_ansi(30), Color::Black);
    assert_eq!(Color::from_ansi(31), Color::Red);
    assert_eq!(Color::from_ansi(33), Color::Brown);
    assert_eq!(Color::from_ansi(34), Color::Blue);
    assert_eq!(Color::from_ansi(37), Color::LightGray);
    assert_eq!(Color::from_ansi(90), Color::DarkGray);
    assert_eq!(Color::from_ansi(93), Color::Yellow);
    assert_eq!(Color::from_ansi(97), Color::White);
    assert_eq!(Color::from_ansi(38), Color::Black);
    assert_eq!(Color::from_ansi(0), Color::Black);
    assert_eq!(Color::Brown.to_vga_reg(), 0x14);
    assert_eq!(Color::LightGray.to_vga_reg(), 0x07);
    assert_eq!(Color::DarkGray.to_vga_reg(), 0x38);
    assert_eq!(Color::White.to_vga_reg(), 0x3F);
}

#[test]
fn printable_bytes() {
    assert!(is_printable(b' '));
    assert!(is_printable(b'~'));
    assert!(is_printable(0x08));
    assert!(is_printable(0x0A));
    assert!(is_printable(0x0D));
    assert!(is_printable(0x7F));
    assert!(is_printable(0xFF));
    assert!(!is_printable(0x00));
    assert!(!is_printable(0x1B));
    assert!(!is_printable(0x1F));
}

#[test]
fn write_byte_stores_and_advances() {
    let mut w = Writer::new();
    w.write_byte(b'A');
    assert_eq!(w.cell(0, 0), cell(b'A'));
    assert_eq!(w.writer_pos(), (1, 0));
    w.write_byte(0x01);
    assert_eq!(w.cell(1, 0), cell(0x00));
    assert_eq!(w.writer_pos(), (2, 0));
}

#[test]
fn carriage_return_is_ignored() {
    let mut w = Writer::new();
    w.write_byte(b'A');
    w.write_byte(b'\r');
    assert_eq!(w.writer_pos(), (1, 0));
    assert_eq!(w.cell(0, 0), cell(b'A'));
}

#[test]
fn backspace_blanks_previous_column() {
    let mut w = Writer::new();
    w.write_byte(b'A');
    w.write_byte(b'B');
    w.write_byte(0x08);
    assert_eq!(w.cell(0, 0), cell(b'A'));
    assert_eq!(w.cell(1, 0), cell(b' '));
    assert_eq!(w.writer_pos(), (1, 0));
    w.write_byte(0x08);
    w.write_byte(0x08);
    assert_eq!(w.writer_pos(), (0, 0));
}

#[test]
fn full_row_wraps_to_next_line() {
    let mut w = Writer::new();
    for _ in 0..80 {
        w.write_byte(b'x');
    }
    assert_eq!(w.writer_pos(), (80, 0));
    w.write_byte(b'y');
    assert_eq!(w.writer_pos(), (1, 1));
    assert_eq!(w.cell(0, 1), cell(b'y'));
    assert_eq!(w.cell(79, 0), cell(b'x'));
}

#[test]
fn new_line_scrolls_at_the_bottom() {
    let mut w = Writer::new();
    w.write_byte(b'T');
    for _ in 0..24 {
        w.write_byte(b'\n');
    }
    assert_eq!(w.writer_pos(), (0, 24));
    assert_eq!(w.cell(0, 0), cell(b'T'));
    w.write_byte(b'B');
    w.write_byte(b'\n');
    assert_eq!(w.writer_pos(), (0, 24));
    assert_eq!(w.cell(0, 0), cell(b' '));
    assert_eq!(w.cell(0, 23), cell(b'B'));
    assert_eq!(w.cell(0, 24), cell(b' '));
}

#[test]
fn erase_display_clears_and_homes() {
    let mut w = Writer::new();
    w.write_byte(b'A');
    w.write_byte(b'\n');
    w.write_byte(b'B');
    let echo = w.csi_dispatch(&vec![2], 'J');
    assert_eq!(echo, None);
    for y in 0..25 {
        for x in 0..80 {
            assert_eq!(w.cell(x, y), cell(b' '));
        }
    }
    assert_eq!(w.writer_pos(), (0, 0));
    assert_eq!(w.cursor_pos(), (0, 0));
}

#[test]
fn erase_display_other_modes_do_nothing() {
    let mut w = Writer::new();
    w.write_byte(b'A');
    w.csi_dispatch(&vec![0], 'J');
    w.csi_dispatch(&vec![1], 'J');
    w.csi_dispatch(&vec![], 'J');
    assert_eq!(w.cell(0, 0), cell(b'A'));
    assert_eq!(w.writer_pos(), (1, 0));
}

#[test]
fn home_then_write_lands_top_left() {
    let mut w = Writer::new();
    w.write_byte(b'\n');
    w.write_byte(b'q');
    w.csi_dispatch(&vec![0], 'H');
    w.print('X');
    assert_eq!(w.cell(0, 0), cell(b'X'));
    assert_eq!(w.writer_pos(), (1, 0));
}

#[test]
fn cursor_position_is_one_based_and_clamped() {
    let mut w = Writer::new();
    w.csi_dispatch(&vec![3, 5], 'H');
    assert_eq!(w.writer_pos(), (4, 2));
    assert_eq!(w.cursor_pos(), (4, 2));
    w.csi_dispatch(&vec![100, 200], 'H');
    assert_eq!(w.writer_pos(), (79, 24));
    w.csi_dispatch(&vec![7], 'H');
    assert_eq!(w.writer_pos(), (0, 6));
}

#[test]
fn cursor_moves_stop_at_the_edges() {
    let mut w = Writer::new();
    w.csi_dispatch(&vec![10, 10], 'H');
    w.csi_dispatch(&vec![0], 'A');
    assert_eq!(w.writer_pos(), (9, 8));
    w.csi_dispatch(&vec![3], 'B');
    assert_eq!(w.writer_pos(), (9, 11));
    w.csi_dispatch(&vec![5], 'C');
    assert_eq!(w.writer_pos(), (14, 11));
    w.csi_dispatch(&vec![4], 'D');
    assert_eq!(w.writer_pos(), (10, 11));
    assert_eq!(w.cursor_pos(), (10, 11));
    w.csi_dispatch(&vec![500], 'A');
    assert_eq!(w.writer_pos(), (10, 0));
    w.csi_dispatch(&vec![500], 'B');
    assert_eq!(w.writer_pos(), (10, 24));
    w.csi_dispatch(&vec![500], 'C');
    assert_eq!(w.writer_pos(), (79, 24));
    w.csi_dispatch(&vec![500], 'D');
    assert_eq!(w.writer_pos(), (0, 24));
}

#[test]
fn column_sequence() {
    let mut w = Writer::new();
    w.csi_dispatch(&vec![4, 1], 'H');
    w.csi_dispatch(&vec![12], 'G');
    assert_eq!(w.writer_pos(), (11, 3));
    assert_eq!(w.cursor_pos(), (11, 3));
    w.csi_dispatch(&vec![81], 'G');
    assert_eq!(w.writer_pos(), (11, 3));
    w.csi_dispatch(&vec![80], 'G');
    assert_eq!(w.writer_pos(), (79, 3));
    w.csi_dispatch(&vec![0], 'G');
    assert_eq!(w.writer_pos(), (0, 3));
}

#[test]
fn erase_line() {
    let mut w = Writer::new();
    for b in b"hello world" {
        w.write_byte(*b);
    }
    w.set_cursor_pos(5, 0);
    w.csi_dispatch(&vec![0], 'K');
    assert_eq!(w.cell(4, 0), cell(b'o'));
    assert_eq!(w.cell(5, 0), cell(b' '));
    assert_eq!(w.cell(10, 0), cell(b' '));
    assert_eq!(w.writer_pos(), (5, 0));
    w.csi_dispatch(&vec![2], 'K');
    assert_eq!(w.cell(0, 0), cell(b' '));
    assert_eq!(w.cell(4, 0), cell(b' '));
    assert_eq!(w.writer_pos(), (5, 0));
    w.write_byte(b'z');
    w.csi_dispatch(&vec![1], 'K');
    assert_eq!(w.cell(5, 0), cell(b'z'));
    assert_eq!(w.writer_pos(), (6, 0));
}

#[test]
fn sgr_selects_colors() {
    let mut w = Writer::new();
    w.csi_dispatch(&vec![31], 'm');
    assert_eq!(w.color_code(), ColorCode::new(Color::Red, Color::Black));
    w.csi_dispatch(&vec![93, 44], 'm');
    assert_eq!(w.color_code(), ColorCode::new(Color::Yellow, Color::Blue));
    w.csi_dispatch(&vec![107], 'm');
    assert_eq!(w.color_code(), ColorCode::new(Color::LightGray, Color::White));
    w.csi_dispatch(&vec![31, 42, 0], 'm');
    assert_eq!(w.color_code(), default_cc());
    w.csi_dispatch(&vec![31, 1], 'm');
    assert_eq!(w.color_code(), ColorCode::new(Color::Red, Color::Black));
    w.csi_dispatch(&vec![], 'm');
    assert_eq!(w.color_code(), default_cc());
    w.csi_dispatch(&vec![32], 'm');
    w.write_byte(b'g');
    assert_eq!(w.cell(0, 0), SChar { ascii: b'g', cc: ColorCode(0x02) });
}

#[test]
fn mode_sequences() {
    let mut w = Writer::new();
    assert!(w.cursor_visible());
    assert_eq!(w.csi_dispatch(&vec![25], 'l'), None);
    assert!(!w.cursor_visible());
    assert_eq!(w.csi_dispatch(&vec![25], 'h'), None);
    assert!(w.cursor_visible());
    assert_eq!(w.csi_dispatch(&vec![12], 'l'), Some(false));
    assert_eq!(w.csi_dispatch(&vec![12], 'h'), Some(true));
    assert_eq!(w.csi_dispatch(&vec![12, 25], 'l'), Some(false));
    assert!(!w.cursor_visible());
    assert_eq!(w.csi_dispatch(&vec![7, 12, 25], 'h'), None);
    assert!(!w.cursor_visible());
    assert_eq!(w.csi_dispatch(&vec![25, 7, 12], 'h'), None);
    assert!(w.cursor_visible());
}

#[test]
fn unknown_sequences_do_nothing() {
    let mut w = Writer::new();
    w.write_byte(b'A');
    assert_eq!(w.csi_dispatch(&vec![5], 'Z'), None);
    assert_eq!(w.csi_dispatch(&vec![5], 'q'), None);
    assert_eq!(w.writer_pos(), (1, 0));
    assert_eq!(w.cell(0, 0), cell(b'A'));
}

#[test]
fn events_are_applied_in_order() {
    let mut w = Writer::new();
    let events = vec![
        VtEvent::Print('a'),
        VtEvent::Csi(vec![12], 'l'),
        VtEvent::Execute(b'\n'),
        VtEvent::Csi(vec![12], 'h'),
        VtEvent::Print('b'),
    ];
    assert_eq!(w.apply_all(&events), Some(true));
    assert_eq!(w.cell(0, 0), cell(b'a'));
    assert_eq!(w.cell(0, 1), cell(b'b'));
    assert_eq!(w.apply(&VtEvent::Print('c')), None);
    assert_eq!(w.writer_pos(), (2, 1));
}

#[test]
fn escape_sequences_pass_through_the_parser() {
    let mut c = Console::new(true, false);
    console_print(&mut c, "junk\x1b[2J");
    for y in 0..25 {
        for x in 0..80 {
            assert_eq!(c.vga.cell(x, y), cell(b' '));
        }
    }
    assert_eq!(c.vga.writer_pos(), (0, 0));
    assert_eq!(c.vga.cursor_pos(), (0, 0));
    console_print(&mut c, "ab\ncd\x1b[HX");
    assert_eq!(c.vga.cell(0, 0), cell(b'X'));
    assert_eq!(c.vga.cell(1, 0), cell(b'b'));
    assert_eq!(c.vga.cell(0, 1), cell(b'c'));
    assert_eq!(c.vga.writer_pos(), (1, 0));
    assert_eq!(c.vga.cursor_pos(), (1, 0));
    console_print(&mut c, "\x1b[5;10H\x1b[1;33;44mQ");
    assert_eq!(c.vga.cell(9, 4), SChar { ascii: b'Q', cc: ColorCode(0x16) });
}

#[test]
fn parser_splits_sequences_across_writes() {
    let mut w = Writer::new();
    let mut parser = vte::Parser::new();
    w.write_byte(b'A');
    assert_eq!(w.write_str(&mut parser, "\x1b["), None);
    assert_eq!(w.write_str(&mut parser, "2"), None);
    assert_eq!(w.cell(0, 0), cell(b'A'));
    assert_eq!(w.write_bytes(&mut parser, b"J"), None);
    assert_eq!(w.cell(0, 0), cell(b' '));
    assert_eq!(w.write_str(&mut parser, "\x1b[?12l"), Some(false));
}

#[test]
fn event_log_records_what_the_parser_reports() {
    let mut log = EventLog { events: Vec::new() };
    log.print('a');
    log.execute(7);
    log.print('é');
    assert_eq!(
        log.events,
        vec![VtEvent::Print('a'), VtEvent::Execute(7), VtEvent::Print('é')]
    );
    let mut parser = vte::Parser::new();
    let mut log = EventLog { events: Vec::new() };
    for byte in b"x\x1b[3;4H\n\x1b[38:2:1;5m\x1b[?25l\x1b[J" {
        parser.advance(&mut log, *byte);
    }
    assert_eq!(
        log.events,
        vec![
            VtEvent::Print('x'),
            VtEvent::Csi(vec![3, 4], 'H'),
            VtEvent::Execute(b'\n'),
            VtEvent::Csi(vec![38, 5], 'm'),
            VtEvent::Csi(vec![25], 'l'),
            VtEvent::Csi(vec![0], 'J'),
        ]
    );
}

#[test]
fn printing_nothing_only_moves_the_caret() {
    let mut c = Console::new(true, true);
    c.vga.write_byte(b'a');
    c.vga.write_byte(b'b');
    assert_eq!(c.vga.cursor_pos(), (0, 0));
    console_print(&mut c, "");
    assert_eq!(c.vga.cursor_pos(), (2, 0));
    assert_eq!(c.vga.writer_pos(), (2, 0));
    assert_eq!(c.vga.cell(0, 0), cell(b'a'));
    assert!(c.echo);
    assert_eq!(c.serial.take_output(), Vec::<u8>::new());
    console_print(&mut c, "cd");
    assert_eq!(c.vga.cursor_pos(), (4, 0));
    assert_eq!(c.serial.take_output(), b"cd".to_vec());
    let mut s = Console::new(false, true);
    s.vga.write_byte(b'a');
    console_print(&mut s, "zz");
    assert_eq!(s.vga.cursor_pos(), (0, 0));
    assert_eq!(s.vga.writer_pos(), (1, 0));
    assert_eq!(s.vga.cell(1, 0), cell(b' '));
}
