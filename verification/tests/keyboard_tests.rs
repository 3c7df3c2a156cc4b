use prestige::console::Console;
use prestige::keyboard::{
    deliver, key_action, key_event, keyboard_interrupt_handler, send_csi, send_key, Decoded, Key,
    KeyAction, KeyboardLayout, Modifiers,
};

fn feed(k: &mut KeyboardLayout, m: &mut Modifiers, codes: &[u8]) -> Vec<KeyAction> {
    codes.iter().map(|c| keyboard_interrupt_handler(k, m, *c)).collect()
}

fn mods(alt: bool, shift: bool, ctrl: bool) -> Modifiers {
    Modifiers { alt, shift, ctrl }
}

#[test]
fn layouts_by_name() {
    assert!(matches!(KeyboardLayout::from("azerty"), Some(KeyboardLayout::Azerty(_))));
    assert!(matches!(KeyboardLayout::from("dvorak"), Some(KeyboardLayout::Dvorak(_))));
    assert!(matches!(KeyboardLayout::from("qwerty"), Some(KeyboardLayout::Qwerty(_))));
    assert!(KeyboardLayout::from("QWERTY").is_none());
    assert!(KeyboardLayout::from("").is_none());
    assert!(KeyboardLayout::from("colemak").is_none());
}

#[test]
fn modifiers_follow_their_keys() {
    let mut m = Modifiers::new();
    assert_eq!(m, mods(false, false, false));
    m.update(Key::ShiftLeft, true);
    assert_eq!(m, mods(false, true, false));
    m.update(Key::AltLeft, true);
    m.update(Key::ControlLeft, true);
    assert_eq!(m, mods(true, true, true));
    m.update(Key::Other, false);
    m.update(Key::ArrowUp, false);
    assert_eq!(m, mods(true, true, true));
    m.update(Key::ShiftLeft, false);
    assert_eq!(m, mods(true, false, true));
    m.update(Key::AltLeft, false);
    m.update(Key::ControlLeft, false);
    assert_eq!(m, Modifiers::new());
}

#[test]
fn actions_of_decoded_keys() {
    let none = Modifiers::new();
    assert_eq!(key_action(&none, Decoded::Unicode('a')), KeyAction::SendKey('a'));
    assert_eq!(key_action(&none, Decoded::Unicode('\t')), KeyAction::SendKey('\t'));
    assert_eq!(
        key_action(&mods(false, true, false), Decoded::Unicode('\t')),
        KeyAction::SendCsi('Z')
    );
    assert_eq!(
        key_action(&mods(false, true, false), Decoded::Unicode('A')),
        KeyAction::SendKey('A')
    );
    assert_eq!(key_action(&none, Decoded::Unicode('\x7f')), KeyAction::SendKey('\x7f'));
    assert_eq!(
        key_action(&mods(true, false, false), Decoded::Unicode('\x7f')),
        KeyAction::SendKey('\x7f')
    );
    assert_eq!(
        key_action(&mods(false, false, true), Decoded::Unicode('\x7f')),
        KeyAction::SendKey('\x7f')
    );
    assert_eq!(key_action(&mods(true, false, true), Decoded::Unicode('\x7f')), KeyAction::Reboot);
    assert_eq!(
        key_action(&mods(true, true, true), Decoded::Unicode('\t')),
        KeyAction::SendCsi('Z')
    );
    assert_eq!(key_action(&none, Decoded::RawKey(Key::ArrowUp)), KeyAction::SendCsi('A'));
    assert_eq!(key_action(&none, Decoded::RawKey(Key::ArrowDown)), KeyAction::SendCsi('B'));
    assert_eq!(key_action(&none, Decoded::RawKey(Key::ArrowRight)), KeyAction::SendCsi('C'));
    assert_eq!(key_action(&none, Decoded::RawKey(Key::ArrowLeft)), KeyAction::SendCsi('D'));
    assert_eq!(key_action(&none, Decoded::RawKey(Key::Other)), KeyAction::Ignore);
    assert_eq!(key_action(&none, Decoded::RawKey(Key::ShiftLeft)), KeyAction::Ignore);
}

#[test]
fn scancodes_become_keys() {
    let mut k = KeyboardLayout::from("qwerty").unwrap();
    let mut m = Modifiers::new();
    assert_eq!(
        feed(&mut k, &mut m, &[0x1E, 0x9E]),
        vec![KeyAction::SendKey('a'), KeyAction::Ignore]
    );
    assert_eq!(
        feed(&mut k, &mut m, &[0x2A, 0x1E, 0x9E, 0xAA]),
        vec![KeyAction::Ignore, KeyAction::SendKey('A'), KeyAction::Ignore, KeyAction::Ignore]
    );
    assert_eq!(m, Modifiers::new());
    assert_eq!(feed(&mut k, &mut m, &[0x1C]), vec![KeyAction::SendKey('\n')]);
    assert_eq!(feed(&mut k, &mut m, &[0x0E]), vec![KeyAction::SendKey('\x08')]);
}

#[test]
fn layouts_differ() {
    let mut m = Modifiers::new();
    let mut azerty = KeyboardLayout::from("azerty").unwrap();
    assert_eq!(feed(&mut azerty, &mut m, &[0x10]), vec![KeyAction::SendKey('a')]);
    let mut qwerty = KeyboardLayout::from("qwerty").unwrap();
    assert_eq!(feed(&mut qwerty, &mut m, &[0x10]), vec![KeyAction::SendKey('q')]);
    let mut dvorak = KeyboardLayout::from("dvorak").unwrap();
    assert_eq!(feed(&mut dvorak, &mut m, &[0x10]), vec![KeyAction::SendKey('\'')]);
}

#[test]
fn arrows_send_sequences() {
    let mut k = KeyboardLayout::from("qwerty").unwrap();
    let mut m = Modifiers::new();
    assert_eq!(
        feed(&mut k, &mut m, &[0xE0, 0x48]),
        vec![KeyAction::Ignore, KeyAction::SendCsi('A')]
    );
    assert_eq!(
        feed(&mut k, &mut m, &[0xE0, 0x50]),
        vec![KeyAction::Ignore, KeyAction::SendCsi('B')]
    );
    assert_eq!(
        feed(&mut k, &mut m, &[0xE0, 0x4D]),
        vec![KeyAction::Ignore, KeyAction::SendCsi('C')]
    );
    assert_eq!(
        feed(&mut k, &mut m, &[0xE0, 0x4B]),
        vec![KeyAction::Ignore, KeyAction::SendCsi('D')]
    );
}

#[test]
fn shift_tab_and_control_alt_delete() {
    let mut k = KeyboardLayout::from("qwerty").unwrap();
    let mut m = Modifiers::new();
    assert_eq!(feed(&mut k, &mut m, &[0x0F, 0x8F])[0], KeyAction::SendKey('\t'));
    assert_eq!(feed(&mut k, &mut m, &[0x2A, 0x0F])[1], KeyAction::SendCsi('Z'));
    assert!(m.shift);
    feed(&mut k, &mut m, &[0x8F, 0xAA]);
    assert!(!m.shift);
    assert_eq!(feed(&mut k, &mut m, &[0xE0, 0x53])[1], KeyAction::SendKey('\x7f'));
    feed(&mut k, &mut m, &[0xE0, 0xD3]);
    assert_eq!(feed(&mut k, &mut m, &[0x1D, 0xE0, 0x53])[2], KeyAction::SendKey('\x7f'));
    assert!(m.ctrl);
    feed(&mut k, &mut m, &[0xE0, 0xD3]);
    assert_eq!(feed(&mut k, &mut m, &[0x38, 0xE0, 0x53])[2], KeyAction::Reboot);
    assert_eq!(m, mods(true, false, true));
    feed(&mut k, &mut m, &[0xE0, 0xD3, 0x9D]);
    assert_eq!(m, mods(true, false, false));
    assert_eq!(feed(&mut k, &mut m, &[0xE0, 0x53])[1], KeyAction::SendKey('\x7f'));
    feed(&mut k, &mut m, &[0xE0, 0xD3, 0xB8]);
    assert_eq!(m, Modifiers::new());
}

#[test]
fn control_and_letter_give_control_characters() {
    let mut k = KeyboardLayout::from("qwerty").unwrap();
    let mut m = Modifiers::new();
    assert_eq!(feed(&mut k, &mut m, &[0x1D, 0x2E])[1], KeyAction::SendKey('\x03'));
    assert_eq!(feed(&mut k, &mut m, &[0xAE, 0x20])[1], KeyAction::SendKey('\x04'));
}

#[test]
fn keys_are_delivered_to_the_console() {
    let mut c = Console::new(false, true);
    send_key(&mut c, 'h');
    send_key(&mut c, 'i');
    assert_eq!(c.input, vec!['h', 'i']);
    send_csi(&mut c, 'A');
    assert_eq!(c.input, vec!['h', 'i', '\x1b', '[', 'A']);
    assert_eq!(c.serial.take_output(), b"hi^[[A".to_vec());
    let mut d = Console::new(false, false);
    assert!(!deliver(&mut d, KeyAction::SendKey('x')));
    assert!(!deliver(&mut d, KeyAction::Ignore));
    assert!(deliver(&mut d, KeyAction::Reboot));
    assert!(!deliver(&mut d, KeyAction::SendCsi('Z')));
    assert_eq!(d.input, vec!['x', '\x1b', '[', 'Z']);
}

#[test]
fn key_events_update_modifiers_before_they_act() {
    let mut m = Modifiers::new();
    assert_eq!(key_event(&mut m, Key::ShiftLeft, true, None), KeyAction::Ignore);
    assert_eq!(m, mods(false, true, false));
    assert_eq!(
        key_event(&mut m, Key::Other, true, Some(Decoded::Unicode('\t'))),
        KeyAction::SendCsi('Z')
    );
    assert_eq!(
        key_event(&mut m, Key::ShiftLeft, false, Some(Decoded::Unicode('\t'))),
        KeyAction::SendKey('\t')
    );
    assert_eq!(m, Modifiers::new());
    assert_eq!(key_event(&mut m, Key::ControlLeft, true, None), KeyAction::Ignore);
    assert_eq!(
        key_event(&mut m, Key::AltLeft, true, Some(Decoded::Unicode('\x7f'))),
        KeyAction::Reboot
    );
    assert_eq!(m, mods(true, false, true));
    assert_eq!(
        key_event(&mut m, Key::AltLeft, false, Some(Decoded::Unicode('\x7f'))),
        KeyAction::SendKey('\x7f')
    );
    assert_eq!(
        key_event(&mut m, Key::ArrowLeft, true, Some(Decoded::RawKey(Key::ArrowLeft))),
        KeyAction::SendCsi('D')
    );
    assert_eq!(
        key_event(&mut m, Key::ArrowLeft, false, Some(Decoded::RawKey(Key::Other))),
        KeyAction::Ignore
    );
    assert_eq!(m, mods(false, false, true));
}

#[test]
fn left_and_right_modifier_keys_count_as_one() {
    let mut m = Modifiers::new();
    m.update(Key::ShiftRight, true);
    assert_eq!(m, mods(false, true, false));
    m.update(Key::ShiftLeft, false);
    assert_eq!(m, Modifiers::new());
    m.update(Key::AltRight, true);
    m.update(Key::ControlRight, true);
    assert_eq!(m, mods(true, false, true));
    m.update(Key::AltLeft, false);
    m.update(Key::ControlLeft, false);
    assert_eq!(m, Modifiers::new());
    let mut k = KeyboardLayout::from("qwerty").unwrap();
    assert_eq!(feed(&mut k, &mut m, &[0x36, 0x0F])[1], KeyAction::SendCsi('Z'));
    assert!(m.shift);
    feed(&mut k, &mut m, &[0x8F, 0xB6]);
    assert!(!m.shift);
    feed(&mut k, &mut m, &[0xE0, 0x1D, 0xE0, 0x38]);
    assert_eq!(m, mods(true, false, true));
    assert_eq!(feed(&mut k, &mut m, &[0xE0, 0x53])[1], KeyAction::Reboot);
}
