//! The PS/2 keyboard: scancodes are decoded by the `pc_keyboard` crate for
//! the chosen layout; this module tracks the modifier keys and decides what
//! each decoded key does.

use crate::console::{handle_key_inp, str_eq, Console, ConsoleModel};
use pc_keyboard::layouts::{Azerty, Dvorak104Key, Us104Key};
use pc_keyboard::{DecodedKey, HandleControl, KeyCode, KeyEvent, KeyState, Keyboard, ScancodeSet1};
use vstd::prelude::*;

verus! {

/// A `pc_keyboard::Keyboard` for the AZERTY layout and scancode set 1.
#[verifier::external_body]
pub struct AzertyKeyboard {
    keyboard: Keyboard<Azerty, ScancodeSet1>,
}

/// A `pc_keyboard::Keyboard` for the Dvorak layout and scancode set 1.
#[verifier::external_body]
pub struct DvorakKeyboard {
    keyboard: Keyboard<Dvorak104Key, ScancodeSet1>,
}

/// A `pc_keyboard::Keyboard` for the US layout and scancode set 1.
#[verifier::external_body]
pub struct QwertyKeyboard {
    keyboard: Keyboard<Us104Key, ScancodeSet1>,
}

#[verifier::external_type_specification]
#[verifier::external_body]
pub struct ExKeyCode(KeyCode);

#[verifier::external_type_specification]
#[verifier::external_body]
pub struct ExKeyEvent(KeyEvent);

#[verifier::external_type_specification]
#[verifier::external_body]
pub struct ExDecodedKey(DecodedKey);

#[verifier::external_type_specification]
#[verifier::external_body]
pub struct ExError(pc_keyboard::Error);

#[verifier::external_type_specification]
#[verifier::external_body]
pub struct ExHandleControl(HandleControl);

/// What Ctrl does to a letter.
#[derive(Debug, Clone, Copy, PartialEq, Eq, Structural)]
pub enum ControlMapping {
    /// Ctrl and a letter give the letter's control character.
    MapLettersToUnicode,
    /// Ctrl changes nothing of a letter.
    Ignore,
}

/// A keyboard with one of the three layouts that the kernel knows.
pub enum KeyboardLayout {
    Azerty(AzertyKeyboard),
    Dvorak(DvorakKeyboard),
    Qwerty(QwertyKeyboard),
}

/// The decoder's setting for what Ctrl does to a letter.
pub uninterp spec fn control_for(mapping: ControlMapping) -> HandleControl;

/// A new AZERTY keyboard with the given setting, no key held down.
pub uninterp spec fn azerty_with(control: HandleControl) -> AzertyKeyboard;

/// A new Dvorak keyboard with the given setting, no key held down.
pub uninterp spec fn dvorak_with(control: HandleControl) -> DvorakKeyboard;

/// A new US keyboard with the given setting, no key held down.
pub uninterp spec fn qwerty_with(control: HandleControl) -> QwertyKeyboard;

/// A [`ControlMapping`] as a `pc_keyboard::HandleControl`.
#[verifier::external_body]
fn handle_control(mapping: ControlMapping) -> (control: HandleControl)
    ensures
        control == control_for(mapping),
{
    match mapping {
        ControlMapping::MapLettersToUnicode => HandleControl::MapLettersToUnicode,
        ControlMapping::Ignore => HandleControl::Ignore,
    }
}

/// `pc_keyboard::Keyboard::new` for the AZERTY layout and scancode set 1.
#[verifier::external_body]
fn new_azerty(control: HandleControl) -> (keyboard: AzertyKeyboard)
    ensures
        keyboard == azerty_with(control),
{
    AzertyKeyboard { keyboard: Keyboard::new(control) }
}

/// `pc_keyboard::Keyboard::new` for the Dvorak layout and scancode set 1.
#[verifier::external_body]
fn new_dvorak(control: HandleControl) -> (keyboard: DvorakKeyboard)
    ensures
        keyboard == dvorak_with(control),
{
    DvorakKeyboard { keyboard: Keyboard::new(control) }
}

/// `pc_keyboard::Keyboard::new` for the US layout and scancode set 1.
#[verifier::external_body]
fn new_qwerty(control: HandleControl) -> (keyboard: QwertyKeyboard)
    ensures
        keyboard == qwerty_with(control),
{
    QwertyKeyboard { keyboard: Keyboard::new(control) }
}

/// The new keyboard for a layout's name, if the name is known: on every
/// layout Ctrl and a letter give the letter's control character.
pub open spec fn layout_named(layout: Seq<char>) -> Option<KeyboardLayout> {
    if layout == "azerty"@ {
        Some(
            KeyboardLayout::Azerty(
                azerty_with(control_for(ControlMapping::MapLettersToUnicode)),
            ),
        )
    } else if layout == "dvorak"@ {
        Some(
            KeyboardLayout::Dvorak(
                dvorak_with(control_for(ControlMapping::MapLettersToUnicode)),
            ),
        )
    } else if layout == "qwerty"@ {
        Some(
            KeyboardLayout::Qwerty(
                qwerty_with(control_for(ControlMapping::MapLettersToUnicode)),
            ),
        )
    } else {
        None
    }
}

/// What the decoder returns when it takes `scancode`: a key event once a
/// scancode is complete, nothing while it is not, or the decoder's error.
pub uninterp spec fn byte_added(keyboard: KeyboardLayout, scancode: u8) -> Result<
    Option<KeyEvent>,
    pc_keyboard::Error,
>;

/// The decoder after it has taken `scancode`.
pub uninterp spec fn after_byte(keyboard: KeyboardLayout, scancode: u8) -> KeyboardLayout;

/// The key that the decoder makes of a key event, if it makes one of it.
pub uninterp spec fn event_processed(keyboard: KeyboardLayout, event: KeyEvent) -> Option<
    DecodedKey,
>;

/// The decoder after it has processed a key event.
pub uninterp spec fn after_event(keyboard: KeyboardLayout, event: KeyEvent) -> KeyboardLayout;

/// The key code of a key event.
pub uninterp spec fn code_in(event: KeyEvent) -> KeyCode;

/// Whether the state of a key event is "down".
pub uninterp spec fn down_in(event: KeyEvent) -> bool;

/// The key that a key code stands for.
pub uninterp spec fn key_for(code: KeyCode) -> Key;

/// What a decoded key holds: a character, or the code of a key that gives
/// none.
pub uninterp spec fn parts_in(key: DecodedKey) -> Result<char, KeyCode>;

impl KeyboardLayout {
    /// `pc_keyboard::Keyboard::add_byte`: feeds one scancode byte to the
    /// decoder. A key event comes back once a scancode is complete. What
    /// comes back, and the decoder afterwards, depend on nothing but the
    /// decoder before and the byte.
    #[verifier::external_body]
    pub fn add_byte(&mut self, scancode: u8) -> (r: Result<Option<KeyEvent>, pc_keyboard::Error>)
        ensures
            r == byte_added(*old(self), scancode),
            *final(self) == after_byte(*old(self), scancode),
    {
        match self {
            KeyboardLayout::Azerty(k) => k.keyboard.add_byte(scancode),
            KeyboardLayout::Dvorak(k) => k.keyboard.add_byte(scancode),
            KeyboardLayout::Qwerty(k) => k.keyboard.add_byte(scancode),
        }
    }

    /// `pc_keyboard::Keyboard::process_keyevent`: turns a key event into a
    /// decoded key by the layout and the modifier keys seen so far, if the
    /// event gives one. The key, and the decoder afterwards, depend on
    /// nothing but the decoder before and the event.
    #[verifier::external_body]
    pub fn process_keyevent(&mut self, key_event: KeyEvent) -> (r: Option<DecodedKey>)
        ensures
            r == event_processed(*old(self), key_event),
            *final(self) == after_event(*old(self), key_event),
    {
        match self {
            KeyboardLayout::Azerty(k) => k.keyboard.process_keyevent(key_event),
            KeyboardLayout::Dvorak(k) => k.keyboard.process_keyevent(key_event),
            KeyboardLayout::Qwerty(k) => k.keyboard.process_keyevent(key_event),
        }
    }

    /// The keyboard for the layout called `"azerty"`, `"dvorak"` or
    /// `"qwerty"`; no other name is known. On every layout Ctrl and a
    /// letter give the letter's control character.
    pub fn from(layout: &str) -> (k: Option<KeyboardLayout>)
        ensures
            k == layout_named(layout@),
    {
        let control = handle_control(ControlMapping::MapLettersToUnicode);
        if str_eq(layout, "azerty") {
            Some(KeyboardLayout::Azerty(new_azerty(control)))
        } else if str_eq(layout, "dvorak") {
            Some(KeyboardLayout::Dvorak(new_dvorak(control)))
        } else if str_eq(layout, "qwerty") {
            Some(KeyboardLayout::Qwerty(new_qwerty(control)))
        } else {
            None
        }
    }
}

/// The keys that the kernel tells apart.
#[derive(Debug, Clone, Copy, PartialEq, Eq, Structural)]
pub enum Key {
    AltLeft,
    AltRight,
    ShiftLeft,
    ShiftRight,
    ControlLeft,
    ControlRight,
    ArrowUp,
    ArrowDown,
    ArrowRight,
    ArrowLeft,
    Other,
}

/// A decoded key: a character, or a key that gives none.
#[derive(Debug, Clone, Copy, PartialEq, Eq, Structural)]
pub enum Decoded {
    Unicode(char),
    RawKey(Key),
}

/// Which modifier keys are held down.
#[derive(Debug, Clone, Copy, PartialEq, Eq, Structural)]
pub struct Modifiers {
    pub alt: bool,
    pub shift: bool,
    pub ctrl: bool,
}

/// What a key does.
#[derive(Debug, Clone, Copy, PartialEq, Eq, Structural)]
pub enum KeyAction {
    /// Deliver the character to the console.
    SendKey(char),
    /// Deliver the CSI sequence with this final character to the console.
    SendCsi(char),
    /// Reboot the machine.
    Reboot,
    /// Nothing.
    Ignore,
}

/// A `pc_keyboard::KeyCode` as one of the keys that the kernel tells
/// apart; every code that it does not tell apart is `Key::Other`.
#[verifier::external_body]
fn key_of(code: KeyCode) -> (key: Key)
    ensures
        key == key_for(code),
{
    match code {
        KeyCode::AltLeft => Key::AltLeft,
        KeyCode::AltRight => Key::AltRight,
        KeyCode::ShiftLeft => Key::ShiftLeft,
        KeyCode::ShiftRight => Key::ShiftRight,
        KeyCode::ControlLeft => Key::ControlLeft,
        KeyCode::ControlRight => Key::ControlRight,
        KeyCode::ArrowUp => Key::ArrowUp,
        KeyCode::ArrowDown => Key::ArrowDown,
        KeyCode::ArrowRight => Key::ArrowRight,
        KeyCode::ArrowLeft => Key::ArrowLeft,
        _ => Key::Other,
    }
}

/// The `code` field of a `pc_keyboard::KeyEvent`.
#[verifier::external_body]
fn event_code(event: &KeyEvent) -> (code: KeyCode)
    ensures
        code == code_in(*event),
{
    event.code
}

/// Whether the `state` field of a `pc_keyboard::KeyEvent` is
/// `KeyState::Down`.
#[verifier::external_body]
fn event_is_down(event: &KeyEvent) -> (down: bool)
    ensures
        down == down_in(*event),
{
    match event.state {
        KeyState::Down => true,
        KeyState::Up => false,
        KeyState::SingleShot => false,
    }
}

/// The content of a `pc_keyboard::DecodedKey`: the character of
/// `DecodedKey::Unicode`, or the key code of `DecodedKey::RawKey`.
#[verifier::external_body]
fn decoded_parts(key: DecodedKey) -> (parts: Result<char, KeyCode>)
    ensures
        parts == parts_in(key),
{
    match key {
        DecodedKey::Unicode(c) => Ok(c),
        DecodedKey::RawKey(code) => Err(code),
    }
}

impl Modifiers {
    /// No modifier key held down.
    pub fn new() -> (m: Modifiers)
        ensures
            m == (Modifiers { alt: false, shift: false, ctrl: false }),
    {
        Modifiers { alt: false, shift: false, ctrl: false }
    }

    /// The modifiers after `key` has gone down or up: a modifier counts as
    /// held exactly while the left or the right key of that name was the
    /// last of the two to move and went down, and no other key changes
    /// anything.
    pub open spec fn after(self, key: Key, down: bool) -> Modifiers {
        match key {
            Key::AltLeft => Modifiers { alt: down, ..self },
            Key::AltRight => Modifiers { alt: down, ..self },
            Key::ShiftLeft => Modifiers { shift: down, ..self },
            Key::ShiftRight => Modifiers { shift: down, ..self },
            Key::ControlLeft => Modifiers { ctrl: down, ..self },
            Key::ControlRight => Modifiers { ctrl: down, ..self },
            _ => self,
        }
    }

    /// Takes note of `key` going down or up.
    pub fn update(&mut self, key: Key, down: bool)
        ensures
            *final(self) == old(self).after(key, down),
    {
        match key {
            Key::AltLeft | Key::AltRight => {
                self.alt = down;
            },
            Key::ShiftLeft | Key::ShiftRight => {
                self.shift = down;
            },
            Key::ControlLeft | Key::ControlRight => {
                self.ctrl = down;
            },
            _ => {},
        }
    }
}

/// What a decoded key does under the given modifiers: Shift and Tab send
/// `CSI Z`, Ctrl, Alt and Delete reboot, any other character is delivered,
/// the arrow keys send `CSI A`, `B`, `C` and `D` for up, down, right and
/// left, and no other key does anything.
pub open spec fn action_of(modifiers: Modifiers, key: Decoded) -> KeyAction {
    match key {
        Decoded::Unicode(c) => if c == '\t' && modifiers.shift {
            KeyAction::SendCsi('Z')
        } else if c == '\x7f' && modifiers.ctrl && modifiers.alt {
            KeyAction::Reboot
        } else {
            KeyAction::SendKey(c)
        },
        Decoded::RawKey(Key::ArrowUp) => KeyAction::SendCsi('A'),
        Decoded::RawKey(Key::ArrowDown) => KeyAction::SendCsi('B'),
        Decoded::RawKey(Key::ArrowRight) => KeyAction::SendCsi('C'),
        Decoded::RawKey(Key::ArrowLeft) => KeyAction::SendCsi('D'),
        Decoded::RawKey(_) => KeyAction::Ignore,
    }
}

/// What a decoded key does under the given modifiers.
pub fn key_action(modifiers: &Modifiers, key: Decoded) -> (a: KeyAction)
    ensures
        a == action_of(*modifiers, key),
{
    match key {
        Decoded::Unicode(c) => {
            if c == '\t' && modifiers.shift {
                KeyAction::SendCsi('Z')
            } else if c == '\x7f' && modifiers.ctrl && modifiers.alt {
                KeyAction::Reboot
            } else {
                KeyAction::SendKey(c)
            }
        },
        Decoded::RawKey(Key::ArrowUp) => KeyAction::SendCsi('A'),
        Decoded::RawKey(Key::ArrowDown) => KeyAction::SendCsi('B'),
        Decoded::RawKey(Key::ArrowRight) => KeyAction::SendCsi('C'),
        Decoded::RawKey(Key::ArrowLeft) => KeyAction::SendCsi('D'),
        Decoded::RawKey(_) => KeyAction::Ignore,
    }
}

/// What a key event does: the modifiers take note of the key going down or
/// up, and the key that the event decodes to, if it decodes to one, gives
/// its action under the modifiers as they then are.
pub open spec fn key_event_effect(
    modifiers: Modifiers,
    key: Key,
    down: bool,
    decoded: Option<Decoded>,
) -> (Modifiers, KeyAction) {
    (
        modifiers.after(key, down),
        match decoded {
            Some(d) => action_of(modifiers.after(key, down), d),
            None => KeyAction::Ignore,
        },
    )
}

/// Carries out a key event: `key` has gone down or up, and `decoded` is
/// what the event decodes to.
pub fn key_event(modifiers: &mut Modifiers, key: Key, down: bool, decoded: Option<Decoded>) -> (a:
    KeyAction)
    ensures
        (*final(modifiers), a) == key_event_effect(*old(modifiers), key, down, decoded),
{
    modifiers.update(key, down);
    match decoded {
        Some(d) => key_action(modifiers, d),
        None => KeyAction::Ignore,
    }
}

/// A decoded key as the kernel tells keys apart.
pub open spec fn decoded_of(parts: Result<char, KeyCode>) -> Decoded {
    match parts {
        Ok(c) => Decoded::Unicode(c),
        Err(code) => Decoded::RawKey(key_for(code)),
    }
}

/// What one scancode byte does: if the decoder completes a key event with
/// it, the event is decoded and carried out as [`key_event_effect`] says;
/// if not, the modifiers stay and nothing is to be done.
pub open spec fn byte_effect(keyboard: KeyboardLayout, modifiers: Modifiers, scancode: u8) -> (
    Modifiers,
    KeyAction,
) {
    match byte_added(keyboard, scancode) {
        Ok(Some(event)) => key_event_effect(
            modifiers,
            key_for(code_in(event)),
            down_in(event),
            match event_processed(after_byte(keyboard, scancode), event) {
                Some(key) => Some(decoded_of(parts_in(key))),
                None => None,
            },
        ),
        _ => (modifiers, KeyAction::Ignore),
    }
}

/// The decoder after one scancode byte: it has taken the byte, and has
/// processed the key event that the byte completed, if it completed one.
pub open spec fn decoder_after(keyboard: KeyboardLayout, scancode: u8) -> KeyboardLayout {
    match byte_added(keyboard, scancode) {
        Ok(Some(event)) => after_event(after_byte(keyboard, scancode), event),
        _ => after_byte(keyboard, scancode),
    }
}

/// Handles one scancode byte from the keyboard: the decoder takes the byte;
/// if that completes a key event, the event is decoded and carried out; if
/// not, nothing happens.
pub fn keyboard_interrupt_handler(
    keyboard: &mut KeyboardLayout,
    modifiers: &mut Modifiers,
    scancode: u8,
) -> (a: KeyAction)
    ensures
        (*final(modifiers), a) == byte_effect(*old(keyboard), *old(modifiers), scancode),
        *final(keyboard) == decoder_after(*old(keyboard), scancode),
{
    let event = match keyboard.add_byte(scancode) {
        Ok(Some(event)) => event,
        _ => {
            return KeyAction::Ignore;
        },
    };
    let key = key_of(event_code(&event));
    let down = event_is_down(&event);
    let decoded = match keyboard.process_keyevent(event) {
        Some(decoded) => match decoded_parts(decoded) {
            Ok(c) => Some(Decoded::Unicode(c)),
            Err(code) => Some(Decoded::RawKey(key_of(code))),
        },
        None => None,
    };
    key_event(modifiers, key, down, decoded)
}

/// Delivers a character from the keyboard to the console, as
/// [`handle_key_inp`] delivers it.
pub fn send_key(console: &mut Console, c: char)
    requires
        old(console).wf(),
    ensures
        final(console).wf(),
        final(console)@ == old(console)@.key(c),
{
    handle_key_inp(console, c);
}

/// Delivers the CSI sequence with final character `c` from the keyboard to
/// the console: escape, an opening bracket, and `c`, one key after the
/// other.
pub fn send_csi(console: &mut Console, c: char)
    requires
        old(console).wf(),
    ensures
        final(console).wf(),
        final(console)@ == old(console)@.key('\x1b').key('[').key(c),
{
    handle_key_inp(console, '\x1b');
    handle_key_inp(console, '[');
    handle_key_inp(console, c);
}

/// The console after what a key does has been carried out on it: a
/// character or a CSI sequence is delivered, and nothing else changes
/// anything.
pub open spec fn delivered(console: ConsoleModel, action: KeyAction) -> ConsoleModel {
    match action {
        KeyAction::SendKey(c) => console.key(c),
        KeyAction::SendCsi(c) => console.key('\x1b').key('[').key(c),
        KeyAction::Reboot => console,
        KeyAction::Ignore => console,
    }
}

/// Carries out what a key does on the console. Returns whether the machine
/// is to be rebooted.
pub fn deliver(console: &mut Console, action: KeyAction) -> (reboot: bool)
    requires
        old(console).wf(),
    ensures
        final(console).wf(),
        reboot == (action is Reboot),
        final(console)@ == delivered(old(console)@, action),
        action is Reboot || action is Ignore ==> *final(console) == *old(console),
{
    match action {
        KeyAction::SendKey(c) => {
            send_key(console, c);
            false
        },
        KeyAction::SendCsi(c) => {
            send_csi(console, c);
            false
        },
        KeyAction::Reboot => true,
        KeyAction::Ignore => false,
    }
}

} // verus!
