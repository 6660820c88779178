//! Host input as the guest understands it: keys and buttons by their codes
//! in the Linux input layer.

use crate::server::InputEvent;
use vstd::prelude::*;

verus! {

/// The code of the left mouse button.
pub const BTN_LEFT: u32 = 0x110;

/// The code of the right mouse button.
pub const BTN_RIGHT: u32 = 0x111;

/// The code of the middle mouse button.
pub const BTN_MIDDLE: u32 = 0x112;

/// The state of a key or button that is up.
pub const STATE_RELEASED: u32 = 0;

/// The state of a key or button that is down.
pub const STATE_PRESSED: u32 = 1;

/// A physical key of the host's keyboard. Keys without a code in the
/// table are all `Other`.
#[derive(Debug, Clone, Copy, PartialEq, Eq, Structural)]
pub enum HostKey {
    Escape,
    Digit1,
    Digit2,
    Digit3,
    Minus,
    Equal,
    Backspace,
    Tab,
    KeyQ,
    KeyW,
    KeyE,
    KeyR,
    KeyT,
    KeyY,
    KeyU,
    KeyI,
    KeyO,
    KeyP,
    BracketLeft,
    BracketRight,
    Enter,
    ControlLeft,
    KeyA,
    KeyS,
    KeyD,
    KeyF,
    KeyG,
    KeyH,
    KeyJ,
    KeyK,
    KeyL,
    Semicolon,
    Quote,
    ShiftLeft,
    Backslash,
    KeyZ,
    KeyX,
    KeyC,
    KeyV,
    KeyB,
    KeyN,
    KeyM,
    Comma,
    Period,
    Slash,
    AltLeft,
    Space,
    ArrowUp,
    ArrowLeft,
    ArrowRight,
    ArrowDown,
    Other,
}

/// A button of the host's mouse.
#[derive(Debug, Clone, Copy, PartialEq, Eq, Structural)]
pub enum HostButton {
    Left,
    Right,
    Middle,
    Other,
}

/// Whether a key or button went down or up.
#[derive(Debug, Clone, Copy, PartialEq, Eq, Structural)]
pub enum HostState {
    Pressed,
    Released,
}

/// The table of key codes.
pub open spec fn keycode_of(key: HostKey) -> Option<u32> {
    match key {
        HostKey::Escape => Some(1),
        HostKey::Digit1 => Some(2),
        HostKey::Digit2 => Some(3),
        HostKey::Digit3 => Some(4),
        HostKey::Minus => Some(12),
        HostKey::Equal => Some(13),
        HostKey::Backspace => Some(14),
        HostKey::Tab => Some(15),
        HostKey::KeyQ => Some(16),
        HostKey::KeyW => Some(17),
        HostKey::KeyE => Some(18),
        HostKey::KeyR => Some(19),
        HostKey::KeyT => Some(20),
        HostKey::KeyY => Some(21),
        HostKey::KeyU => Some(22),
        HostKey::KeyI => Some(23),
        HostKey::KeyO => Some(24),
        HostKey::KeyP => Some(25),
        HostKey::BracketLeft => Some(26),
        HostKey::BracketRight => Some(27),
        HostKey::Enter => Some(28),
        HostKey::ControlLeft => Some(29),
        HostKey::KeyA => Some(30),
        HostKey::KeyS => Some(31),
        HostKey::KeyD => Some(32),
        HostKey::KeyF => Some(33),
        HostKey::KeyG => Some(34),
        HostKey::KeyH => Some(35),
        HostKey::KeyJ => Some(36),
        HostKey::KeyK => Some(37),
        HostKey::KeyL => Some(38),
        HostKey::Semicolon => Some(39),
        HostKey::Quote => Some(40),
        HostKey::ShiftLeft => Some(42),
        HostKey::Backslash => Some(43),
        HostKey::KeyZ => Some(44),
        HostKey::KeyX => Some(45),
        HostKey::KeyC => Some(46),
        HostKey::KeyV => Some(47),
        HostKey::KeyB => Some(48),
        HostKey::KeyN => Some(49),
        HostKey::KeyM => Some(50),
        HostKey::Comma => Some(51),
        HostKey::Period => Some(52),
        HostKey::Slash => Some(53),
        HostKey::AltLeft => Some(56),
        HostKey::Space => Some(57),
        HostKey::ArrowUp => Some(103),
        HostKey::ArrowLeft => Some(105),
        HostKey::ArrowRight => Some(106),
        HostKey::ArrowDown => Some(108),
        HostKey::Other => None,
    }
}

/// The table of button codes.
pub open spec fn button_code_of(button: HostButton) -> Option<u32> {
    match button {
        HostButton::Left => Some(BTN_LEFT),
        HostButton::Right => Some(BTN_RIGHT),
        HostButton::Middle => Some(BTN_MIDDLE),
        HostButton::Other => None,
    }
}

/// The number that stands for a state.
pub open spec fn state_code_of(state: HostState) -> u32 {
    match state {
        HostState::Pressed => STATE_PRESSED,
        HostState::Released => STATE_RELEASED,
    }
}

/// No two keys share a code, and no key has the code 0.
pub proof fn lemma_keycodes_are_distinct(a: HostKey, b: HostKey)
    requires
        a != b,
        keycode_of(a) is Some,
    ensures
        keycode_of(a) != keycode_of(b),
        keycode_of(a) != Some(0u32),
{
}

/// The code of a key, for the keys that have one.
pub fn linux_keycode(key: HostKey) -> (code: Option<u32>)
    ensures
        code == keycode_of(key),
{
    match key {
        HostKey::Escape => Some(1),
        HostKey::Digit1 => Some(2),
        HostKey::Digit2 => Some(3),
        HostKey::Digit3 => Some(4),
        HostKey::Minus => Some(12),
        HostKey::Equal => Some(13),
        HostKey::Backspace => Some(14),
        HostKey::Tab => Some(15),
        HostKey::KeyQ => Some(16),
        HostKey::KeyW => Some(17),
        HostKey::KeyE => Some(18),
        HostKey::KeyR => Some(19),
        HostKey::KeyT => Some(20),
        HostKey::KeyY => Some(21),
        HostKey::KeyU => Some(22),
        HostKey::KeyI => Some(23),
        HostKey::KeyO => Some(24),
        HostKey::KeyP => Some(25),
        HostKey::BracketLeft => Some(26),
        HostKey::BracketRight => Some(27),
        HostKey::Enter => Some(28),
        HostKey::ControlLeft => Some(29),
        HostKey::KeyA => Some(30),
        HostKey::KeyS => Some(31),
        HostKey::KeyD => Some(32),
        HostKey::KeyF => Some(33),
        HostKey::KeyG => Some(34),
        HostKey::KeyH => Some(35),
        HostKey::KeyJ => Some(36),
        HostKey::KeyK => Some(37),
        HostKey::KeyL => Some(38),
        HostKey::Semicolon => Some(39),
        HostKey::Quote => Some(40),
        HostKey::ShiftLeft => Some(42),
        HostKey::Backslash => Some(43),
        HostKey::KeyZ => Some(44),
        HostKey::KeyX => Some(45),
        HostKey::KeyC => Some(46),
        HostKey::KeyV => Some(47),
        HostKey::KeyB => Some(48),
        HostKey::KeyN => Some(49),
        HostKey::KeyM => Some(50),
        HostKey::Comma => Some(51),
        HostKey::Period => Some(52),
        HostKey::Slash => Some(53),
        HostKey::AltLeft => Some(56),
        HostKey::Space => Some(57),
        HostKey::ArrowUp => Some(103),
        HostKey::ArrowLeft => Some(105),
        HostKey::ArrowRight => Some(106),
        HostKey::ArrowDown => Some(108),
        HostKey::Other => None,
    }
}

/// The code of a mouse button, for the buttons that have one.
pub fn linux_button(button: HostButton) -> (code: Option<u32>)
    ensures
        code == button_code_of(button),
{
    match button {
        HostButton::Left => Some(BTN_LEFT),
        HostButton::Right => Some(BTN_RIGHT),
        HostButton::Middle => Some(BTN_MIDDLE),
        HostButton::Other => None,
    }
}

/// The number that stands for a state.
pub fn state_code(state: HostState) -> (code: u32)
    ensures
        code == state_code_of(state),
{
    match state {
        HostState::Pressed => STATE_PRESSED,
        HostState::Released => STATE_RELEASED,
    }
}

/// The input event for a key going down or up; none for a key without a
/// code.
pub fn key_input(key: HostKey, state: HostState) -> (event: Option<InputEvent>)
    ensures
        event == match keycode_of(key) {
            Some(code) => Some(InputEvent::Key { state: state_code_of(state), code }),
            None => None,
        },
{
    match linux_keycode(key) {
        Some(code) => Some(InputEvent::Key { state: state_code(state), code }),
        None => None,
    }
}

/// The input event for a button going down or up; none for a button
/// without a code.
pub fn button_input(button: HostButton, state: HostState) -> (event: Option<InputEvent>)
    ensures
        event == match button_code_of(button) {
            Some(code) => Some(InputEvent::Button { state: state_code_of(state), button: code }),
            None => None,
        },
{
    match linux_button(button) {
        Some(code) => Some(InputEvent::Button { state: state_code(state), button: code }),
        None => None,
    }
}

} // verus!
