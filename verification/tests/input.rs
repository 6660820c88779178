use win_way::input::{
    button_input, key_input, linux_button, linux_keycode, state_code, HostButton, HostKey,
    HostState, BTN_LEFT, BTN_MIDDLE, BTN_RIGHT,
};
use win_way::server::{encode_input, InputEvent};

#[test]
fn keys_have_their_linux_codes() {
    let table = [
        (HostKey::Escape, 1),
        (HostKey::Digit1, 2),
        (HostKey::Digit2, 3),
        (HostKey::Digit3, 4),
        (HostKey::Minus, 12),
        (HostKey::Equal, 13),
        (HostKey::Backspace, 14),
        (HostKey::Tab, 15),
        (HostKey::KeyQ, 16),
        (HostKey::KeyW, 17),
        (HostKey::KeyE, 18),
        (HostKey::KeyR, 19),
        (HostKey::KeyT, 20),
        (HostKey::KeyY, 21),
        (HostKey::KeyU, 22),
        (HostKey::KeyI, 23),
        (HostKey::KeyO, 24),
        (HostKey::KeyP, 25),
        (HostKey::BracketLeft, 26),
        (HostKey::BracketRight, 27),
        (HostKey::Enter, 28),
        (HostKey::ControlLeft, 29),
        (HostKey::KeyA, 30),
        (HostKey::KeyS, 31),
        (HostKey::KeyD, 32),
        (HostKey::KeyF, 33),
        (HostKey::KeyG, 34),
        (HostKey::KeyH, 35),
        (HostKey::KeyJ, 36),
        (HostKey::KeyK, 37),
        (HostKey::KeyL, 38),
        (HostKey::Semicolon, 39),
        (HostKey::Quote, 40),
        (HostKey::ShiftLeft, 42),
        (HostKey::Backslash, 43),
        (HostKey::KeyZ, 44),
        (HostKey::KeyX, 45),
        (HostKey::KeyC, 46),
        (HostKey::KeyV, 47),
        (HostKey::KeyB, 48),
        (HostKey::KeyN, 49),
        (HostKey::KeyM, 50),
        (HostKey::Comma, 51),
        (HostKey::Period, 52),
        (HostKey::Slash, 53),
        (HostKey::AltLeft, 56),
        (HostKey::Space, 57),
        (HostKey::ArrowUp, 103),
        (HostKey::ArrowLeft, 105),
        (HostKey::ArrowRight, 106),
        (HostKey::ArrowDown, 108),
    ];
    for (key, code) in table {
        assert_eq!(linux_keycode(key), Some(code), "{:?}", key);
    }
    for (i, (_, a)) in table.iter().enumerate() {
        for (_, b) in table.iter().skip(i + 1) {
            assert_ne!(a, b);
        }
    }
}

#[test]
fn unmapped_key_gives_no_event() {
    assert_eq!(linux_keycode(HostKey::Other), None);
    assert_eq!(key_input(HostKey::Other, HostState::Pressed), None);
}

#[test]
fn buttons_have_their_linux_codes() {
    assert_eq!(linux_button(HostButton::Left), Some(0x110));
    assert_eq!(linux_button(HostButton::Right), Some(0x111));
    assert_eq!(linux_button(HostButton::Middle), Some(0x112));
    assert_eq!(linux_button(HostButton::Other), None);
    assert_eq!((BTN_LEFT, BTN_RIGHT, BTN_MIDDLE), (0x110, 0x111, 0x112));
}

#[test]
fn pressed_is_one_and_released_is_zero() {
    assert_eq!(state_code(HostState::Pressed), 1);
    assert_eq!(state_code(HostState::Released), 0);
}

#[test]
fn key_events_carry_state_and_code() {
    assert_eq!(
        key_input(HostKey::KeyA, HostState::Pressed),
        Some(InputEvent::Key { state: 1, code: 30 })
    );
    assert_eq!(
        key_input(HostKey::Enter, HostState::Released),
        Some(InputEvent::Key { state: 0, code: 28 })
    );
}

#[test]
fn button_events_carry_state_and_code() {
    assert_eq!(
        button_input(HostButton::Right, HostState::Pressed),
        Some(InputEvent::Button { state: 1, button: 0x111 })
    );
    assert_eq!(button_input(HostButton::Other, HostState::Released), None);
}

#[test]
fn key_a_down_reaches_the_wire() {
    let event = key_input(HostKey::KeyA, HostState::Pressed).unwrap();
    assert_eq!(
        encode_input(event),
        vec![0x49, 0x4E, 0x50, 0x54, 1, 0, 0, 0, 1, 0, 0, 0, 0x1E, 0, 0, 0, 0, 0, 0, 0]
    );
}
