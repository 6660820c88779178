use win_way::protocol::{Decoder, Encoder, Message, MessageType, WindowAction};

#[test]
fn test_decoder_raw_passthrough() {
    let mut decoder = Decoder::new();
    decoder.push(b"hello world");

    let msg = decoder.decode();
    assert!(msg.is_some());

    if let Some(Message { msg_type: MessageType::Raw(data) }) = msg {
        assert_eq!(data, b"hello world");
    } else {
        panic!("Expected Raw message");
    }
}

#[test]
fn decoder_without_bytes_has_no_message() {
    let mut decoder = Decoder::new();
    assert_eq!(decoder.decode(), None);
    decoder.push(&[]);
    assert_eq!(decoder.decode(), None);
}

#[test]
fn decoder_hands_out_all_it_has_at_once() {
    let mut decoder = Decoder::new();
    decoder.push(b"ab");
    decoder.push(b"cd");
    assert_eq!(decoder.decode(), Some(Message { msg_type: MessageType::Raw(b"abcd".to_vec()) }));
    assert_eq!(decoder.decode(), None);
}

#[test]
fn decoder_clear_drops_the_bytes() {
    let mut decoder = Decoder::new();
    decoder.push(b"abc");
    decoder.clear();
    assert_eq!(decoder.decode(), None);
}

#[test]
fn encoder_passes_raw_bytes_through() {
    let encoder = Encoder::new();
    let raw = Message { msg_type: MessageType::Raw(vec![1, 2, 3]) };
    assert_eq!(encoder.encode(&raw), vec![1, 2, 3]);
}

#[test]
fn encoder_has_no_bytes_for_other_messages() {
    let encoder = Encoder::new();
    let others = vec![
        MessageType::Hello,
        MessageType::Buffer { width: 1, height: 1, data: vec![1, 2, 3, 4] },
        MessageType::Input { event_type: 1, data: vec![5] },
        MessageType::Window { action: WindowAction::Create { id: 1, width: 2, height: 3 } },
        MessageType::Window { action: WindowAction::Move { id: 1, x: -2, y: 3 } },
    ];
    for msg_type in others {
        assert_eq!(encoder.encode(&Message { msg_type }), Vec::<u8>::new());
    }
}
