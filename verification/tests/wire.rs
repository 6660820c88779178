use bytes::BytesMut;
use win_way::wayland::wire::{
    read_arg, read_args, read_array, read_int, read_string, read_uint, word_at, ArgKind, Argument,
    Message, MessageDecoder, HEADER_SIZE,
};
use win_way::WinWayError;

fn payload(bytes: &[u8]) -> BytesMut {
    BytesMut::from(bytes)
}

fn size_field(frame: &[u8]) -> usize {
    (frame[6] as usize) | ((frame[7] as usize) << 8)
}

#[test]
fn builder_collects_arguments_in_order() {
    let message = Message::new(7, 3)
        .uint(1)
        .int_arg(-2)
        .string("x")
        .object(4)
        .new_id(5)
        .arg(Argument::Fixed(256))
        .arg(Argument::Array(vec![9]))
        .arg(Argument::Fd);
    assert_eq!(message.object_id, 7);
    assert_eq!(message.opcode, 3);
    assert_eq!(
        message.args,
        vec![
            Argument::Uint(1),
            Argument::Int(-2),
            Argument::String("x".to_string()),
            Argument::Object(4),
            Argument::NewId(5),
            Argument::Fixed(256),
            Argument::Array(vec![9]),
            Argument::Fd,
        ]
    );
}

#[test]
fn empty_message_is_a_bare_header() {
    let frame = Message::new(0x11223344, 0x0506).encode();
    assert_eq!(&frame[..], &[0x44, 0x33, 0x22, 0x11, 0x06, 0x05, 0x08, 0x00]);
}

#[test]
fn uint_argument_is_four_bytes_low_first() {
    let frame = Message::new(1, 0).uint(0x0809A0A1).encode();
    assert_eq!(&frame[..], &[1, 0, 0, 0, 0, 0, 12, 0, 0xA1, 0xA0, 0x09, 0x08]);
}

#[test]
fn negative_int_is_twos_complement() {
    let frame = Message::new(1, 0).int_arg(-1).int_arg(-2147483648).encode();
    assert_eq!(&frame[8..], &[0xFF, 0xFF, 0xFF, 0xFF, 0x00, 0x00, 0x00, 0x80]);
}

#[test]
fn fixed_is_written_as_its_bits() {
    let frame = Message::new(1, 0).arg(Argument::Fixed(256)).arg(Argument::Fixed(-128)).encode();
    assert_eq!(&frame[8..], &[0x00, 0x01, 0x00, 0x00, 0x80, 0xFF, 0xFF, 0xFF]);
}

#[test]
fn object_and_new_id_are_words() {
    let frame = Message::new(1, 0).object(0xFF000000).new_id(3).encode();
    assert_eq!(&frame[8..], &[0, 0, 0, 0xFF, 3, 0, 0, 0]);
}

#[test]
fn string_counts_its_terminator_and_is_padded() {
    let frame = Message::new(12, 2).string("Hi").encode();
    assert_eq!(
        &frame[..],
        &[12, 0, 0, 0, 2, 0, 16, 0, 3, 0, 0, 0, b'H', b'i', 0, 0]
    );
}

#[test]
fn string_of_three_needs_no_padding() {
    let frame = Message::new(1, 0).string("abc").encode();
    assert_eq!(&frame[8..], &[4, 0, 0, 0, b'a', b'b', b'c', 0]);
}

#[test]
fn string_of_four_is_padded_by_three() {
    let frame = Message::new(1, 0).string("abcd").encode();
    assert_eq!(&frame[8..], &[5, 0, 0, 0, b'a', b'b', b'c', b'd', 0, 0, 0, 0]);
}

#[test]
fn empty_string_is_a_zero_length() {
    let frame = Message::new(1, 0).string("").encode();
    assert_eq!(&frame[..], &[1, 0, 0, 0, 0, 0, 12, 0, 0, 0, 0, 0]);
}

#[test]
fn string_length_counts_utf8_bytes() {
    let frame = Message::new(1, 0).string("é").encode();
    assert_eq!(&frame[8..], &[3, 0, 0, 0, 0xC3, 0xA9, 0, 0]);
}

#[test]
fn array_is_length_bytes_padding() {
    let frame = Message::new(1, 0).arg(Argument::Array(vec![1, 2, 3, 4, 5])).encode();
    assert_eq!(&frame[8..], &[5, 0, 0, 0, 1, 2, 3, 4, 5, 0, 0, 0]);
}

#[test]
fn empty_array_is_a_zero_length() {
    let frame = Message::new(1, 0).arg(Argument::Array(vec![])).encode();
    assert_eq!(&frame[8..], &[0, 0, 0, 0]);
}

#[test]
fn fd_takes_no_bytes() {
    let frame = Message::new(1, 0).arg(Argument::Fd).uint(7).encode();
    assert_eq!(&frame[..], &[1, 0, 0, 0, 0, 0, 12, 0, 7, 0, 0, 0]);
}

#[test]
fn header_size_is_the_number_of_bytes() {
    let messages = vec![
        Message::new(1, 0),
        Message::new(2, 1).uint(5),
        Message::new(3, 2).string("wl_compositor").uint(5),
        Message::new(4, 0).int_arg(800).int_arg(600).arg(Argument::Array(vec![4, 0, 0, 0])),
        Message::new(5, 9).string("").arg(Argument::Fd).arg(Argument::Array(vec![1])),
    ];
    for message in messages {
        let frame = message.encode();
        assert_eq!(size_field(&frame), frame.len());
        assert!(frame.len() >= HEADER_SIZE);
        assert_eq!(frame.len() % 4, 0);
    }
}

#[test]
fn header_size_wraps_past_sixteen_bits() {
    let frame = Message::new(1, 0).arg(Argument::Array(vec![0; 70000])).encode();
    assert_eq!(frame.len(), 8 + 4 + 70000);
    assert_eq!(size_field(&frame), (8 + 4 + 70000) % 65536);
}

#[test]
fn word_at_reads_low_byte_first() {
    let bytes = [0xAA, 0x78, 0x56, 0x34, 0x12, 0xBB];
    assert_eq!(word_at(&bytes, 1), 0x12345678);
    assert_eq!(word_at(&[0xFF, 0xFF, 0xFF, 0xFF], 0), u32::MAX);
}

#[test]
fn read_uint_takes_four_bytes() {
    let mut p = payload(&[2, 0, 0, 0, 9]);
    assert_eq!(read_uint(&mut p), Some(2));
    assert_eq!(&p[..], &[9]);
}

#[test]
fn read_uint_leaves_a_short_payload() {
    let mut p = payload(&[1, 2, 3]);
    assert_eq!(read_uint(&mut p), None);
    assert_eq!(&p[..], &[1, 2, 3]);
}

#[test]
fn read_int_reads_negative_numbers() {
    let mut p = payload(&[0xFE, 0xFF, 0xFF, 0xFF, 0x00, 0x00, 0x00, 0x80, 0x2A, 0, 0, 0]);
    assert_eq!(read_int(&mut p), Some(-2));
    assert_eq!(read_int(&mut p), Some(i32::MIN));
    assert_eq!(read_int(&mut p), Some(42));
    assert_eq!(read_int(&mut p), None);
}

#[test]
fn read_string_strips_terminator_and_padding() {
    let mut p = payload(&[3, 0, 0, 0, b'H', b'i', 0, 0, 7, 0, 0, 0]);
    assert_eq!(read_string(&mut p), Some("Hi".to_string()));
    assert_eq!(&p[..], &[7, 0, 0, 0]);
}

#[test]
fn read_string_of_zero_length_is_empty() {
    let mut p = payload(&[0, 0, 0, 0, 5]);
    assert_eq!(read_string(&mut p), Some(String::new()));
    assert_eq!(&p[..], &[5]);
}

#[test]
fn read_string_of_terminator_only_is_empty() {
    let mut p = payload(&[1, 0, 0, 0, 0, 0, 0, 0]);
    assert_eq!(read_string(&mut p), Some(String::new()));
    assert_eq!(p.len(), 0);
}

#[test]
fn read_string_leaves_a_payload_without_its_bytes() {
    let mut p = payload(&[9, 0, 0, 0, b'a', b'b']);
    assert_eq!(read_string(&mut p), None);
    assert_eq!(&p[..], &[9, 0, 0, 0, b'a', b'b']);
}

#[test]
fn read_string_leaves_a_payload_without_its_padding() {
    let mut p = payload(&[3, 0, 0, 0, b'H', b'i', 0]);
    assert_eq!(read_string(&mut p), None);
    assert_eq!(p.len(), 7);
}

#[test]
fn read_string_replaces_invalid_utf8() {
    let mut p = payload(&[3, 0, 0, 0, 0xFF, b'a', 0, 0]);
    assert_eq!(read_string(&mut p), Some("\u{FFFD}a".to_string()));
}

#[test]
fn read_array_takes_bytes_and_padding() {
    let mut p = payload(&[5, 0, 0, 0, 1, 2, 3, 4, 5, 0, 0, 0, 8]);
    assert_eq!(read_array(&mut p), Some(vec![1, 2, 3, 4, 5]));
    assert_eq!(&p[..], &[8]);
}

#[test]
fn read_arg_reads_by_kind() {
    let mut p = payload(&[0xFF, 0xFF, 0xFF, 0xFF, 0xFF, 0xFF, 0xFF, 0xFF]);
    assert_eq!(read_arg(&mut p, ArgKind::Int), Some(Argument::Int(-1)));
    assert_eq!(read_arg(&mut p, ArgKind::Fd), Some(Argument::Fd));
    assert_eq!(read_arg(&mut p, ArgKind::Object), Some(Argument::Object(u32::MAX)));
    assert_eq!(read_arg(&mut p, ArgKind::Uint), None);
}

#[test]
fn arguments_survive_the_round_trip() {
    let args = vec![
        Argument::Int(-7),
        Argument::Uint(7),
        Argument::Fixed(-300),
        Argument::String("xdg_wm_base".to_string()),
        Argument::Object(12),
        Argument::NewId(0xFF000001),
        Argument::Array(vec![4, 0, 0, 0, 1]),
        Argument::String(String::new()),
        Argument::String("größe".to_string()),
        Argument::Fd,
        Argument::Array(vec![]),
    ];
    let kinds = vec![
        ArgKind::Int,
        ArgKind::Uint,
        ArgKind::Fixed,
        ArgKind::String,
        ArgKind::Object,
        ArgKind::NewId,
        ArgKind::Array,
        ArgKind::String,
        ArgKind::String,
        ArgKind::Fd,
        ArgKind::Array,
    ];
    let mut message = Message::new(3, 1);
    for arg in args.iter() {
        message = message.arg(arg.clone());
    }
    let frame = message.encode();
    let mut p = payload(&frame[8..]);
    assert_eq!(read_args(&mut p, &kinds), Some(args));
    assert_eq!(p.len(), 0);
}

#[test]
fn read_args_stops_at_the_argument_that_is_cut() {
    let mut p = payload(&[1, 0, 0, 0, 2, 0]);
    assert_eq!(read_args(&mut p, &[ArgKind::Uint, ArgKind::Uint]), None);
    assert_eq!(&p[..], &[2, 0]);
}

#[test]
fn decoder_needs_a_whole_header() {
    let mut decoder = MessageDecoder::new();
    decoder.push(&[1, 0, 0, 0, 0, 0, 8]);
    assert!(matches!(decoder.decode(), Ok(None)));
    decoder.push(&[0]);
    let frame = decoder.decode().unwrap().unwrap();
    assert_eq!((frame.0, frame.1, frame.2.len()), (1, 0, 0));
    assert!(matches!(decoder.decode(), Ok(None)));
}

#[test]
fn decoder_hands_out_object_opcode_and_payload() {
    let mut decoder = MessageDecoder::new();
    decoder.push(&[5, 0, 0, 0, 6, 0, 12, 0, 9, 8, 7, 6, 0xEE]);
    let (object_id, opcode, payload) = decoder.decode().unwrap().unwrap();
    assert_eq!(object_id, 5);
    assert_eq!(opcode, 6);
    assert_eq!(&payload[..], &[9, 8, 7, 6]);
    assert_eq!(&decoder.buffer[..], &[0xEE]);
}

#[test]
fn decoder_reports_an_undersized_frame() {
    let mut decoder = MessageDecoder::new();
    decoder.push(&[1, 0, 0, 0, 0, 0, 7, 0, 1, 2, 3, 4]);
    match decoder.decode() {
        Err(WinWayError::Protocol(text)) => assert_eq!(text, "frame size below header size"),
        other => panic!("expected a protocol error, got {:?}", other.map(|f| f.map(|t| t.0))),
    }
    assert_eq!(decoder.buffer.len(), 12);
}

#[test]
fn decoder_reads_the_size_from_the_upper_half() {
    let mut decoder = MessageDecoder::new();
    decoder.push(&[1, 0, 0, 0, 0x0C, 0, 0, 0, 2, 0, 0, 0]);
    assert!(matches!(decoder.decode(), Err(WinWayError::Protocol(_))));
}

#[test]
fn decoder_hands_out_frames_one_by_one() {
    let mut stream = Vec::new();
    stream.extend_from_slice(&Message::new(1, 0).uint(2).encode());
    stream.extend_from_slice(&Message::new(1, 1).uint(3).encode());
    let mut decoder = MessageDecoder::new();
    decoder.push(&stream);
    let first = decoder.decode().unwrap().unwrap();
    let second = decoder.decode().unwrap().unwrap();
    assert_eq!((first.0, first.1, &first.2[..]), (1, 0, &[2u8, 0, 0, 0][..]));
    assert_eq!((second.0, second.1, &second.2[..]), (1, 1, &[3u8, 0, 0, 0][..]));
    assert!(matches!(decoder.decode(), Ok(None)));
}

#[test]
fn frame_survives_a_cut_at_every_byte() {
    let message = Message::new(9, 4)
        .uint(77)
        .string("win-way-seat")
        .int_arg(-5)
        .arg(Argument::Array(vec![1, 2, 3]));
    let frame = message.encode();
    for cut in 0..=frame.len() {
        let mut decoder = MessageDecoder::new();
        decoder.push(&frame[..cut]);
        if cut < frame.len() {
            assert!(matches!(decoder.decode(), Ok(None)), "cut at {}", cut);
        }
        decoder.push(&frame[cut..]);
        let (object_id, opcode, payload) = decoder.decode().unwrap().unwrap();
        assert_eq!(object_id, 9);
        assert_eq!(opcode, 4);
        assert_eq!(&payload[..], &frame[8..]);
        let mut payload = payload;
        let kinds = [ArgKind::Uint, ArgKind::String, ArgKind::Int, ArgKind::Array];
        assert_eq!(read_args(&mut payload, &kinds), Some(message.args.clone()));
        assert!(matches!(decoder.decode(), Ok(None)));
        assert_eq!(decoder.buffer.len(), 0);
    }
}

#[test]
fn default_decoder_is_empty() {
    let mut decoder = MessageDecoder::default();
    assert_eq!(decoder.buffer.len(), 0);
    assert!(matches!(decoder.decode(), Ok(None)));
}
