//! Encoding and decoding of the wire format.
//!
//! A frame is an eight-byte header, the target object's id and then the
//! frame's size in the upper and the opcode in the lower half of a second
//! word, followed by the arguments. Every word is little-endian and every
//! argument ends on a four-byte boundary. The types of the arguments are
//! not transmitted: both sides know them from the interface and the opcode.

use crate::buf::{
    bytes_advance, bytes_as_slice, bytes_extend_from_slice, bytes_get_i32_le,
    bytes_get_u32_le, bytes_len, bytes_new, bytes_put_i32_le, bytes_put_slice,
    bytes_put_u32_le, bytes_put_u8, bytes_split_to, bytes_with_capacity, contents,
};
use crate::error::{undersized_frame_text, WinWayError};
use crate::le::{
    i32_from_le, i32_le, lemma_i32_bits_round_trip, lemma_u32_le_round_trip, u32_from_le,
    u32_le,
};
use bytes::BytesMut;
use vstd::prelude::*;
use vstd::slice::slice_to_vec;
use vstd::utf8::{decode_utf8, encode_utf8, valid_utf8};

verus! {

/// The size of a frame's header, in bytes.
pub const HEADER_SIZE: usize = 8;

/// The size that no frame reaches: a header has sixteen bits for it.
pub const MAX_FRAME: usize = 65536;

/// One argument of a message.
#[derive(Debug, Clone, PartialEq, Eq)]
pub enum Argument {
    Int(i32),
    Uint(u32),
    /// A signed number with eight fractional bits.
    Fixed(i32),
    String(String),
    Object(u32),
    NewId(u32),
    Array(Vec<u8>),
    /// A file descriptor. It travels beside the stream, not in it.
    Fd,
}

/// An argument as a mathematical value.
pub enum ArgumentView {
    Int(i32),
    Uint(u32),
    Fixed(i32),
    String(Seq<char>),
    Object(u32),
    NewId(u32),
    Array(Seq<u8>),
    Fd,
}

impl View for Argument {
    type V = ArgumentView;

    open spec fn view(&self) -> ArgumentView {
        match *self {
            Argument::Int(v) => ArgumentView::Int(v),
            Argument::Uint(v) => ArgumentView::Uint(v),
            Argument::Fixed(v) => ArgumentView::Fixed(v),
            Argument::String(s) => ArgumentView::String(s@),
            Argument::Object(v) => ArgumentView::Object(v),
            Argument::NewId(v) => ArgumentView::NewId(v),
            Argument::Array(data) => ArgumentView::Array(data@),
            Argument::Fd => ArgumentView::Fd,
        }
    }
}

/// A request or an event: the object it is for, the opcode, the arguments.
#[derive(Debug, Clone, PartialEq, Eq)]
pub struct Message {
    pub object_id: u32,
    pub opcode: u16,
    pub args: Vec<Argument>,
}

/// A message as a mathematical value.
pub struct MessageView {
    pub object_id: u32,
    pub opcode: u16,
    pub args: Seq<ArgumentView>,
}

/// The views of the arguments, in order.
pub open spec fn args_view(args: Seq<Argument>) -> Seq<ArgumentView> {
    Seq::new(args.len(), |i: int| args[i]@)
}

impl View for Message {
    type V = MessageView;

    open spec fn view(&self) -> MessageView {
        MessageView {
            object_id: self.object_id,
            opcode: self.opcode,
            args: args_view(self.args@),
        }
    }
}

impl MessageView {
    /// The message without arguments.
    pub open spec fn new(object_id: u32, opcode: u16) -> MessageView {
        MessageView { object_id, opcode, args: Seq::empty() }
    }

    /// The message with one more argument at its end.
    pub open spec fn arg(self, arg: ArgumentView) -> MessageView {
        MessageView { args: self.args.push(arg), ..self }
    }

    pub open spec fn uint(self, value: u32) -> MessageView {
        self.arg(ArgumentView::Uint(value))
    }

    pub open spec fn int_arg(self, value: i32) -> MessageView {
        self.arg(ArgumentView::Int(value))
    }

    pub open spec fn fixed(self, value: i32) -> MessageView {
        self.arg(ArgumentView::Fixed(value))
    }

    pub open spec fn string(self, value: Seq<char>) -> MessageView {
        self.arg(ArgumentView::String(value))
    }

    pub open spec fn object(self, id: u32) -> MessageView {
        self.arg(ArgumentView::Object(id))
    }

    pub open spec fn new_id(self, id: u32) -> MessageView {
        self.arg(ArgumentView::NewId(id))
    }

    pub open spec fn array(self, data: Seq<u8>) -> MessageView {
        self.arg(ArgumentView::Array(data))
    }
}

/// How many zero bytes follow `len` bytes to reach a four-byte boundary.
pub open spec fn padding(len: nat) -> nat {
    ((4 - len % 4) % 4) as nat
}

/// `n` zero bytes.
pub open spec fn zeros(n: nat) -> Seq<u8> {
    Seq::new(n, |i: int| 0u8)
}

/// A length as the wire's 32-bit length field holds it.
pub open spec fn length_field(len: nat) -> u32 {
    (len % 0x1_0000_0000) as u32
}

/// A string on the wire: the length of its UTF-8 bytes and one closing
/// zero, those bytes, the zero, and padding. The empty string is a zero
/// length and nothing else.
pub open spec fn encode_string(chars: Seq<char>) -> Seq<u8> {
    let bytes = encode_utf8(chars);
    if bytes.len() == 0 {
        u32_le(0)
    } else {
        let len = length_field(bytes.len() + 1);
        u32_le(len) + bytes + seq![0u8] + zeros(padding(len as nat))
    }
}

/// An array on the wire: its length, its bytes, and padding.
pub open spec fn encode_array(data: Seq<u8>) -> Seq<u8> {
    u32_le(length_field(data.len())) + data + zeros(padding(data.len()))
}

/// One argument on the wire.
pub open spec fn encode_arg(arg: ArgumentView) -> Seq<u8> {
    match arg {
        ArgumentView::Int(v) => i32_le(v),
        ArgumentView::Uint(v) => u32_le(v),
        ArgumentView::Fixed(v) => i32_le(v),
        ArgumentView::String(chars) => encode_string(chars),
        ArgumentView::Object(v) => u32_le(v),
        ArgumentView::NewId(v) => u32_le(v),
        ArgumentView::Array(data) => encode_array(data),
        ArgumentView::Fd => Seq::empty(),
    }
}

/// The arguments on the wire, one after the other.
pub open spec fn encode_args(args: Seq<ArgumentView>) -> Seq<u8>
    decreases args.len(),
{
    if args.len() == 0 {
        Seq::empty()
    } else {
        encode_arg(args[0]) + encode_args(args.skip(1))
    }
}

/// The second word of a header: the low sixteen bits of the frame's size
/// above the opcode.
pub open spec fn header_word(size: nat, opcode: u16) -> u32 {
    ((size % 65536) * 65536 + opcode) as u32
}

/// The size that a header word announces.
pub open spec fn announced_size(word: u32) -> nat {
    (word / 65536) as nat
}

/// The opcode that a header word carries.
pub open spec fn announced_opcode(word: u32) -> u16 {
    (word % 65536) as u16
}

/// A whole frame: header, then arguments.
pub open spec fn encode_message(m: MessageView) -> Seq<u8> {
    let payload = encode_args(m.args);
    u32_le(m.object_id) + u32_le(header_word(HEADER_SIZE as nat + payload.len(), m.opcode))
        + payload
}

/// Encoding the arguments up to and including one is encoding those before
/// it and then that one.
pub proof fn lemma_encode_args_push(args: Seq<ArgumentView>, arg: ArgumentView)
    ensures
        encode_args(args.push(arg)) == encode_args(args) + encode_arg(arg),
    decreases args.len(),
{
    if args.len() == 0 {
        let empty = Seq::<ArgumentView>::empty();
        assert(args.push(arg).skip(1) =~= empty);
        assert(encode_args(empty) =~= Seq::<u8>::empty());
        assert(encode_args(args.push(arg)) =~= encode_arg(arg));
        assert(encode_args(args) + encode_arg(arg) =~= encode_arg(arg));
    } else {
        assert(args.push(arg).skip(1) =~= args.skip(1).push(arg));
        lemma_encode_args_push(args.skip(1), arg);
        assert(encode_args(args.push(arg)) =~= encode_args(args) + encode_arg(arg));
    }
}

/// Appends `count` zero bytes.
fn put_padding(buf: &mut BytesMut, count: usize)
    ensures
        contents(*final(buf)) == contents(*old(buf)) + zeros(count as nat),
{
    let mut written: usize = 0;
    while written < count
        invariant
            written <= count,
            contents(*buf) == contents(*old(buf)) + zeros(written as nat),
        decreases count - written,
    {
        bytes_put_u8(buf, 0);
        written = written + 1;
        assert(contents(*buf) =~= contents(*old(buf)) + zeros(written as nat));
    }
}

/// The wire's length field for `len` bytes.
fn length_word(len: usize) -> (word: u32)
    ensures
        word == length_field(len as nat),
{
    ((len as u64) % 0x1_0000_0000) as u32
}

/// Appends a string argument.
fn put_string(buf: &mut BytesMut, value: &str)
    ensures
        contents(*final(buf)) == contents(*old(buf)) + encode_string(value@),
{
    let bytes = value.as_bytes();
    if bytes.len() == 0 {
        bytes_put_u32_le(buf, 0);
    } else {
        let len: u32 = length_word(bytes.len()).wrapping_add(1);
        assert(len == length_field((bytes@.len() + 1) as nat));
        bytes_put_u32_le(buf, len);
        bytes_put_slice(buf, bytes);
        bytes_put_u8(buf, 0);
        let pad: usize = (4 - (len as usize % 4)) % 4;
        put_padding(buf, pad);
        assert(contents(*buf) =~= contents(*old(buf)) + encode_string(value@));
    }
}

/// Appends an array argument.
fn put_array(buf: &mut BytesMut, data: &[u8])
    ensures
        contents(*final(buf)) == contents(*old(buf)) + encode_array(data@),
{
    bytes_put_u32_le(buf, length_word(data.len()));
    bytes_put_slice(buf, data);
    let pad: usize = (4 - (data.len() % 4)) % 4;
    put_padding(buf, pad);
    assert(contents(*buf) =~= contents(*old(buf)) + encode_array(data@));
}

/// Appends one argument.
fn put_arg(buf: &mut BytesMut, arg: &Argument)
    ensures
        contents(*final(buf)) == contents(*old(buf)) + encode_arg(arg@),
{
    match arg {
        Argument::Int(v) => bytes_put_i32_le(buf, *v),
        Argument::Uint(v) => bytes_put_u32_le(buf, *v),
        Argument::Fixed(v) => bytes_put_i32_le(buf, *v),
        Argument::Object(v) => bytes_put_u32_le(buf, *v),
        Argument::NewId(v) => bytes_put_u32_le(buf, *v),
        Argument::String(s) => put_string(buf, s.as_str()),
        Argument::Array(data) => put_array(buf, data.as_slice()),
        Argument::Fd => {
            assert(contents(*buf) =~= contents(*old(buf)) + encode_arg(arg@));
        },
    }
}

/// The second word of the header of a frame with this much payload.
fn header_word_for(payload_len: usize, opcode: u16) -> (word: u32)
    ensures
        word == header_word(HEADER_SIZE as nat + payload_len as nat, opcode),
{
    let low: usize = payload_len % 65536;
    let size: u32 = ((low + HEADER_SIZE) % 65536) as u32;
    let op: u32 = opcode as u32;
    assert((size << 16) | op == size * 65536 + op) by (bit_vector)
        requires
            size < 65536,
            op < 65536,
    ;
    (size << 16) | op
}

impl Message {
    /// A message without arguments.
    pub fn new(object_id: u32, opcode: u16) -> (m: Message)
        ensures
            m@ == MessageView::new(object_id, opcode),
    {
        let m = Message { object_id, opcode, args: Vec::new() };
        assert(m@.args =~= Seq::empty());
        m
    }

    /// Adds an argument at the end.
    pub fn arg(self, arg: Argument) -> (m: Message)
        ensures
            m@ == self@.arg(arg@),
    {
        let mut m = self;
        m.args.push(arg);
        assert(m@.args =~= self@.args.push(arg@));
        m
    }

    /// Adds an unsigned argument.
    pub fn uint(self, value: u32) -> (m: Message)
        ensures
            m@ == self@.uint(value),
    {
        self.arg(Argument::Uint(value))
    }

    /// Adds a signed argument.
    pub fn int_arg(self, value: i32) -> (m: Message)
        ensures
            m@ == self@.int_arg(value),
    {
        self.arg(Argument::Int(value))
    }

    /// Adds a string argument.
    pub fn string(self, value: &str) -> (m: Message)
        ensures
            m@ == self@.string(value@),
    {
        self.arg(Argument::String(value.to_owned()))
    }

    /// Adds an argument that names an existing object.
    pub fn object(self, id: u32) -> (m: Message)
        ensures
            m@ == self@.object(id),
    {
        self.arg(Argument::Object(id))
    }

    /// Adds an argument that names an object to create.
    pub fn new_id(self, id: u32) -> (m: Message)
        ensures
            m@ == self@.new_id(id),
    {
        self.arg(Argument::NewId(id))
    }

    /// The frame for this message: the header with the size filled in, then
    /// the arguments with their padding.
    pub fn encode(&self) -> (frame: BytesMut)
        ensures
            contents(frame) == encode_message(self@),
    {
        let mut payload = bytes_new();
        let ghost args = self@.args;
        let mut i: usize = 0;
        assert(args.take(0) =~= Seq::<ArgumentView>::empty());
        while i < self.args.len()
            invariant
                i <= self.args.len(),
                args == self@.args,
                contents(payload) == encode_args(args.take(i as int)),
            decreases self.args.len() - i,
        {
            put_arg(&mut payload, &self.args[i]);
            proof {
                lemma_encode_args_push(args.take(i as int), args[i as int]);
                assert(args.take(i as int).push(args[i as int]) =~= args.take(i as int + 1));
            }
            i = i + 1;
        }
        assert(args.take(i as int) =~= args);
        let payload_len: usize = bytes_len(&payload);
        let word: u32 = header_word_for(payload_len, self.opcode);
        let mut frame = bytes_with_capacity(HEADER_SIZE);
        bytes_put_u32_le(&mut frame, self.object_id);
        bytes_put_u32_le(&mut frame, word);
        bytes_put_slice(&mut frame, bytes_as_slice(&payload));
        assert(contents(frame) =~= encode_message(self@));
        frame
    }
}

/// What `String::from_utf8_lossy` makes of bytes that are not UTF-8.
pub uninterp spec fn utf8_lossy(bytes: Seq<u8>) -> Seq<char>;

/// The text that a run of bytes stands for: the text they encode where they
/// are UTF-8, and otherwise whatever the lossy conversion makes of them.
pub open spec fn text_of(bytes: Seq<u8>) -> Seq<char> {
    if valid_utf8(bytes) {
        decode_utf8(bytes)
    } else {
        utf8_lossy(bytes)
    }
}

/// `String::from_utf8_lossy`, made into an owned string. What comes back
/// depends on the bytes alone. Valid UTF-8 comes back as the text it
/// encodes; other input comes back with a replacement character for each
/// invalid sequence, of which no more is claimed here than its name.
#[verifier::external_body]
fn string_from_utf8_lossy(bytes: &[u8]) -> (text: String)
    ensures
        text@ == utf8_lossy(bytes@),
        valid_utf8(bytes@) ==> text@ == decode_utf8(bytes@),
{
    String::from_utf8_lossy(bytes).into_owned()
}

/// The type of an argument, which tells the decoder what to read.
#[derive(Debug, Clone, Copy, PartialEq, Eq, Structural)]
pub enum ArgKind {
    Int,
    Uint,
    Fixed,
    String,
    Object,
    NewId,
    Array,
    Fd,
}

impl ArgumentView {
    /// The type of this argument.
    pub open spec fn kind(self) -> ArgKind {
        match self {
            ArgumentView::Int(_) => ArgKind::Int,
            ArgumentView::Uint(_) => ArgKind::Uint,
            ArgumentView::Fixed(_) => ArgKind::Fixed,
            ArgumentView::String(_) => ArgKind::String,
            ArgumentView::Object(_) => ArgKind::Object,
            ArgumentView::NewId(_) => ArgKind::NewId,
            ArgumentView::Array(_) => ArgKind::Array,
            ArgumentView::Fd => ArgKind::Fd,
        }
    }

    /// Whether the wire's 32-bit length field can hold this argument's
    /// length. It always can for an argument without one.
    pub open spec fn fits(self) -> bool {
        match self {
            ArgumentView::String(chars) => encode_utf8(chars).len() + 1 < 0x1_0000_0000,
            ArgumentView::Array(data) => data.len() < 0x1_0000_0000,
            _ => true,
        }
    }
}

/// The unsigned word at the head of a payload, and what follows it.
pub open spec fn parse_uint(payload: Seq<u8>) -> Option<(u32, Seq<u8>)> {
    if payload.len() < 4 {
        None
    } else {
        Some((u32_from_le(payload), payload.skip(4)))
    }
}

/// The signed word at the head of a payload, and what follows it.
pub open spec fn parse_int(payload: Seq<u8>) -> Option<(i32, Seq<u8>)> {
    if payload.len() < 4 {
        None
    } else {
        Some((i32_from_le(payload), payload.skip(4)))
    }
}

/// The length-prefixed bytes at the head of a payload, without the last
/// `trailer` of them, and what follows their padding.
pub open spec fn parse_bytes(payload: Seq<u8>, trailer: nat) -> Option<(Seq<u8>, Seq<u8>)> {
    if payload.len() < 4 {
        None
    } else {
        let len = u32_from_le(payload) as nat;
        let end = 4 + len + padding(len);
        if payload.len() < end {
            None
        } else if len < trailer {
            Some((Seq::empty(), payload.skip(end as int)))
        } else {
            Some((payload.subrange(4, 4 + len - trailer), payload.skip(end as int)))
        }
    }
}

/// The string at the head of a payload, and what follows its padding. The
/// last of the announced bytes is the closing zero and is not part of the
/// text.
pub open spec fn parse_string(payload: Seq<u8>) -> Option<(Seq<char>, Seq<u8>)> {
    match parse_bytes(payload, 1) {
        Some((bytes, rest)) => Some((text_of(bytes), rest)),
        None => None,
    }
}

/// The array at the head of a payload, and what follows its padding.
pub open spec fn parse_array(payload: Seq<u8>) -> Option<(Seq<u8>, Seq<u8>)> {
    parse_bytes(payload, 0)
}

/// The argument of the given type at the head of a payload, and what
/// follows it.
pub open spec fn parse_arg(kind: ArgKind, payload: Seq<u8>) -> Option<(ArgumentView, Seq<u8>)> {
    match kind {
        ArgKind::Int => match parse_int(payload) {
            Some((v, rest)) => Some((ArgumentView::Int(v), rest)),
            None => None,
        },
        ArgKind::Uint => match parse_uint(payload) {
            Some((v, rest)) => Some((ArgumentView::Uint(v), rest)),
            None => None,
        },
        ArgKind::Fixed => match parse_int(payload) {
            Some((v, rest)) => Some((ArgumentView::Fixed(v), rest)),
            None => None,
        },
        ArgKind::String => match parse_string(payload) {
            Some((chars, rest)) => Some((ArgumentView::String(chars), rest)),
            None => None,
        },
        ArgKind::Object => match parse_uint(payload) {
            Some((v, rest)) => Some((ArgumentView::Object(v), rest)),
            None => None,
        },
        ArgKind::NewId => match parse_uint(payload) {
            Some((v, rest)) => Some((ArgumentView::NewId(v), rest)),
            None => None,
        },
        ArgKind::Array => match parse_array(payload) {
            Some((data, rest)) => Some((ArgumentView::Array(data), rest)),
            None => None,
        },
        ArgKind::Fd => Some((ArgumentView::Fd, payload)),
    }
}

/// The arguments of the given types at the head of a payload, and what
/// follows them. Where one of them is cut short there are no arguments, and
/// the payload is given from that one on.
pub open spec fn parse_args(kinds: Seq<ArgKind>, payload: Seq<u8>) -> (
    Option<Seq<ArgumentView>>,
    Seq<u8>,
)
    decreases kinds.len(),
{
    if kinds.len() == 0 {
        (Some(Seq::empty()), payload)
    } else {
        match parse_arg(kinds[0], payload) {
            None => (None, payload),
            Some((arg, rest)) => {
                let (tail, end) = parse_args(kinds.skip(1), rest);
                match tail {
                    Some(args) => (Some(seq![arg] + args), end),
                    None => (None, end),
                }
            },
        }
    }
}

/// The word that opens `bytes[at..]`.
pub fn word_at(bytes: &[u8], at: usize) -> (word: u32)
    requires
        at + 4 <= bytes@.len(),
    ensures
        word == u32_from_le(bytes@.skip(at as int)),
{
    let b0: u32 = bytes[at] as u32;
    let b1: u32 = bytes[at + 1] as u32;
    let b2: u32 = bytes[at + 2] as u32;
    let b3: u32 = bytes[at + 3] as u32;
    b0 + b1 * 256 + b2 * 65536 + b3 * 16777216
}

/// Reads an unsigned argument. A payload of fewer than four bytes is left
/// as it is.
pub fn read_uint(payload: &mut BytesMut) -> (value: Option<u32>)
    ensures
        match parse_uint(contents(*old(payload))) {
            Some((v, rest)) => value == Some(v) && contents(*final(payload)) == rest,
            None => value is None && contents(*final(payload)) == contents(*old(payload)),
        },
{
    if bytes_len(payload) < 4 {
        return None;
    }
    Some(bytes_get_u32_le(payload))
}

/// Reads a signed argument. A payload of fewer than four bytes is left as
/// it is.
pub fn read_int(payload: &mut BytesMut) -> (value: Option<i32>)
    ensures
        match parse_int(contents(*old(payload))) {
            Some((v, rest)) => value == Some(v) && contents(*final(payload)) == rest,
            None => value is None && contents(*final(payload)) == contents(*old(payload)),
        },
{
    if bytes_len(payload) < 4 {
        return None;
    }
    Some(bytes_get_i32_le(payload))
}

/// Takes length-prefixed bytes and their padding off the payload and hands
/// out the bytes without the last `trailer` of them. A payload that ends
/// before the padding does is left as it is.
fn read_bytes(payload: &mut BytesMut, trailer: usize) -> (taken: Option<Vec<u8>>)
    ensures
        match parse_bytes(contents(*old(payload)), trailer as nat) {
            Some((bytes, rest)) => taken is Some && taken->Some_0@ == bytes && contents(
                *final(payload),
            ) == rest,
            None => taken is None && contents(*final(payload)) == contents(*old(payload)),
        },
{
    let avail: usize = bytes_len(payload);
    if avail < 4 {
        return None;
    }
    let len: usize = word_at(bytes_as_slice(payload), 0) as usize;
    let pad: usize = (4 - len % 4) % 4;
    let room: usize = avail - 4;
    if room < len || room - len < pad {
        return None;
    }
    let ghost before = contents(*payload);
    assert(before.skip(0) =~= before);
    bytes_advance(payload, 4);
    let body = bytes_split_to(payload, len);
    bytes_advance(payload, pad);
    let kept: usize = if len < trailer {
        0
    } else {
        len - trailer
    };
    let slice = bytes_as_slice(&body);
    let bytes = slice_to_vec(vstd::slice::slice_subrange(slice, 0, kept));
    proof {
        assert(contents(*payload) =~= before.skip(4 + len + pad));
        if len >= trailer {
            assert(bytes@ =~= before.subrange(4, 4 + len - trailer));
        } else {
            assert(bytes@ =~= Seq::<u8>::empty());
        }
    }
    Some(bytes)
}

/// Reads a string argument: the announced bytes but the last, which is the
/// closing zero, as text. A payload that ends before the string's padding
/// does is left as it is.
pub fn read_string(payload: &mut BytesMut) -> (value: Option<String>)
    ensures
        match parse_string(contents(*old(payload))) {
            Some((chars, rest)) => value is Some && value->Some_0@ == chars && contents(
                *final(payload),
            ) == rest,
            None => value is None && contents(*final(payload)) == contents(*old(payload)),
        },
{
    match read_bytes(payload, 1) {
        Some(bytes) => Some(string_from_utf8_lossy(bytes.as_slice())),
        None => None,
    }
}

/// Reads an array argument. A payload that ends before the array's padding
/// does is left as it is.
pub fn read_array(payload: &mut BytesMut) -> (value: Option<Vec<u8>>)
    ensures
        match parse_array(contents(*old(payload))) {
            Some((data, rest)) => value is Some && value->Some_0@ == data && contents(
                *final(payload),
            ) == rest,
            None => value is None && contents(*final(payload)) == contents(*old(payload)),
        },
{
    read_bytes(payload, 0)
}

/// Reads one argument of the given type. A payload that ends before the
/// argument does is left as it is.
pub fn read_arg(payload: &mut BytesMut, kind: ArgKind) -> (value: Option<Argument>)
    ensures
        match parse_arg(kind, contents(*old(payload))) {
            Some((arg, rest)) => value is Some && value->Some_0@ == arg && contents(
                *final(payload),
            ) == rest,
            None => value is None && contents(*final(payload)) == contents(*old(payload)),
        },
{
    match kind {
        ArgKind::Int => match read_int(payload) {
            Some(v) => Some(Argument::Int(v)),
            None => None,
        },
        ArgKind::Uint => match read_uint(payload) {
            Some(v) => Some(Argument::Uint(v)),
            None => None,
        },
        ArgKind::Fixed => match read_int(payload) {
            Some(v) => Some(Argument::Fixed(v)),
            None => None,
        },
        ArgKind::String => match read_string(payload) {
            Some(s) => Some(Argument::String(s)),
            None => None,
        },
        ArgKind::Object => match read_uint(payload) {
            Some(v) => Some(Argument::Object(v)),
            None => None,
        },
        ArgKind::NewId => match read_uint(payload) {
            Some(v) => Some(Argument::NewId(v)),
            None => None,
        },
        ArgKind::Array => match read_array(payload) {
            Some(data) => Some(Argument::Array(data)),
            None => None,
        },
        ArgKind::Fd => Some(Argument::Fd),
    }
}

/// The outcome of parsing a tail of the arguments, with the arguments
/// before that tail put in front.
pub open spec fn after(
    head: Seq<ArgumentView>,
    tail: (Option<Seq<ArgumentView>>, Seq<u8>),
) -> (Option<Seq<ArgumentView>>, Seq<u8>) {
    match tail.0 {
        Some(args) => (Some(head + args), tail.1),
        None => (None, tail.1),
    }
}

/// Parsing may set the first arguments aside and go on from where they end.
proof fn lemma_parse_args_step(
    kinds: Seq<ArgKind>,
    at: int,
    head: Seq<ArgumentView>,
    payload: Seq<u8>,
)
    requires
        0 <= at < kinds.len(),
    ensures
        after(head, parse_args(kinds.skip(at), payload)) == match parse_arg(kinds[at], payload) {
            None => (None::<Seq<ArgumentView>>, payload),
            Some((arg, rest)) => after(head.push(arg), parse_args(kinds.skip(at + 1), rest)),
        },
{
    assert(kinds.skip(at)[0] == kinds[at]);
    assert(kinds.skip(at).skip(1) =~= kinds.skip(at + 1));
    match parse_arg(kinds[at], payload) {
        None => {},
        Some((arg, rest)) => {
            let tail = parse_args(kinds.skip(at + 1), rest);
            match tail.0 {
                Some(args) => {
                    assert(head + (seq![arg] + args) =~= head.push(arg) + args);
                },
                None => {},
            }
        },
    }
}

/// Reads the arguments of the given types, in order. Where one of them is
/// cut short nothing is returned, and the payload is left at that one.
pub fn read_args(payload: &mut BytesMut, kinds: &[ArgKind]) -> (values: Option<Vec<Argument>>)
    ensures
        match parse_args(kinds@, contents(*old(payload))) {
            (Some(args), rest) => values is Some && args_view(values->Some_0@) == args
                && contents(*final(payload)) == rest,
            (None, rest) => values is None && contents(*final(payload)) == rest,
        },
{
    let mut values: Vec<Argument> = Vec::new();
    let mut i: usize = 0;
    assert(kinds@.skip(0) =~= kinds@);
    assert(args_view(values@) =~= Seq::<ArgumentView>::empty());
    assert(after(args_view(values@), parse_args(kinds@, contents(*payload))) == parse_args(
        kinds@,
        contents(*payload),
    )) by {
        let tail = parse_args(kinds@, contents(*payload));
        if tail.0 is Some {
            assert(Seq::<ArgumentView>::empty() + tail.0->Some_0 =~= tail.0->Some_0);
        }
    }
    while i < kinds.len()
        invariant
            i <= kinds.len(),
            after(args_view(values@), parse_args(kinds@.skip(i as int), contents(*payload)))
                == parse_args(kinds@, contents(*old(payload))),
        decreases kinds.len() - i,
    {
        proof {
            lemma_parse_args_step(kinds@, i as int, args_view(values@), contents(*payload));
        }
        let ghost before = args_view(values@);
        match read_arg(payload, kinds[i]) {
            Some(arg) => {
                values.push(arg);
                assert(args_view(values@) =~= before.push(arg@));
            },
            None => {
                return None;
            },
        }
        i = i + 1;
    }
    proof {
        assert(kinds@.skip(i as int) =~= Seq::<ArgKind>::empty());
        assert(args_view(values@) + Seq::<ArgumentView>::empty() =~= args_view(values@));
    }
    Some(values)
}

/// What stands at the head of a stream of frames.
pub enum FrameView {
    /// Not yet a whole frame.
    NeedMore,
    /// A header that announces less than its own size.
    Malformed,
    /// A whole frame, and the bytes behind it.
    Complete { object_id: u32, opcode: u16, payload: Seq<u8>, rest: Seq<u8> },
}

/// The frame at the head of `stream`.
pub open spec fn next_frame(stream: Seq<u8>) -> FrameView {
    if stream.len() < HEADER_SIZE {
        FrameView::NeedMore
    } else {
        let word = u32_from_le(stream.skip(4));
        let size = announced_size(word);
        if size < HEADER_SIZE {
            FrameView::Malformed
        } else if stream.len() < size {
            FrameView::NeedMore
        } else {
            FrameView::Complete {
                object_id: u32_from_le(stream),
                opcode: announced_opcode(word),
                payload: stream.subrange(HEADER_SIZE as int, size as int),
                rest: stream.skip(size as int),
            }
        }
    }
}

/// A decoder that takes the stream in pieces of any size and hands out
/// whole frames.
pub struct MessageDecoder {
    pub buffer: BytesMut,
}

impl View for MessageDecoder {
    type V = Seq<u8>;

    /// The bytes taken in and not yet handed out.
    open spec fn view(&self) -> Seq<u8> {
        contents(self.buffer)
    }
}

impl MessageDecoder {
    /// A decoder that holds no bytes.
    pub fn new() -> (decoder: MessageDecoder)
        ensures
            decoder@ == Seq::<u8>::empty(),
    {
        MessageDecoder { buffer: bytes_with_capacity(65536) }
    }

    /// Takes in the next piece of the stream.
    pub fn push(&mut self, data: &[u8])
        ensures
            final(self)@ == old(self)@ + data@,
    {
        bytes_extend_from_slice(&mut self.buffer, data);
    }

    /// Hands out the frame at the head of the buffered bytes: the object,
    /// the opcode and the payload. Without a whole frame it hands out
    /// nothing and keeps what it has; a header that announces less than
    /// eight bytes is an error, and the bytes stay.
    pub fn decode(&mut self) -> (frame: Result<Option<(u32, u16, BytesMut)>, WinWayError>)
        ensures
            match next_frame(old(self)@) {
                FrameView::NeedMore => frame == Ok::<Option<(u32, u16, BytesMut)>, WinWayError>(
                    None,
                ) && final(self)@ == old(self)@,
                FrameView::Malformed => frame is Err && frame->Err_0 is Protocol
                    && frame->Err_0->Protocol_0@ == undersized_frame_text() && final(self)@ == old(
                    self,
                )@,
                FrameView::Complete { object_id, opcode, payload, rest } => frame is Ok
                    && frame->Ok_0 is Some && frame->Ok_0->Some_0.0 == object_id
                    && frame->Ok_0->Some_0.1 == opcode && contents(frame->Ok_0->Some_0.2)
                    == payload && final(self)@ == rest,
            },
    {
        let avail: usize = bytes_len(&self.buffer);
        if avail < HEADER_SIZE {
            return Ok(None);
        }
        let header = bytes_as_slice(&self.buffer);
        let ghost stream = contents(self.buffer);
        assert(stream.skip(0) =~= stream);
        let object_id: u32 = word_at(header, 0);
        let word: u32 = word_at(header, 4);
        assert(word >> 16 == word / 65536 && word & 0xFFFF == word % 65536) by (bit_vector);
        let size: usize = (word >> 16) as usize;
        let opcode: u16 = (word & 0xFFFF) as u16;
        if size < HEADER_SIZE {
            return Err(WinWayError::undersized_frame());
        }
        if avail < size {
            return Ok(None);
        }
        bytes_advance(&mut self.buffer, HEADER_SIZE);
        let payload = bytes_split_to(&mut self.buffer, size - HEADER_SIZE);
        proof {
            assert(contents(payload) =~= stream.subrange(HEADER_SIZE as int, size as int));
            assert(contents(self.buffer) =~= stream.skip(size as int));
        }
        Ok(Some((object_id, opcode, payload)))
    }
}

impl Default for MessageDecoder {
    fn default() -> (decoder: MessageDecoder)
        ensures
            decoder@ == Seq::<u8>::empty(),
    {
        MessageDecoder::new()
    }
}

/// The types of the arguments, in order.
pub open spec fn kinds_of(args: Seq<ArgumentView>) -> Seq<ArgKind> {
    Seq::new(args.len(), |i: int| args[i].kind())
}

/// A header word gives back the opcode it was made with, and the size up
/// to sixteen bits.
pub proof fn lemma_header_word(size: nat, opcode: u16)
    ensures
        announced_size(header_word(size, opcode)) == size % 65536,
        announced_opcode(header_word(size, opcode)) == opcode,
{
    let low = size % 65536;
    assert(low * 65536 + opcode <= 0xFFFF_FFFF);
    assert((low * 65536 + opcode) / 65536 == low);
    assert((low * 65536 + opcode) % 65536 == opcode as int);
}

/// No header announces a frame of [`MAX_FRAME`] bytes or more, so the
/// decoder has no frame to refuse for its size.
pub proof fn lemma_announced_size_is_bounded(word: u32)
    ensures
        announced_size(word) < MAX_FRAME,
{
}

/// A frame is never shorter than its header, and the size in its header is
/// the number of its bytes: exactly where that number fits in sixteen bits,
/// and its low sixteen bits otherwise.
pub proof fn lemma_frame_announces_its_length(m: MessageView)
    ensures
        encode_message(m).len() >= HEADER_SIZE,
        announced_size(u32_from_le(encode_message(m).skip(4))) == encode_message(m).len() % 65536,
        encode_message(m).len() < 65536 ==> announced_size(
            u32_from_le(encode_message(m).skip(4)),
        ) == encode_message(m).len(),
{
    let payload = encode_args(m.args);
    let word = header_word(HEADER_SIZE as nat + payload.len(), m.opcode);
    let frame = encode_message(m);
    lemma_u32_le_round_trip(m.object_id, u32_le(word) + payload);
    lemma_u32_le_round_trip(word, payload);
    assert(frame =~= u32_le(m.object_id) + (u32_le(word) + payload));
    assert(frame.skip(4) =~= u32_le(word) + payload);
    lemma_header_word(HEADER_SIZE as nat + payload.len(), m.opcode);
}

/// However the bytes of one frame are cut in two, the first piece alone is
/// not yet a frame, and the two pieces taken in one after the other are
/// that frame and nothing more. It holds of every frame whose length fits
/// the header's sixteen bits.
pub proof fn lemma_frame_survives_any_cut(m: MessageView, cut: int)
    requires
        encode_message(m).len() < 65536,
        0 <= cut <= encode_message(m).len(),
    ensures
        cut < encode_message(m).len() ==> next_frame(encode_message(m).take(cut))
            == FrameView::NeedMore,
        next_frame(encode_message(m).take(cut) + encode_message(m).skip(cut))
            == (FrameView::Complete {
            object_id: m.object_id,
            opcode: m.opcode,
            payload: encode_args(m.args),
            rest: Seq::empty(),
        }),
        next_frame(Seq::empty()) == FrameView::NeedMore,
{
    let payload = encode_args(m.args);
    let word = header_word(HEADER_SIZE as nat + payload.len(), m.opcode);
    let frame = encode_message(m);
    lemma_frame_announces_its_length(m);
    lemma_header_word(HEADER_SIZE as nat + payload.len(), m.opcode);
    lemma_u32_le_round_trip(m.object_id, u32_le(word) + payload);
    lemma_u32_le_round_trip(word, payload);
    assert(frame =~= u32_le(m.object_id) + (u32_le(word) + payload));
    assert(frame.skip(4) =~= u32_le(word) + payload);
    assert(frame.take(cut) + frame.skip(cut) =~= frame);
    assert(frame.subrange(HEADER_SIZE as int, frame.len() as int) =~= payload);
    assert(frame.skip(frame.len() as int) =~= Seq::<u8>::empty());
    if HEADER_SIZE <= cut < frame.len() {
        let first = frame.take(cut);
        assert(first.skip(4)[0] == frame.skip(4)[0]);
        assert(first.skip(4)[1] == frame.skip(4)[1]);
        assert(first.skip(4)[2] == frame.skip(4)[2]);
        assert(first.skip(4)[3] == frame.skip(4)[3]);
    }
}

/// Length-prefixed bytes with a trailer and padding, written down and read
/// back, are the bytes, and what stood behind them still does.
proof fn lemma_bytes_round_trip(body: Seq<u8>, trailer: Seq<u8>, rest: Seq<u8>)
    requires
        body.len() + trailer.len() < 0x1_0000_0000,
    ensures
        ({
            let len = body.len() + trailer.len();
            let wire = u32_le(length_field(len)) + body + trailer + zeros(padding(len)) + rest;
            parse_bytes(wire, trailer.len()) == Some((body, rest))
        }),
{
    let len = body.len() + trailer.len();
    let tail = body + trailer + zeros(padding(len)) + rest;
    let wire = u32_le(length_field(len)) + body + trailer + zeros(padding(len)) + rest;
    lemma_u32_le_round_trip(length_field(len), tail);
    assert(wire =~= u32_le(length_field(len)) + tail);
    assert(u32_from_le(wire) == len);
    assert(wire.len() == 4 + len + padding(len) + rest.len());
    assert(wire.subrange(4, 4 + len as int - trailer.len() as int) =~= body);
    assert(wire.skip(4 + len as int + padding(len) as int) =~= rest);
}

/// A string, written down and read back, is itself.
proof fn lemma_string_round_trip(chars: Seq<char>, rest: Seq<u8>)
    requires
        encode_utf8(chars).len() + 1 < 0x1_0000_0000,
    ensures
        parse_string(encode_string(chars) + rest) == Some((chars, rest)),
{
    let bytes = encode_utf8(chars);
    vstd::utf8::encode_utf8_valid_utf8(chars);
    vstd::utf8::encode_utf8_decode_utf8(chars);
    if bytes.len() == 0 {
        let none = Seq::<u8>::empty();
        lemma_bytes_round_trip(none, none, rest);
        assert(bytes =~= none);
        assert(u32_le(length_field(0)) + none + none + zeros(padding(0)) + rest =~= u32_le(0)
            + rest);
    } else {
        let len = length_field(bytes.len() + 1);
        lemma_bytes_round_trip(bytes, seq![0u8], rest);
        assert(encode_string(chars) + rest =~= u32_le(len) + bytes + seq![0u8] + zeros(
            padding(len as nat),
        ) + rest);
    }
}

/// An array, written down and read back, is itself.
proof fn lemma_array_round_trip(data: Seq<u8>, rest: Seq<u8>)
    requires
        data.len() < 0x1_0000_0000,
    ensures
        parse_array(encode_array(data) + rest) == Some((data, rest)),
{
    let none = Seq::<u8>::empty();
    lemma_bytes_round_trip(data, none, rest);
    assert(u32_le(length_field(data.len())) + data + none + zeros(padding(data.len())) + rest
        =~= encode_array(data) + rest);
}

/// A signed word, written down and read back, is itself.
proof fn lemma_int_round_trip(v: i32, rest: Seq<u8>)
    ensures
        parse_int(i32_le(v) + rest) == Some((v, rest)),
{
    lemma_u32_le_round_trip(crate::le::i32_bits(v), rest);
    lemma_i32_bits_round_trip(v, 0);
}

/// An unsigned word, written down and read back, is itself.
proof fn lemma_uint_round_trip(v: u32, rest: Seq<u8>)
    ensures
        parse_uint(u32_le(v) + rest) == Some((v, rest)),
{
    lemma_u32_le_round_trip(v, rest);
}

/// One argument, written down and read back as its type, is itself, and
/// what stood behind it still does.
pub proof fn lemma_arg_round_trip(arg: ArgumentView, rest: Seq<u8>)
    requires
        arg.fits(),
    ensures
        parse_arg(arg.kind(), encode_arg(arg) + rest) == Some((arg, rest)),
{
    match arg {
        ArgumentView::Int(v) => lemma_int_round_trip(v, rest),
        ArgumentView::Fixed(v) => lemma_int_round_trip(v, rest),
        ArgumentView::Uint(v) => lemma_uint_round_trip(v, rest),
        ArgumentView::Object(v) => lemma_uint_round_trip(v, rest),
        ArgumentView::NewId(v) => lemma_uint_round_trip(v, rest),
        ArgumentView::Array(data) => lemma_array_round_trip(data, rest),
        ArgumentView::String(chars) => lemma_string_round_trip(chars, rest),
        ArgumentView::Fd => {
            assert(encode_arg(arg) + rest =~= rest);
        },
    }
}

/// Arguments of any types, written down one after the other and read back
/// as those types, are the same arguments, and what stood behind them
/// still does. A string comes back without its closing zero and without
/// padding. It holds wherever each length fits its 32-bit field.
pub proof fn lemma_args_round_trip(args: Seq<ArgumentView>, rest: Seq<u8>)
    requires
        forall|i: int| 0 <= i < args.len() ==> (#[trigger] args[i]).fits(),
    ensures
        parse_args(kinds_of(args), encode_args(args) + rest) == (Some(args), rest),
    decreases args.len(),
{
    if args.len() == 0 {
        assert(encode_args(args) + rest =~= rest);
        assert(args =~= Seq::<ArgumentView>::empty());
    } else {
        let tail = args.skip(1);
        let behind = encode_args(tail) + rest;
        assert(encode_args(args) + rest =~= encode_arg(args[0]) + behind);
        lemma_arg_round_trip(args[0], behind);
        assert(kinds_of(args)[0] == args[0].kind());
        assert(kinds_of(args).skip(1) =~= kinds_of(tail));
        assert forall|i: int| 0 <= i < tail.len() implies (#[trigger] tail[i]).fits() by {
            assert(tail[i] == args[i + 1]);
        }
        lemma_args_round_trip(tail, rest);
        assert(seq![args[0]] + tail =~= args);
    }
}

/// A message that is written down as a frame and read back, first as a
/// frame and then argument by argument, is the same message: the same
/// object, opcode and arguments, with nothing left over. It holds wherever
/// each length fits its field.
pub proof fn lemma_message_round_trip(m: MessageView)
    requires
        forall|i: int| 0 <= i < m.args.len() ==> (#[trigger] m.args[i]).fits(),
        encode_message(m).len() < 65536,
    ensures
        next_frame(encode_message(m)) == (FrameView::Complete {
            object_id: m.object_id,
            opcode: m.opcode,
            payload: encode_args(m.args),
            rest: Seq::empty(),
        }),
        parse_args(kinds_of(m.args), encode_args(m.args)) == (Some(m.args), Seq::<u8>::empty()),
{
    let frame = encode_message(m);
    lemma_frame_survives_any_cut(m, 0);
    assert(frame.take(0) + frame.skip(0) =~= frame);
    lemma_args_round_trip(m.args, Seq::empty());
    assert(encode_args(m.args) + Seq::<u8>::empty() =~= encode_args(m.args));
}

} // verus!
