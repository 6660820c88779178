//! The framing of the raw tunnel: for now every piece of the stream is one
//! message, passed through as it came.

use crate::buf::{
    bytes_as_slice, bytes_clear, bytes_extend_from_slice, bytes_is_empty, bytes_split,
    bytes_with_capacity, contents,
};
use bytes::BytesMut;
use vstd::prelude::*;
use vstd::slice::slice_to_vec;

verus! {

/// What a message of the tunnel can be.
#[derive(Debug, Clone, PartialEq, Eq)]
pub enum MessageType {
    /// The opening handshake.
    Hello,
    /// An update of the frame buffer.
    Buffer { width: u32, height: u32, data: Vec<u8> },
    /// A keyboard or mouse event.
    Input { event_type: u8, data: Vec<u8> },
    /// Window management.
    Window { action: WindowAction },
    /// Bytes passed through as they came.
    Raw(Vec<u8>),
}

/// What can be done to a window.
#[derive(Debug, Clone, PartialEq, Eq)]
pub enum WindowAction {
    Create { id: u32, width: u32, height: u32 },
    Destroy { id: u32 },
    Resize { id: u32, width: u32, height: u32 },
    Move { id: u32, x: i32, y: i32 },
}

/// A message of the tunnel.
#[derive(Debug, Clone, PartialEq, Eq)]
pub struct Message {
    pub msg_type: MessageType,
}

/// The bytes that a message is on the wire: those of a raw message, and
/// none for any other, which has no encoding yet.
pub open spec fn wire_bytes(msg: Message) -> Seq<u8> {
    match msg.msg_type {
        MessageType::Raw(data) => data@,
        _ => Seq::empty(),
    }
}

/// A decoder that takes the stream in pieces.
pub struct Decoder {
    buffer: BytesMut,
}

impl View for Decoder {
    type V = Seq<u8>;

    /// The bytes taken in and not yet handed out.
    closed spec fn view(&self) -> Seq<u8> {
        contents(self.buffer)
    }
}

impl Decoder {
    /// A decoder that holds no bytes.
    pub fn new() -> (decoder: Decoder)
        ensures
            decoder@ == Seq::<u8>::empty(),
    {
        Decoder { buffer: bytes_with_capacity(65536) }
    }

    /// Takes in the next piece of the stream.
    pub fn push(&mut self, data: &[u8])
        ensures
            final(self)@ == old(self)@ + data@,
    {
        bytes_extend_from_slice(&mut self.buffer, data);
    }

    /// Hands out everything that is buffered as one raw message, or
    /// nothing where nothing is buffered.
    pub fn decode(&mut self) -> (message: Option<Message>)
        ensures
            final(self)@ == Seq::<u8>::empty(),
            old(self)@.len() == 0 ==> message is None,
            old(self)@.len() > 0 ==> message is Some && message->Some_0.msg_type is Raw
                && message->Some_0.msg_type->Raw_0@ == old(self)@,
    {
        if bytes_is_empty(&self.buffer) {
            assert(self@ =~= Seq::<u8>::empty());
            return None;
        }
        let all = bytes_split(&mut self.buffer);
        let data = slice_to_vec(bytes_as_slice(&all));
        Some(Message { msg_type: MessageType::Raw(data) })
    }

    /// Drops every buffered byte.
    pub fn clear(&mut self)
        ensures
            final(self)@ == Seq::<u8>::empty(),
    {
        bytes_clear(&mut self.buffer);
    }
}

/// The encoder of outgoing messages.
pub struct Encoder;

impl Encoder {
    pub fn new() -> Encoder {
        Encoder
    }

    /// The bytes to send for a message.
    pub fn encode(&self, msg: &Message) -> (bytes: Vec<u8>)
        ensures
            bytes@ == wire_bytes(*msg),
    {
        match &msg.msg_type {
            MessageType::Raw(data) => slice_to_vec(data.as_slice()),
            _ => Vec::new(),
        }
    }
}

} // verus!
