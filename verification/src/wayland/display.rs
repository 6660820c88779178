//! `wl_display`: the object that every connection starts with.

use crate::buf::contents;
use crate::wayland::wire::{parse_uint, read_uint, Message, MessageView};
use bytes::BytesMut;
use vstd::prelude::*;

verus! {

/// Request: ask for a callback once all earlier requests are handled.
pub const REQUEST_SYNC: u16 = 0;

/// Request: create the registry.
pub const REQUEST_GET_REGISTRY: u16 = 1;

/// Event: a fatal protocol error.
pub const EVENT_ERROR: u16 = 0;

/// Event: an id is free for reuse.
pub const EVENT_DELETE_ID: u16 = 1;

/// The id of the display object.
pub const DISPLAY_ID: u32 = 1;

/// A request to the display, with its arguments.
#[derive(Debug, Clone, Copy, PartialEq, Eq, Structural)]
pub enum DisplayRequest {
    Sync { callback_id: u32 },
    GetRegistry { registry_id: u32 },
}

/// The request that an opcode and a payload stand for, and the payload
/// that is left: none for an unknown opcode or a payload that is cut
/// short, and then nothing is taken off the payload.
pub open spec fn parse_display_request(opcode: u16, payload: Seq<u8>) -> (
    Option<DisplayRequest>,
    Seq<u8>,
) {
    if opcode == REQUEST_SYNC {
        match parse_uint(payload) {
            Some((callback_id, rest)) => (Some(DisplayRequest::Sync { callback_id }), rest),
            None => (None, payload),
        }
    } else if opcode == REQUEST_GET_REGISTRY {
        match parse_uint(payload) {
            Some((registry_id, rest)) => (
                Some(DisplayRequest::GetRegistry { registry_id }),
                rest,
            ),
            None => (None, payload),
        }
    } else {
        (None, payload)
    }
}

/// The `error` event.
pub open spec fn error_event(object_id: u32, code: u32, message: Seq<char>) -> MessageView {
    MessageView::new(DISPLAY_ID, EVENT_ERROR).uint(object_id).uint(code).string(message)
}

/// The `delete_id` event.
pub open spec fn delete_id_event(id: u32) -> MessageView {
    MessageView::new(DISPLAY_ID, EVENT_DELETE_ID).uint(id)
}

/// The display interface.
pub struct WlDisplay;

impl WlDisplay {
    /// Reads a request to the display off a payload.
    pub fn handle_request(opcode: u16, payload: &mut BytesMut) -> (request: Option<
        DisplayRequest,
    >)
        ensures
            (request, contents(*final(payload))) == parse_display_request(
                opcode,
                contents(*old(payload)),
            ),
    {
        if opcode == REQUEST_SYNC {
            match read_uint(payload) {
                Some(callback_id) => Some(DisplayRequest::Sync { callback_id }),
                None => None,
            }
        } else if opcode == REQUEST_GET_REGISTRY {
            match read_uint(payload) {
                Some(registry_id) => Some(DisplayRequest::GetRegistry { registry_id }),
                None => None,
            }
        } else {
            None
        }
    }

    /// The event that tells the client of a fatal error on an object.
    pub fn error(object_id: u32, code: u32, message: &str) -> (event: Message)
        ensures
            event@ == error_event(object_id, code, message@),
    {
        Message::new(DISPLAY_ID, EVENT_ERROR).uint(object_id).uint(code).string(message)
    }

    /// The event that tells the client that an id is free again.
    pub fn delete_id(id: u32) -> (event: Message)
        ensures
            event@ == delete_id_event(id),
    {
        Message::new(DISPLAY_ID, EVENT_DELETE_ID).uint(id)
    }
}

} // verus!
