//! `wl_compositor`, `wl_surface` and `wl_callback`.

use crate::wayland::wire::{Message, MessageView};
use vstd::prelude::*;

verus! {

/// `wl_compositor` request: create a surface.
pub const COMPOSITOR_CREATE_SURFACE: u16 = 0;

/// `wl_compositor` request: create a region.
pub const COMPOSITOR_CREATE_REGION: u16 = 1;

/// `wl_surface` requests.
pub const SURFACE_DESTROY: u16 = 0;

pub const SURFACE_ATTACH: u16 = 1;

pub const SURFACE_DAMAGE: u16 = 2;

pub const SURFACE_FRAME: u16 = 3;

pub const SURFACE_SET_OPAQUE_REGION: u16 = 4;

pub const SURFACE_SET_INPUT_REGION: u16 = 5;

pub const SURFACE_COMMIT: u16 = 6;

pub const SURFACE_SET_BUFFER_TRANSFORM: u16 = 7;

pub const SURFACE_SET_BUFFER_SCALE: u16 = 8;

pub const SURFACE_DAMAGE_BUFFER: u16 = 9;

pub const SURFACE_OFFSET: u16 = 10;

/// `wl_surface` events.
pub const SURFACE_EVENT_ENTER: u16 = 0;

pub const SURFACE_EVENT_LEAVE: u16 = 1;

pub const SURFACE_EVENT_PREFERRED_BUFFER_SCALE: u16 = 2;

pub const SURFACE_EVENT_PREFERRED_BUFFER_TRANSFORM: u16 = 3;

/// `wl_callback` event: the callback has fired.
pub const CALLBACK_EVENT_DONE: u16 = 0;

/// What the server keeps of a surface.
#[derive(Debug, Clone, Copy, PartialEq, Eq, Structural)]
pub struct Surface {
    pub id: u32,
    /// The buffer attached for the next commit.
    pub buffer_id: Option<u32>,
    pub buffer_x: i32,
    pub buffer_y: i32,
    pub committed: bool,
    /// The callback to fire at the next commit.
    pub frame_callback: Option<u32>,
}

impl Surface {
    /// A surface as `create_surface` leaves it: nothing attached, nothing
    /// committed, no callback asked for.
    pub open spec fn fresh(id: u32) -> Surface {
        Surface {
            id,
            buffer_id: None,
            buffer_x: 0,
            buffer_y: 0,
            committed: false,
            frame_callback: None,
        }
    }

    /// A surface with nothing attached.
    pub fn new(id: u32) -> (surface: Surface)
        ensures
            surface == Surface::fresh(id),
    {
        Surface {
            id,
            buffer_id: None,
            buffer_x: 0,
            buffer_y: 0,
            committed: false,
            frame_callback: None,
        }
    }
}

impl Default for Surface {
    fn default() -> (surface: Surface)
        ensures
            surface == Surface::fresh(0),
    {
        Surface::new(0)
    }
}

/// The `done` event of a callback.
pub open spec fn callback_done_event(callback_id: u32, time: u32) -> MessageView {
    MessageView::new(callback_id, CALLBACK_EVENT_DONE).uint(time)
}

/// The `enter` event of a surface.
pub open spec fn surface_enter_event(surface_id: u32, output_id: u32) -> MessageView {
    MessageView::new(surface_id, SURFACE_EVENT_ENTER).uint(output_id)
}

/// The event that fires a callback, with the time in milliseconds.
pub fn callback_done(callback_id: u32, time: u32) -> (event: Message)
    ensures
        event@ == callback_done_event(callback_id, time),
{
    Message::new(callback_id, CALLBACK_EVENT_DONE).uint(time)
}

/// The event that tells a surface that it has entered an output.
pub fn surface_enter(surface_id: u32, output_id: u32) -> (event: Message)
    ensures
        event@ == surface_enter_event(surface_id, output_id),
{
    Message::new(surface_id, SURFACE_EVENT_ENTER).uint(output_id)
}

} // verus!
