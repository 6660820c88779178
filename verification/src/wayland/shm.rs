//! `wl_shm`, `wl_shm_pool` and `wl_buffer`.

use crate::wayland::wire::{Message, MessageView};
use vstd::prelude::*;

verus! {

/// `wl_shm` request: create a pool.
pub const SHM_CREATE_POOL: u16 = 0;

/// `wl_shm` event: a pixel format is supported.
pub const SHM_EVENT_FORMAT: u16 = 0;

/// `wl_shm_pool` requests.
pub const POOL_CREATE_BUFFER: u16 = 0;

pub const POOL_DESTROY: u16 = 1;

pub const POOL_RESIZE: u16 = 2;

/// `wl_buffer` request: destroy the buffer.
pub const BUFFER_DESTROY: u16 = 0;

/// `wl_buffer` event: the server is done with the buffer.
pub const BUFFER_EVENT_RELEASE: u16 = 0;

/// The pixel formats that have a name here.
#[derive(Debug, Clone, Copy, PartialEq, Eq, Structural)]
pub enum ShmFormat {
    Argb8888,
    Xrgb8888,
    Rgb888,
    Bgr888,
    Rgba8888,
}

impl ShmFormat {
    /// The format's code on the wire.
    pub open spec fn spec_code(self) -> u32 {
        match self {
            ShmFormat::Argb8888 => 0,
            ShmFormat::Xrgb8888 => 1,
            ShmFormat::Rgb888 => 20,
            ShmFormat::Bgr888 => 21,
            ShmFormat::Rgba8888 => 0x3432_4152,
        }
    }

    /// The format's code on the wire.
    #[verifier::when_used_as_spec(spec_code)]
    pub fn code(self) -> (code: u32)
        ensures
            code == self.spec_code(),
    {
        match self {
            ShmFormat::Argb8888 => 0,
            ShmFormat::Xrgb8888 => 1,
            ShmFormat::Rgb888 => 20,
            ShmFormat::Bgr888 => 21,
            ShmFormat::Rgba8888 => 0x3432_4152,
        }
    }
}

/// The codes of the formats that are announced to every client.
pub open spec fn supported_formats_view() -> Seq<u32> {
    seq![ShmFormat::Argb8888.spec_code(), ShmFormat::Xrgb8888.spec_code()]
}

/// The codes of the formats that are announced to every client.
pub fn supported_formats() -> (formats: Vec<u32>)
    ensures
        formats@ == supported_formats_view(),
{
    let mut formats: Vec<u32> = Vec::new();
    formats.push(ShmFormat::Argb8888.code());
    formats.push(ShmFormat::Xrgb8888.code());
    assert(formats@ =~= supported_formats_view());
    formats
}

/// The `format` event.
pub open spec fn shm_format_event(shm_id: u32, format: u32) -> MessageView {
    MessageView::new(shm_id, SHM_EVENT_FORMAT).uint(format)
}

/// The `release` event.
pub open spec fn buffer_release_event(buffer_id: u32) -> MessageView {
    MessageView::new(buffer_id, BUFFER_EVENT_RELEASE)
}

/// The event that announces a supported format.
pub fn shm_format(shm_id: u32, format: u32) -> (event: Message)
    ensures
        event@ == shm_format_event(shm_id, format),
{
    Message::new(shm_id, SHM_EVENT_FORMAT).uint(format)
}

/// The event that gives a buffer back to the client.
pub fn buffer_release(buffer_id: u32) -> (event: Message)
    ensures
        event@ == buffer_release_event(buffer_id),
{
    Message::new(buffer_id, BUFFER_EVENT_RELEASE)
}

/// What the server keeps of a pool.
#[derive(Debug, Clone, Copy, PartialEq, Eq, Structural)]
pub struct ShmPool {
    pub id: u32,
    pub size: u32,
}

/// What the server keeps of a buffer: its place in its pool, its
/// geometry, and its pixels once they have arrived.
#[derive(Debug, PartialEq, Eq)]
pub struct Buffer {
    pub id: u32,
    pub pool_id: u32,
    pub offset: i32,
    pub width: i32,
    pub height: i32,
    pub stride: i32,
    pub format: u32,
    pub data: Vec<u8>,
}

/// A buffer as a mathematical value.
pub struct BufferView {
    pub id: u32,
    pub pool_id: u32,
    pub offset: i32,
    pub width: i32,
    pub height: i32,
    pub stride: i32,
    pub format: u32,
    pub data: Seq<u8>,
}

impl View for Buffer {
    type V = BufferView;

    open spec fn view(&self) -> BufferView {
        BufferView {
            id: self.id,
            pool_id: self.pool_id,
            offset: self.offset,
            width: self.width,
            height: self.height,
            stride: self.stride,
            format: self.format,
            data: self.data@,
        }
    }
}

impl BufferView {
    /// A buffer as `create_buffer` leaves it: the geometry, and no pixels.
    pub open spec fn fresh(
        id: u32,
        pool_id: u32,
        offset: i32,
        width: i32,
        height: i32,
        stride: i32,
        format: u32,
    ) -> BufferView {
        BufferView { id, pool_id, offset, width, height, stride, format, data: Seq::empty() }
    }
}

impl Buffer {
    /// A buffer without pixels.
    pub fn new(
        id: u32,
        pool_id: u32,
        offset: i32,
        width: i32,
        height: i32,
        stride: i32,
        format: u32,
    ) -> (buffer: Buffer)
        ensures
            buffer@ == BufferView::fresh(id, pool_id, offset, width, height, stride, format),
    {
        Buffer { id, pool_id, offset, width, height, stride, format, data: Vec::new() }
    }
}

} // verus!
