//! A connection as a mathematical value, and what each request does to it.
//!
//! The functions here are the reference that the engine is verified
//! against. A request either leaves a new state, or is cut short: its
//! payload ends before its arguments do, which ends the connection.

use crate::le::{i32_bits, u32_from_le};
use crate::wayland::compositor::{
    callback_done_event, Surface, COMPOSITOR_CREATE_REGION, COMPOSITOR_CREATE_SURFACE,
    SURFACE_ATTACH, SURFACE_COMMIT, SURFACE_DESTROY, SURFACE_FRAME,
};
use crate::wayland::display::{delete_id_event, REQUEST_GET_REGISTRY, REQUEST_SYNC};
use crate::wayland::object::{Interface, Object, ObjectMapView};
use crate::wayland::registry::{global_event, standard_globals_view, GlobalView, REQUEST_BIND};
use crate::wayland::shm::{
    buffer_release_event, shm_format_event, supported_formats_view, BufferView, ShmPool,
    BUFFER_DESTROY, POOL_CREATE_BUFFER, POOL_DESTROY, POOL_RESIZE, SHM_CREATE_POOL,
};
use crate::wayland::wire::{
    next_frame, parse_int, parse_string, parse_uint, FrameView, MessageView,
};
use crate::wayland::xdg_shell::{
    toplevel_configure_event, xdg_surface_configure_event, ToplevelState, XdgSurface,
    XdgToplevelView, INITIAL_HEIGHT, INITIAL_WIDTH, TOPLEVEL_DESTROY, TOPLEVEL_SET_APP_ID,
    TOPLEVEL_SET_TITLE, WM_BASE_CREATE_POSITIONER, WM_BASE_DESTROY, WM_BASE_GET_XDG_SURFACE,
    WM_BASE_PONG, XDG_SURFACE_ACK_CONFIGURE, XDG_SURFACE_DESTROY, XDG_SURFACE_GET_TOPLEVEL,
};
use vstd::prelude::*;

verus! {

/// `wl_seat` request: create the pointer.
pub const SEAT_GET_POINTER: u16 = 0;

/// `wl_seat` request: create the keyboard.
pub const SEAT_GET_KEYBOARD: u16 = 1;

/// `wl_seat` event: what the seat has.
pub const SEAT_EVENT_CAPABILITIES: u16 = 0;

/// `wl_seat` event: what the seat is called.
pub const SEAT_EVENT_NAME: u16 = 1;

/// The capabilities of the seat: a pointer and a keyboard.
pub const SEAT_CAPABILITIES: u32 = 3;

/// `wl_pointer` event: the pointer has moved.
pub const POINTER_EVENT_MOTION: u16 = 2;

/// `wl_pointer` event: a button went down or up.
pub const POINTER_EVENT_BUTTON: u16 = 3;

/// `wl_keyboard` event: a key went down or up.
pub const KEYBOARD_EVENT_KEY: u16 = 3;

/// The length of the header of a sideband pixel frame.
pub const PIXEL_HEADER_SIZE: usize = 24;

/// The name that the seat goes by.
pub open spec fn seat_name() -> Seq<char> {
    "win-way-seat"@
}

/// The four bytes that open a sideband pixel frame: `PIXL`.
pub open spec fn pixel_magic() -> Seq<u8> {
    seq![0x50u8, 0x49u8, 0x58u8, 0x4Cu8]
}

/// Something for the renderer to act on, as a mathematical value.
pub enum RenderEventView {
    SurfaceCreated { id: u32 },
    SurfaceCommit { surface_id: u32, width: i32, height: i32, data: Seq<u8> },
    SurfaceDestroyed { id: u32 },
    TitleChanged { surface_id: u32, title: Seq<char> },
    PixelData { surface_id: u32, width: u32, height: u32, format: u32, data: Seq<u8> },
}

/// The serial that is `count` allocations after `serial`. The counter wraps
/// at thirty-two bits.
pub open spec fn serial_after(serial: u32, count: nat) -> u32 {
    ((serial + count) % 0x1_0000_0000) as u32
}

/// The state of one connection.
#[verifier::ext_equal]
pub struct ClientView {
    pub id: u32,
    /// The bytes received and not yet handled.
    pub buffered: Seq<u8>,
    pub objects: ObjectMapView,
    pub surfaces: Map<u32, Surface>,
    pub pools: Map<u32, ShmPool>,
    pub buffers: Map<u32, BufferView>,
    pub xdg_surfaces: Map<u32, XdgSurface>,
    pub toplevels: Map<u32, XdgToplevelView>,
    pub registry_id: Option<u32>,
    pub shm_id: Option<u32>,
    pub compositor_id: Option<u32>,
    pub wm_base_id: Option<u32>,
    pub output_id: Option<u32>,
    pub seat_id: Option<u32>,
    pub keyboard_id: Option<u32>,
    pub pointer_id: Option<u32>,
    /// The events for the client, oldest first.
    pub outgoing: Seq<MessageView>,
    /// The events for the renderer, oldest first.
    pub render_events: Seq<RenderEventView>,
}

/// A state and the serial counter beside it.
pub struct Handled {
    pub state: ClientView,
    pub serial: u32,
}

/// Why a connection cannot go on.
pub enum Failure {
    /// A frame header announces less than its own size.
    UndersizedFrame,
    /// A request's payload ends before its arguments do.
    TruncatedPayload,
}

/// A state, the serial counter beside it, and whether the connection has
/// failed.
pub struct Drained {
    pub state: ClientView,
    pub serial: u32,
    pub failure: Option<Failure>,
}

/// What one step leaves: a state, the serial counter beside it, whether
/// the connection has failed, and whether there may be more to do.
pub struct Stepped {
    pub state: ClientView,
    pub serial: u32,
    pub failure: Option<Failure>,
    pub more: bool,
}

/// What stands at the head of the received bytes.
pub enum Step {
    /// Nothing whole yet.
    Wait,
    /// A Wayland header that announces less than its own size.
    Malformed,
    /// A sideband pixel frame.
    Pixel { surface_id: u32, width: u32, height: u32, format: u32, data: Seq<u8>, rest: Seq<u8> },
    /// A Wayland request.
    Request { object_id: u32, opcode: u16, payload: Seq<u8>, rest: Seq<u8> },
}

/// What stands at the head of the received bytes. Bytes that open with the
/// sideband magic are a pixel frame, and are waited for until header and
/// pixels are all there; a partial sideband header is never read as a
/// Wayland header. Anything else is a Wayland frame.
pub open spec fn next_step(buffered: Seq<u8>) -> Step {
    if buffered.len() >= 4 && buffered.take(4) == pixel_magic() {
        if buffered.len() < PIXEL_HEADER_SIZE {
            Step::Wait
        } else {
            let len = u32_from_le(buffered.skip(20)) as nat;
            if buffered.len() < PIXEL_HEADER_SIZE + len {
                Step::Wait
            } else {
                Step::Pixel {
                    surface_id: u32_from_le(buffered.skip(4)),
                    width: u32_from_le(buffered.skip(8)),
                    height: u32_from_le(buffered.skip(12)),
                    format: u32_from_le(buffered.skip(16)),
                    data: buffered.subrange(
                        PIXEL_HEADER_SIZE as int,
                        PIXEL_HEADER_SIZE + len as int,
                    ),
                    rest: buffered.skip(PIXEL_HEADER_SIZE + len as int),
                }
            }
        }
    } else {
        match next_frame(buffered) {
            FrameView::NeedMore => Step::Wait,
            FrameView::Malformed => Step::Malformed,
            FrameView::Complete { object_id, opcode, payload, rest } => Step::Request {
                object_id,
                opcode,
                payload,
                rest,
            },
        }
    }
}

/// The interface that a global's name stands for, if it is one on offer.
pub open spec fn bind_target(interface: Seq<char>) -> Option<Interface> {
    if interface == "wl_compositor"@ {
        Some(Interface::Compositor)
    } else if interface == "wl_subcompositor"@ {
        Some(Interface::Subcompositor)
    } else if interface == "wl_shm"@ {
        Some(Interface::Shm)
    } else if interface == "xdg_wm_base"@ {
        Some(Interface::XdgWmBase)
    } else if interface == "wl_seat"@ {
        Some(Interface::Seat)
    } else if interface == "wl_output"@ {
        Some(Interface::Output)
    } else if interface == "wl_data_device_manager"@ {
        Some(Interface::DataDeviceManager)
    } else {
        None
    }
}

/// The `global` events for a list of globals, in order.
pub open spec fn global_events(registry_id: u32, globals: Seq<GlobalView>) -> Seq<MessageView> {
    Seq::new(
        globals.len(),
        |i: int|
            global_event(registry_id, globals[i].name, globals[i].interface, globals[i].version),
    )
}

/// The `format` events for a list of formats, in order.
pub open spec fn format_events(shm_id: u32, formats: Seq<u32>) -> Seq<MessageView> {
    Seq::new(formats.len(), |i: int| shm_format_event(shm_id, formats[i]))
}

/// The `capabilities` event of the seat.
pub open spec fn seat_capabilities_event(seat_id: u32) -> MessageView {
    MessageView::new(seat_id, SEAT_EVENT_CAPABILITIES).uint(SEAT_CAPABILITIES)
}

/// The `name` event of the seat.
pub open spec fn seat_name_event(seat_id: u32) -> MessageView {
    MessageView::new(seat_id, SEAT_EVENT_NAME).string(seat_name())
}

/// The `key` event of the keyboard.
pub open spec fn key_event(
    keyboard_id: u32,
    serial: u32,
    time: u32,
    key: u32,
    state: u32,
) -> MessageView {
    MessageView::new(keyboard_id, KEYBOARD_EVENT_KEY).uint(serial).uint(time).uint(key).uint(state)
}

/// The `motion` event of the pointer; the coordinates have eight
/// fractional bits.
pub open spec fn motion_event(pointer_id: u32, time: u32, x: i32, y: i32) -> MessageView {
    MessageView::new(pointer_id, POINTER_EVENT_MOTION).uint(time).fixed(x).fixed(y)
}

/// The `button` event of the pointer.
pub open spec fn button_event(
    pointer_id: u32,
    serial: u32,
    time: u32,
    button: u32,
    state: u32,
) -> MessageView {
    MessageView::new(pointer_id, POINTER_EVENT_BUTTON).uint(serial).uint(time).uint(button).uint(
        state,
    )
}

impl ClientView {
    /// A connection that has seen nothing: the display object and no more.
    pub open spec fn initial(id: u32) -> ClientView {
        ClientView {
            id,
            buffered: Seq::empty(),
            objects: crate::wayland::object::initial_objects(),
            surfaces: Map::empty(),
            pools: Map::empty(),
            buffers: Map::empty(),
            xdg_surfaces: Map::empty(),
            toplevels: Map::empty(),
            registry_id: None,
            shm_id: None,
            compositor_id: None,
            wm_base_id: None,
            output_id: None,
            seat_id: None,
            keyboard_id: None,
            pointer_id: None,
            outgoing: Seq::empty(),
            render_events: Seq::empty(),
        }
    }

    /// Every object is filed under its own id, and the cursor for
    /// server-side ids is in the server's range.
    pub open spec fn wf(self) -> bool {
        self.objects.wf()
    }

    /// With more bytes received.
    pub open spec fn received(self, data: Seq<u8>) -> ClientView {
        ClientView { buffered: self.buffered + data, ..self }
    }

    /// With other bytes waiting.
    pub open spec fn with_buffered(self, buffered: Seq<u8>) -> ClientView {
        ClientView { buffered, ..self }
    }

    /// With an object filed under its id, in place of whatever was there.
    pub open spec fn register(self, id: u32, interface: Interface, version: u32) -> ClientView {
        ClientView {
            objects: ObjectMapView {
                objects: self.objects.objects.insert(id, (Object { id, interface, version })),
                ..self.objects
            },
            ..self
        }
    }

    /// With an object taken out.
    pub open spec fn unregister(self, id: u32) -> ClientView {
        ClientView {
            objects: ObjectMapView { objects: self.objects.objects.remove(id), ..self.objects },
            ..self
        }
    }

    /// With one more event for the client.
    pub open spec fn send(self, event: MessageView) -> ClientView {
        ClientView { outgoing: self.outgoing.push(event), ..self }
    }

    /// With more events for the client.
    pub open spec fn send_all(self, events: Seq<MessageView>) -> ClientView {
        ClientView { outgoing: self.outgoing + events, ..self }
    }

    /// With one more event for the renderer.
    pub open spec fn emit(self, event: RenderEventView) -> ClientView {
        ClientView { render_events: self.render_events.push(event), ..self }
    }

    /// With the events for the client handed over.
    pub open spec fn without_outgoing(self) -> ClientView {
        ClientView { outgoing: Seq::empty(), ..self }
    }

    /// With the events for the renderer handed over.
    pub open spec fn without_render_events(self) -> ClientView {
        ClientView { render_events: Seq::empty(), ..self }
    }

    /// The interface of the object that a request is for.
    pub open spec fn interface_of(self, object_id: u32) -> Option<Interface> {
        if self.objects.objects.contains_key(object_id) {
            Some(self.objects.objects[object_id].interface)
        } else {
            None
        }
    }

    /// `wl_display.sync`: the callback is registered, fires at once and is
    /// deleted.
    pub open spec fn sync(self, callback_id: u32, time: u32) -> ClientView {
        self.register(callback_id, Interface::Callback, 1).send(
            callback_done_event(callback_id, time),
        ).send(delete_id_event(callback_id))
    }

    /// `wl_display.get_registry`: the registry is registered and every
    /// global is announced on it.
    pub open spec fn get_registry(self, registry_id: u32) -> ClientView {
        ClientView { registry_id: Some(registry_id), ..self }.register(
            registry_id,
            Interface::Registry,
            1,
        ).send_all(global_events(registry_id, standard_globals_view()))
    }

    /// A request to the display.
    pub open spec fn display_request(self, opcode: u16, payload: Seq<u8>, time: u32) -> Option<
        ClientView,
    > {
        if opcode == REQUEST_SYNC {
            match parse_uint(payload) {
                Some((callback_id, _)) => Some(self.sync(callback_id, time)),
                None => None,
            }
        } else if opcode == REQUEST_GET_REGISTRY {
            match parse_uint(payload) {
                Some((registry_id, _)) => Some(self.get_registry(registry_id)),
                None => None,
            }
        } else {
            Some(self)
        }
    }

    /// `wl_registry.bind`: the new object is registered with the interface
    /// that the name stands for. A shm announces its formats, a seat its
    /// capabilities and its name. An unknown name changes nothing.
    pub open spec fn bind(
        self,
        name: u32,
        interface: Seq<char>,
        version: u32,
        id: u32,
    ) -> ClientView {
        match bind_target(interface) {
            Some(Interface::Compositor) => ClientView { compositor_id: Some(id), ..self }.register(
                id,
                Interface::Compositor,
                version,
            ),
            Some(Interface::Shm) => ClientView { shm_id: Some(id), ..self }.register(
                id,
                Interface::Shm,
                version,
            ).send_all(format_events(id, supported_formats_view())),
            Some(Interface::XdgWmBase) => ClientView { wm_base_id: Some(id), ..self }.register(
                id,
                Interface::XdgWmBase,
                version,
            ),
            Some(Interface::Seat) => ClientView { seat_id: Some(id), ..self }.register(
                id,
                Interface::Seat,
                version,
            ).send(seat_capabilities_event(id)).send(seat_name_event(id)),
            Some(Interface::Output) => ClientView { output_id: Some(id), ..self }.register(
                id,
                Interface::Output,
                version,
            ),
            Some(target) => self.register(id, target, version),
            None => self,
        }
    }

    /// A request to the registry.
    pub open spec fn registry_request(self, opcode: u16, payload: Seq<u8>) -> Option<ClientView> {
        if opcode == REQUEST_BIND {
            match parse_uint(payload) {
                Some((name, after_name)) => match parse_string(after_name) {
                    Some((interface, after_interface)) => match parse_uint(after_interface) {
                        Some((version, after_version)) => match parse_uint(after_version) {
                            Some((id, _)) => Some(self.bind(name, interface, version, id)),
                            None => None,
                        },
                        None => None,
                    },
                    None => None,
                },
                None => None,
            }
        } else {
            Some(self)
        }
    }

    /// `wl_compositor.create_surface`.
    pub open spec fn create_surface(self, surface_id: u32) -> ClientView {
        ClientView {
            surfaces: self.surfaces.insert(surface_id, Surface::fresh(surface_id)),
            ..self.register(surface_id, Interface::Surface, 5)
        }.emit(RenderEventView::SurfaceCreated { id: surface_id })
    }

    /// A request to the compositor.
    pub open spec fn compositor_request(self, opcode: u16, payload: Seq<u8>) -> Option<ClientView> {
        if opcode == COMPOSITOR_CREATE_SURFACE {
            match parse_uint(payload) {
                Some((surface_id, _)) => Some(self.create_surface(surface_id)),
                None => None,
            }
        } else if opcode == COMPOSITOR_CREATE_REGION {
            match parse_uint(payload) {
                Some((region_id, _)) => Some(self.register(region_id, Interface::Region, 1)),
                None => None,
            }
        } else {
            Some(self)
        }
    }

    /// `wl_surface.destroy`.
    pub open spec fn destroy_surface(self, surface_id: u32) -> ClientView {
        ClientView {
            surfaces: self.surfaces.remove(surface_id),
            ..self.unregister(surface_id)
        }.emit(RenderEventView::SurfaceDestroyed { id: surface_id })
    }

    /// `wl_surface.attach`: the buffer is remembered for the next commit;
    /// buffer 0 detaches.
    pub open spec fn attach(self, surface_id: u32, buffer_id: u32, x: i32, y: i32) -> ClientView {
        if self.surfaces.contains_key(surface_id) {
            let surface = Surface {
                buffer_id: if buffer_id == 0 {
                    None
                } else {
                    Some(buffer_id)
                },
                buffer_x: x,
                buffer_y: y,
                ..self.surfaces[surface_id]
            };
            ClientView { surfaces: self.surfaces.insert(surface_id, surface), ..self }
        } else {
            self
        }
    }

    /// `wl_surface.frame`: the callback is registered and remembered for
    /// the next commit.
    pub open spec fn frame(self, surface_id: u32, callback_id: u32) -> ClientView {
        let registered = self.register(callback_id, Interface::Callback, 1);
        if self.surfaces.contains_key(surface_id) {
            let surface = Surface {
                frame_callback: Some(callback_id),
                ..self.surfaces[surface_id]
            };
            ClientView { surfaces: self.surfaces.insert(surface_id, surface), ..registered }
        } else {
            registered
        }
    }

    /// The buffer that a commit of this surface hands to the renderer: the
    /// attached one, where it exists.
    pub open spec fn committed_buffer(self, surface_id: u32) -> Option<u32> {
        if self.surfaces.contains_key(surface_id) {
            match self.surfaces[surface_id].buffer_id {
                Some(buffer_id) => if self.buffers.contains_key(buffer_id) {
                    Some(buffer_id)
                } else {
                    None
                },
                None => None,
            }
        } else {
            None
        }
    }

    /// The first half of a commit: the attached buffer's pixels go to the
    /// renderer and the buffer goes back to the client.
    pub open spec fn present(self, surface_id: u32) -> ClientView {
        match self.committed_buffer(surface_id) {
            Some(buffer_id) => {
                let buffer = self.buffers[buffer_id];
                self.emit(
                    RenderEventView::SurfaceCommit {
                        surface_id,
                        width: buffer.width,
                        height: buffer.height,
                        data: buffer.data,
                    },
                ).send(buffer_release_event(buffer_id))
            },
            None => self,
        }
    }

    /// The second half of a commit: a pending frame callback fires and is
    /// deleted.
    pub open spec fn fire_frame_callback(self, surface_id: u32, time: u32) -> ClientView {
        if self.surfaces.contains_key(surface_id) {
            match self.surfaces[surface_id].frame_callback {
                Some(callback_id) => self.send(callback_done_event(callback_id, time)).send(
                    delete_id_event(callback_id),
                ),
                None => self,
            }
        } else {
            self
        }
    }

    /// `wl_surface.commit`: the surface counts as committed; then the
    /// buffer is presented and released, then the frame callback fires.
    pub open spec fn commit(self, surface_id: u32, time: u32) -> ClientView {
        if self.surfaces.contains_key(surface_id) {
            let surface = Surface {
                committed: true,
                frame_callback: None,
                ..self.surfaces[surface_id]
            };
            ClientView {
                surfaces: self.surfaces.insert(surface_id, surface),
                ..self.present(surface_id).fire_frame_callback(surface_id, time)
            }
        } else {
            self
        }
    }

    /// A request to a surface.
    pub open spec fn surface_request(
        self,
        surface_id: u32,
        opcode: u16,
        payload: Seq<u8>,
        time: u32,
    ) -> Option<ClientView> {
        if opcode == SURFACE_DESTROY {
            Some(self.destroy_surface(surface_id))
        } else if opcode == SURFACE_ATTACH {
            match parse_uint(payload) {
                Some((buffer_id, after_buffer)) => match parse_int(after_buffer) {
                    Some((x, after_x)) => match parse_int(after_x) {
                        Some((y, _)) => Some(self.attach(surface_id, buffer_id, x, y)),
                        None => None,
                    },
                    None => None,
                },
                None => None,
            }
        } else if opcode == SURFACE_FRAME {
            match parse_uint(payload) {
                Some((callback_id, _)) => Some(self.frame(surface_id, callback_id)),
                None => None,
            }
        } else if opcode == SURFACE_COMMIT {
            Some(self.commit(surface_id, time))
        } else {
            Some(self)
        }
    }

    /// `wl_shm.create_pool`. No file descriptor comes with it.
    pub open spec fn create_pool(self, pool_id: u32, size: u32) -> ClientView {
        ClientView {
            pools: self.pools.insert(pool_id, (ShmPool { id: pool_id, size })),
            ..self.register(pool_id, Interface::ShmPool, 1)
        }
    }

    /// A request to the shm.
    pub open spec fn shm_request(self, opcode: u16, payload: Seq<u8>) -> Option<ClientView> {
        if opcode == SHM_CREATE_POOL {
            match parse_uint(payload) {
                Some((pool_id, after_pool)) => match parse_uint(after_pool) {
                    Some((size, _)) => Some(self.create_pool(pool_id, size)),
                    None => None,
                },
                None => None,
            }
        } else {
            Some(self)
        }
    }

    /// `wl_shm_pool.create_buffer`: the geometry is kept; the pixels come
    /// later.
    pub open spec fn create_buffer(self, buffer: BufferView) -> ClientView {
        ClientView {
            buffers: self.buffers.insert(buffer.id, buffer),
            ..self.register(buffer.id, Interface::Buffer, 1)
        }
    }

    /// `wl_shm_pool.destroy`.
    pub open spec fn destroy_pool(self, pool_id: u32) -> ClientView {
        ClientView { pools: self.pools.remove(pool_id), ..self.unregister(pool_id) }
    }

    /// `wl_shm_pool.resize`.
    pub open spec fn resize_pool(self, pool_id: u32, size: i32) -> ClientView {
        if self.pools.contains_key(pool_id) {
            ClientView {
                pools: self.pools.insert(pool_id, (ShmPool { id: pool_id, size: i32_bits(size) })),
                ..self
            }
        } else {
            self
        }
    }

    /// A request to a pool.
    pub open spec fn pool_request(self, pool_id: u32, opcode: u16, payload: Seq<u8>) -> Option<
        ClientView,
    > {
        if opcode == POOL_CREATE_BUFFER {
            match parse_uint(payload) {
                Some((buffer_id, after_id)) => match parse_int(after_id) {
                    Some((offset, after_offset)) => match parse_int(after_offset) {
                        Some((width, after_width)) => match parse_int(after_width) {
                            Some((height, after_height)) => match parse_int(after_height) {
                                Some((stride, after_stride)) => match parse_uint(after_stride) {
                                    Some((format, _)) => Some(
                                        self.create_buffer(
                                            BufferView::fresh(
                                                buffer_id,
                                                pool_id,
                                                offset,
                                                width,
                                                height,
                                                stride,
                                                format,
                                            ),
                                        ),
                                    ),
                                    None => None,
                                },
                                None => None,
                            },
                            None => None,
                        },
                        None => None,
                    },
                    None => None,
                },
                None => None,
            }
        } else if opcode == POOL_DESTROY {
            Some(self.destroy_pool(pool_id))
        } else if opcode == POOL_RESIZE {
            match parse_int(payload) {
                Some((size, _)) => Some(self.resize_pool(pool_id, size)),
                None => None,
            }
        } else {
            Some(self)
        }
    }

    /// `wl_buffer.destroy`.
    pub open spec fn destroy_buffer(self, buffer_id: u32) -> ClientView {
        ClientView { buffers: self.buffers.remove(buffer_id), ..self.unregister(buffer_id) }
    }

    /// A request to a buffer.
    pub open spec fn buffer_request(self, buffer_id: u32, opcode: u16) -> ClientView {
        if opcode == BUFFER_DESTROY {
            self.destroy_buffer(buffer_id)
        } else {
            self
        }
    }

    /// `xdg_wm_base.get_xdg_surface`: the role object is bound to its
    /// surface.
    pub open spec fn get_xdg_surface(self, xdg_surface_id: u32, surface_id: u32) -> ClientView {
        ClientView {
            xdg_surfaces: self.xdg_surfaces.insert(
                xdg_surface_id,
                (XdgSurface { id: xdg_surface_id, surface_id, toplevel_id: None }),
            ),
            ..self.register(xdg_surface_id, Interface::XdgSurface, 3)
        }
    }

    /// A request to the window manager base.
    pub open spec fn wm_base_request(self, opcode: u16, payload: Seq<u8>) -> Option<ClientView> {
        if opcode == WM_BASE_DESTROY {
            Some(ClientView { wm_base_id: None, ..self })
        } else if opcode == WM_BASE_CREATE_POSITIONER {
            match parse_uint(payload) {
                Some((positioner_id, _)) => Some(
                    self.register(positioner_id, Interface::XdgPositioner, 3),
                ),
                None => None,
            }
        } else if opcode == WM_BASE_GET_XDG_SURFACE {
            match parse_uint(payload) {
                Some((xdg_surface_id, after_id)) => match parse_uint(after_id) {
                    Some((surface_id, _)) => Some(self.get_xdg_surface(xdg_surface_id, surface_id)),
                    None => None,
                },
                None => None,
            }
        } else if opcode == WM_BASE_PONG {
            match parse_uint(payload) {
                Some(_) => Some(self),
                None => None,
            }
        } else {
            Some(self)
        }
    }

    /// `xdg_surface.destroy`.
    pub open spec fn destroy_xdg_surface(self, xdg_surface_id: u32) -> ClientView {
        ClientView {
            xdg_surfaces: self.xdg_surfaces.remove(xdg_surface_id),
            ..self.unregister(xdg_surface_id)
        }
    }

    /// `xdg_surface.get_toplevel`: the toplevel is created and at once
    /// configured, first with a size and the activated state, then with
    /// the serial that closes the round.
    pub open spec fn get_toplevel(
        self,
        xdg_surface_id: u32,
        toplevel_id: u32,
        serial: u32,
    ) -> ClientView {
        let registered = self.register(toplevel_id, Interface::XdgToplevel, 3);
        let bound = if self.xdg_surfaces.contains_key(xdg_surface_id) {
            self.xdg_surfaces.insert(
                xdg_surface_id,
                (XdgSurface {
                    toplevel_id: Some(toplevel_id),
                    ..self.xdg_surfaces[xdg_surface_id]
                }),
            )
        } else {
            self.xdg_surfaces
        };
        ClientView {
            xdg_surfaces: bound,
            toplevels: self.toplevels.insert(
                toplevel_id,
                XdgToplevelView::fresh(toplevel_id, xdg_surface_id),
            ),
            ..registered
        }.send(
            toplevel_configure_event(
                toplevel_id,
                INITIAL_WIDTH,
                INITIAL_HEIGHT,
                seq![ToplevelState::Activated],
            ),
        ).send(xdg_surface_configure_event(xdg_surface_id, serial))
    }

    /// A request to an `xdg_surface`. Only `get_toplevel` takes a serial.
    pub open spec fn xdg_surface_request(
        self,
        xdg_surface_id: u32,
        opcode: u16,
        payload: Seq<u8>,
        serial: u32,
    ) -> Option<Handled> {
        if opcode == XDG_SURFACE_DESTROY {
            Some(Handled { state: self.destroy_xdg_surface(xdg_surface_id), serial })
        } else if opcode == XDG_SURFACE_GET_TOPLEVEL {
            match parse_uint(payload) {
                Some((toplevel_id, _)) => Some(
                    Handled {
                        state: self.get_toplevel(xdg_surface_id, toplevel_id, serial),
                        serial: serial_after(serial, 1),
                    },
                ),
                None => None,
            }
        } else if opcode == XDG_SURFACE_ACK_CONFIGURE {
            match parse_uint(payload) {
                Some(_) => Some(Handled { state: self, serial }),
                None => None,
            }
        } else {
            Some(Handled { state: self, serial })
        }
    }

    /// `xdg_toplevel.destroy`.
    pub open spec fn destroy_toplevel(self, toplevel_id: u32) -> ClientView {
        ClientView { toplevels: self.toplevels.remove(toplevel_id), ..self.unregister(toplevel_id) }
    }

    /// `xdg_toplevel.set_title`: the title is kept, and the renderer is
    /// told it under the surface that the toplevel's role object is bound
    /// to.
    pub open spec fn set_title(self, toplevel_id: u32, title: Seq<char>) -> ClientView {
        if self.toplevels.contains_key(toplevel_id) {
            let toplevel = self.toplevels[toplevel_id];
            let kept = ClientView {
                toplevels: self.toplevels.insert(
                    toplevel_id,
                    (XdgToplevelView { title, ..toplevel }),
                ),
                ..self
            };
            if self.xdg_surfaces.contains_key(toplevel.xdg_surface_id) {
                kept.emit(
                    RenderEventView::TitleChanged {
                        surface_id: self.xdg_surfaces[toplevel.xdg_surface_id].surface_id,
                        title,
                    },
                )
            } else {
                kept
            }
        } else {
            self
        }
    }

    /// `xdg_toplevel.set_app_id`.
    pub open spec fn set_app_id(self, toplevel_id: u32, app_id: Seq<char>) -> ClientView {
        if self.toplevels.contains_key(toplevel_id) {
            ClientView {
                toplevels: self.toplevels.insert(
                    toplevel_id,
                    (XdgToplevelView { app_id, ..self.toplevels[toplevel_id] }),
                ),
                ..self
            }
        } else {
            self
        }
    }

    /// A request to a toplevel.
    pub open spec fn toplevel_request(
        self,
        toplevel_id: u32,
        opcode: u16,
        payload: Seq<u8>,
    ) -> Option<ClientView> {
        if opcode == TOPLEVEL_DESTROY {
            Some(self.destroy_toplevel(toplevel_id))
        } else if opcode == TOPLEVEL_SET_TITLE {
            match parse_string(payload) {
                Some((title, _)) => Some(self.set_title(toplevel_id, title)),
                None => None,
            }
        } else if opcode == TOPLEVEL_SET_APP_ID {
            match parse_string(payload) {
                Some((app_id, _)) => Some(self.set_app_id(toplevel_id, app_id)),
                None => None,
            }
        } else {
            Some(self)
        }
    }

    /// A request to the seat.
    pub open spec fn seat_request(self, opcode: u16, payload: Seq<u8>) -> Option<ClientView> {
        if opcode == SEAT_GET_POINTER {
            match parse_uint(payload) {
                Some((id, _)) => Some(
                    ClientView { pointer_id: Some(id), ..self.register(id, Interface::Pointer, 1) },
                ),
                None => None,
            }
        } else if opcode == SEAT_GET_KEYBOARD {
            match parse_uint(payload) {
                Some((id, _)) => Some(
                    ClientView {
                        keyboard_id: Some(id),
                        ..self.register(id, Interface::Keyboard, 1)
                    },
                ),
                None => None,
            }
        } else {
            Some(self)
        }
    }

    /// Any request: it goes to the handler of the interface of the object
    /// it is for. A request for an unknown object, or for an object whose
    /// interface takes no requests here, changes nothing. Without a state
    /// the request was cut short.
    pub open spec fn dispatch(
        self,
        object_id: u32,
        opcode: u16,
        payload: Seq<u8>,
        time: u32,
        serial: u32,
    ) -> Option<Handled> {
        match self.interface_of(object_id) {
            Some(Interface::XdgSurface) => self.xdg_surface_request(
                object_id,
                opcode,
                payload,
                serial,
            ),
            Some(interface) => {
                let state = match interface {
                    Interface::Display => self.display_request(opcode, payload, time),
                    Interface::Registry => self.registry_request(opcode, payload),
                    Interface::Compositor => self.compositor_request(opcode, payload),
                    Interface::Surface => self.surface_request(object_id, opcode, payload, time),
                    Interface::Seat => self.seat_request(opcode, payload),
                    Interface::Shm => self.shm_request(opcode, payload),
                    Interface::ShmPool => self.pool_request(object_id, opcode, payload),
                    Interface::Buffer => Some(self.buffer_request(object_id, opcode)),
                    Interface::XdgWmBase => self.wm_base_request(opcode, payload),
                    Interface::XdgToplevel => self.toplevel_request(object_id, opcode, payload),
                    _ => Some(self),
                };
                match state {
                    Some(state) => Some(Handled { state, serial }),
                    None => None,
                }
            },
            None => Some(Handled { state: self, serial }),
        }
    }

    /// What the head of the received bytes leads to. A pixel frame is
    /// taken off and handed to the renderer; a request is taken off and
    /// handled, or, where it is cut short, taken off with nothing done and
    /// the connection fails. Anything else stays where it is.
    pub open spec fn step(self, time: u32, serial: u32) -> Stepped {
        match next_step(self.buffered) {
            Step::Wait => Stepped { state: self, serial, failure: None, more: false },
            Step::Malformed => Stepped {
                state: self,
                serial,
                failure: Some(Failure::UndersizedFrame),
                more: false,
            },
            Step::Pixel { surface_id, width, height, format, data, rest } => Stepped {
                state: self.with_buffered(rest).emit(
                    RenderEventView::PixelData { surface_id, width, height, format, data },
                ),
                serial,
                failure: None,
                more: true,
            },
            Step::Request { object_id, opcode, payload, rest } => {
                let taken = self.with_buffered(rest);
                match taken.dispatch(object_id, opcode, payload, time, serial) {
                    Some(handled) => Stepped {
                        state: handled.state.with_buffered(rest),
                        serial: handled.serial,
                        failure: None,
                        more: true,
                    },
                    None => Stepped {
                        state: taken,
                        serial,
                        failure: Some(Failure::TruncatedPayload),
                        more: false,
                    },
                }
            },
        }
    }

    /// Everything that can be done with the received bytes: step after
    /// step, until what is left is not a whole frame or the connection
    /// fails.
    pub open spec fn drain(self, time: u32, serial: u32) -> Drained
        decreases self.buffered.len(),
    {
        let next = self.step(time, serial);
        if next.more {
            next.state.drain(time, next.serial)
        } else {
            Drained { state: next.state, serial: next.serial, failure: next.failure }
        }
    }
}

/// A step that goes on leaves fewer bytes waiting.
pub proof fn lemma_step_shortens(state: ClientView, time: u32, serial: u32)
    ensures
        state.step(time, serial).more ==> state.step(time, serial).state.buffered.len()
            < state.buffered.len(),
{
}

/// No request touches the bytes that wait behind it.
pub proof fn lemma_dispatch_keeps_buffered(
    state: ClientView,
    object_id: u32,
    opcode: u16,
    payload: Seq<u8>,
    time: u32,
    serial: u32,
)
    ensures
        match state.dispatch(object_id, opcode, payload, time, serial) {
            Some(handled) => handled.state.buffered == state.buffered,
            None => true,
        },
{
}

/// A commit that hands pixels to the renderer gives the buffer back with
/// the very next event for the client.
pub proof fn lemma_present_releases_buffer(state: ClientView, surface_id: u32)
    ensures
        match state.committed_buffer(surface_id) {
            Some(buffer_id) => {
                let shown = state.present(surface_id);
                &&& shown.render_events == state.render_events.push(
                    RenderEventView::SurfaceCommit {
                        surface_id,
                        width: state.buffers[buffer_id].width,
                        height: state.buffers[buffer_id].height,
                        data: state.buffers[buffer_id].data,
                    },
                )
                &&& shown.outgoing == state.outgoing.push(buffer_release_event(buffer_id))
            },
            None => state.present(surface_id) == state,
        },
{
}

/// Whatever the request: for every `SurfaceCommit` that it hands to the
/// renderer, the first event that it queues for the client is the release
/// of the buffer that was committed.
pub proof fn lemma_commit_releases_buffer(
    state: ClientView,
    object_id: u32,
    opcode: u16,
    payload: Seq<u8>,
    time: u32,
    serial: u32,
)
    ensures
        match state.dispatch(object_id, opcode, payload, time, serial) {
            Some(handled) => forall|i: int|
                state.render_events.len() <= i < handled.state.render_events.len() && (
                #[trigger] handled.state.render_events[i]) is SurfaceCommit ==> {
                    let surface_id = handled.state.render_events[i]->SurfaceCommit_surface_id;
                    &&& state.committed_buffer(surface_id) is Some
                    &&& handled.state.outgoing.len() > state.outgoing.len()
                    &&& handled.state.outgoing[state.outgoing.len() as int]
                        == buffer_release_event(state.committed_buffer(surface_id)->Some_0)
                },
            None => true,
        },
{
    match state.interface_of(object_id) {
        Some(Interface::Surface) => {
            if opcode == SURFACE_COMMIT {
                lemma_present_releases_buffer(state, object_id);
            }
        },
        _ => {},
    }
}

/// No request takes back what is queued: the events for the client and
/// for the renderer that were waiting before it are still waiting after
/// it, in their places, and what it adds comes behind them.
pub proof fn lemma_dispatch_only_appends(
    state: ClientView,
    object_id: u32,
    opcode: u16,
    payload: Seq<u8>,
    time: u32,
    serial: u32,
)
    ensures
        match state.dispatch(object_id, opcode, payload, time, serial) {
            Some(handled) => {
                &&& state.outgoing.len() <= handled.state.outgoing.len()
                &&& handled.state.outgoing.take(state.outgoing.len() as int) == state.outgoing
                &&& state.render_events.len() <= handled.state.render_events.len()
                &&& handled.state.render_events.take(state.render_events.len() as int)
                    == state.render_events
            },
            None => true,
        },
{
    match state.dispatch(object_id, opcode, payload, time, serial) {
        Some(handled) => {
            assert(handled.state.outgoing.take(state.outgoing.len() as int) =~= state.outgoing);
            assert(handled.state.render_events.take(state.render_events.len() as int)
                =~= state.render_events);
        },
        None => {},
    }
}

/// No request files an object under another id than its own.
pub proof fn lemma_dispatch_keeps_wf(
    state: ClientView,
    object_id: u32,
    opcode: u16,
    payload: Seq<u8>,
    time: u32,
    serial: u32,
)
    requires
        state.wf(),
    ensures
        match state.dispatch(object_id, opcode, payload, time, serial) {
            Some(handled) => handled.state.wf(),
            None => true,
        },
{
}

} // verus!
