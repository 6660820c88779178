//! The engine of one connection.
//!
//! It takes the byte stream in pieces, takes sideband pixel frames and
//! Wayland requests off its head, and handles each request by the interface
//! of the object it is for. What it has to say goes into two queues: events
//! for the client, and events for the renderer.

use crate::buf::{bytes_advance, bytes_as_slice, bytes_len, bytes_split_to, contents};
use crate::error::{undersized_frame_text, WinWayError};
use crate::wayland::compositor::{callback_done, Surface};
use crate::wayland::display::WlDisplay;
use crate::wayland::model::{
    bind_target, button_event, format_events, global_events, key_event,
    lemma_dispatch_keeps_buffered, lemma_step_shortens, motion_event, pixel_magic,
    serial_after, ClientView, Failure, RenderEventView, KEYBOARD_EVENT_KEY, PIXEL_HEADER_SIZE,
    POINTER_EVENT_BUTTON, POINTER_EVENT_MOTION, SEAT_CAPABILITIES, SEAT_EVENT_CAPABILITIES,
    SEAT_EVENT_NAME, SEAT_GET_KEYBOARD, SEAT_GET_POINTER,
};
use crate::wayland::object::{Interface, Object, ObjectMap};
use crate::wayland::registry::{globals_view, standard_globals, WlRegistry};
use crate::wayland::shm::{
    buffer_release, shm_format, supported_formats, Buffer, BufferView, ShmPool,
};
use crate::wayland::wire::{
    parse_int, parse_string, parse_uint, read_int, read_string, read_uint, word_at, Argument,
    Message, MessageDecoder, MessageView,
};
use crate::wayland::xdg_shell::{
    toplevel_configure, xdg_surface_configure, ToplevelState, XdgSurface, XdgToplevel,
    XdgToplevelView,
};
use bytes::BytesMut;
use std::collections::HashMap;
use vstd::prelude::*;
use vstd::slice::slice_to_vec;

verus! {

broadcast use vstd::std_specs::hash::group_hash_axioms;

/// The counter that serials come from. A process has one, shared by all
/// its connections.
#[derive(Debug)]
pub struct SerialCounter {
    next: u32,
}

impl View for SerialCounter {
    type V = u32;

    /// The serial that will be handed out next.
    closed spec fn view(&self) -> u32 {
        self.next
    }
}

impl SerialCounter {
    /// A counter whose first serial is 1.
    pub fn new() -> (counter: SerialCounter)
        ensures
            counter@ == 1,
    {
        SerialCounter { next: 1 }
    }
}

/// Hands out the next serial. Serials count up by one and wrap at
/// thirty-two bits.
pub fn next_serial(counter: &mut SerialCounter) -> (serial: u32)
    ensures
        serial == old(counter)@,
        final(counter)@ == serial_after(old(counter)@, 1),
{
    let serial: u32 = counter.next;
    counter.next = serial.wrapping_add(1);
    serial
}

/// Of two allocations from one counter, whichever connections they are
/// made for, the later one returns the greater serial, as long as the
/// counter has not wrapped between the two. The allocation that follows
/// `count` others returns `serial_after(start, count)`.
pub proof fn lemma_serials_increase(start: u32, earlier: nat, later: nat)
    requires
        earlier < later,
        (start + earlier) / 0x1_0000_0000 == (start + later) / 0x1_0000_0000,
    ensures
        serial_after(start, earlier) < serial_after(start, later),
{
}

/// Allocating one by one is allocating in one go.
pub proof fn lemma_serial_after_step(start: u32, count: nat)
    ensures
        serial_after(serial_after(start, count), 1) == serial_after(start, count + 1),
{
}

/// Something for the renderer to act on.
#[derive(Debug, PartialEq, Eq)]
pub enum RenderEvent {
    /// A surface has been created.
    SurfaceCreated { id: u32 },
    /// A surface has been committed with a buffer attached.
    SurfaceCommit { surface_id: u32, width: i32, height: i32, data: Vec<u8> },
    /// A surface has been destroyed.
    SurfaceDestroyed { id: u32 },
    /// A toplevel has a new title.
    TitleChanged { surface_id: u32, title: String },
    /// Pixels have arrived beside the Wayland stream.
    PixelData { surface_id: u32, width: u32, height: u32, format: u32, data: Vec<u8> },
}

impl View for RenderEvent {
    type V = RenderEventView;

    open spec fn view(&self) -> RenderEventView {
        match *self {
            RenderEvent::SurfaceCreated { id } => RenderEventView::SurfaceCreated { id },
            RenderEvent::SurfaceCommit {
                surface_id,
                width,
                height,
                data,
            } => RenderEventView::SurfaceCommit { surface_id, width, height, data: data@ },
            RenderEvent::SurfaceDestroyed { id } => RenderEventView::SurfaceDestroyed { id },
            RenderEvent::TitleChanged { surface_id, title } => RenderEventView::TitleChanged {
                surface_id,
                title: title@,
            },
            RenderEvent::PixelData {
                surface_id,
                width,
                height,
                format,
                data,
            } => RenderEventView::PixelData { surface_id, width, height, format, data: data@ },
        }
    }
}

/// The views of the messages, in order.
pub open spec fn messages_view(messages: Seq<Message>) -> Seq<MessageView> {
    Seq::new(messages.len(), |i: int| messages[i]@)
}

/// The views of the events, in order.
pub open spec fn events_view(events: Seq<RenderEvent>) -> Seq<RenderEventView> {
    Seq::new(events.len(), |i: int| events[i]@)
}

/// The views of the buffers, by id.
pub open spec fn buffers_view(buffers: Map<u32, Buffer>) -> Map<u32, BufferView> {
    buffers.map_values(|buffer: Buffer| buffer@)
}

/// The views of the toplevels, by id.
pub open spec fn toplevels_view(toplevels: Map<u32, XdgToplevel>) -> Map<u32, XdgToplevelView> {
    toplevels.map_values(|toplevel: XdgToplevel| toplevel@)
}

/// Whether a result reports this failure, or none.
pub open spec fn reports(result: Result<(), WinWayError>, failure: Option<Failure>) -> bool {
    match failure {
        None => result is Ok,
        Some(Failure::UndersizedFrame) => result is Err && result->Err_0 is Protocol
            && result->Err_0->Protocol_0@ == undersized_frame_text(),
        Some(Failure::TruncatedPayload) => result is Err && result->Err_0 is InvalidMessage,
    }
}

/// Whether a connection in state `before`, with the counter at `serial`,
/// that takes in `data` at the time `time` ends in state `after`, with the
/// counter at `next` and with the result `done`.
pub open spec fn processed(
    before: ClientView,
    data: Seq<u8>,
    time: u32,
    serial: u32,
    after: ClientView,
    next: u32,
    done: Result<(), WinWayError>,
) -> bool {
    let end = before.received(data).drain(time, serial);
    &&& after == end.state
    &&& next == end.serial
    &&& reports(done, end.failure)
}

/// `SystemTime::elapsed` on the Unix epoch: the time since then, in
/// milliseconds; none where the clock stands before the epoch. Nothing is
/// claimed of the number: it is the time.
#[verifier::external_body]
pub(crate) fn millis_since_epoch() -> Option<u128> {
    match std::time::UNIX_EPOCH.elapsed() {
        Ok(elapsed) => Some(elapsed.as_millis()),
        Err(_) => None,
    }
}

/// The time that events carry: the milliseconds since the epoch in
/// thirty-two bits, and 0 without a reading.
pub open spec fn event_time(elapsed: Option<u128>) -> u32 {
    match elapsed {
        Some(millis) => (millis % 0x1_0000_0000) as u32,
        None => 0,
    }
}

/// The time that events carry, from a reading of the clock.
pub fn wall_time_millis(elapsed: Option<u128>) -> (time: u32)
    ensures
        time == event_time(elapsed),
{
    match elapsed {
        Some(millis) => (millis % 0x1_0000_0000) as u32,
        None => 0,
    }
}

/// Reads an unsigned argument that a request cannot do without.
fn take_uint(payload: &mut BytesMut) -> (value: Result<u32, WinWayError>)
    ensures
        match parse_uint(contents(*old(payload))) {
            Some((v, rest)) => value == Ok::<u32, WinWayError>(v) && contents(*final(payload))
                == rest,
            None => value is Err && value->Err_0 is InvalidMessage && contents(*final(payload))
                == contents(*old(payload)),
        },
{
    match read_uint(payload) {
        Some(v) => Ok(v),
        None => Err(WinWayError::InvalidMessage),
    }
}

/// Reads a signed argument that a request cannot do without.
fn take_int(payload: &mut BytesMut) -> (value: Result<i32, WinWayError>)
    ensures
        match parse_int(contents(*old(payload))) {
            Some((v, rest)) => value == Ok::<i32, WinWayError>(v) && contents(*final(payload))
                == rest,
            None => value is Err && value->Err_0 is InvalidMessage && contents(*final(payload))
                == contents(*old(payload)),
        },
{
    match read_int(payload) {
        Some(v) => Ok(v),
        None => Err(WinWayError::InvalidMessage),
    }
}

/// Reads a string argument that a request cannot do without.
fn take_string(payload: &mut BytesMut) -> (value: Result<String, WinWayError>)
    ensures
        match parse_string(contents(*old(payload))) {
            Some((chars, rest)) => value is Ok && value->Ok_0@ == chars && contents(
                *final(payload),
            ) == rest,
            None => value is Err && value->Err_0 is InvalidMessage && contents(*final(payload))
                == contents(*old(payload)),
        },
{
    match read_string(payload) {
        Some(v) => Ok(v),
        None => Err(WinWayError::InvalidMessage),
    }
}

/// Whether two strings are the same text.
pub fn same_text(a: &str, b: &str) -> (same: bool)
    ensures
        same == (a@ == b@),
{
    let x = a.as_bytes();
    let y = b.as_bytes();
    proof {
        vstd::utf8::encode_utf8_decode_utf8(a@);
        vstd::utf8::encode_utf8_decode_utf8(b@);
    }
    if x.len() != y.len() {
        return false;
    }
    let mut i: usize = 0;
    while i < x.len()
        invariant
            i <= x.len(),
            x.len() == y.len(),
            x@ == vstd::utf8::encode_utf8(a@),
            y@ == vstd::utf8::encode_utf8(b@),
            forall|j: int| 0 <= j < i ==> x@[j] == y@[j],
        decreases x.len() - i,
    {
        if x[i] != y[i] {
            return false;
        }
        i = i + 1;
    }
    assert(x@ =~= y@);
    true
}

/// Whether the bytes open with the magic of a sideband pixel frame.
pub fn has_pixel_magic(bytes: &[u8]) -> (found: bool)
    ensures
        found == (bytes@.len() >= 4 && bytes@.take(4) == pixel_magic()),
{
    if bytes.len() < 4 {
        return false;
    }
    let found = bytes[0] == 0x50 && bytes[1] == 0x49 && bytes[2] == 0x58 && bytes[3] == 0x4C;
    proof {
        let head = bytes@.take(4);
        assert(head[0] == bytes@[0] && head[1] == bytes@[1] && head[2] == bytes@[2] && head[3]
            == bytes@[3]);
        if found {
            assert(head =~= pixel_magic());
        }
    }
    found
}

/// The interface that a global's name stands for, if it is one on offer.
pub fn bind_interface(interface: &str) -> (target: Option<Interface>)
    ensures
        target == bind_target(interface@),
{
    if same_text(interface, "wl_compositor") {
        Some(Interface::Compositor)
    } else if same_text(interface, "wl_subcompositor") {
        Some(Interface::Subcompositor)
    } else if same_text(interface, "wl_shm") {
        Some(Interface::Shm)
    } else if same_text(interface, "xdg_wm_base") {
        Some(Interface::XdgWmBase)
    } else if same_text(interface, "wl_seat") {
        Some(Interface::Seat)
    } else if same_text(interface, "wl_output") {
        Some(Interface::Output)
    } else if same_text(interface, "wl_data_device_manager") {
        Some(Interface::DataDeviceManager)
    } else {
        None
    }
}

/// The state of one connection.
pub struct WaylandClient {
    pub id: u32,
    pub decoder: MessageDecoder,
    objects: ObjectMap,
    surfaces: HashMap<u32, Surface>,
    pools: HashMap<u32, ShmPool>,
    buffers: HashMap<u32, Buffer>,
    xdg_surfaces: HashMap<u32, XdgSurface>,
    toplevels: HashMap<u32, XdgToplevel>,
    registry_id: Option<u32>,
    shm_id: Option<u32>,
    compositor_id: Option<u32>,
    wm_base_id: Option<u32>,
    output_id: Option<u32>,
    seat_id: Option<u32>,
    keyboard_id: Option<u32>,
    pointer_id: Option<u32>,
    outgoing: Vec<Message>,
    render_events: Vec<RenderEvent>,
}

impl View for WaylandClient {
    type V = ClientView;

    closed spec fn view(&self) -> ClientView {
        ClientView {
            id: self.id,
            buffered: self.decoder@,
            objects: self.objects@,
            surfaces: self.surfaces@,
            pools: self.pools@,
            buffers: buffers_view(self.buffers@),
            xdg_surfaces: self.xdg_surfaces@,
            toplevels: toplevels_view(self.toplevels@),
            registry_id: self.registry_id,
            shm_id: self.shm_id,
            compositor_id: self.compositor_id,
            wm_base_id: self.wm_base_id,
            output_id: self.output_id,
            seat_id: self.seat_id,
            keyboard_id: self.keyboard_id,
            pointer_id: self.pointer_id,
            outgoing: messages_view(self.outgoing@),
            render_events: events_view(self.render_events@),
        }
    }
}

impl WaylandClient {
    /// Every object is filed under its own id.
    pub open spec fn wf(&self) -> bool {
        self@.wf()
    }

    /// A connection that has seen nothing. The display object is in its
    /// place at id 1.
    pub fn new(id: u32) -> (client: WaylandClient)
        ensures
            client.wf(),
            client@ == ClientView::initial(id),
            client@.objects.has_display(),
    {
        let client = WaylandClient {
            id,
            decoder: MessageDecoder::new(),
            objects: ObjectMap::new(),
            surfaces: HashMap::new(),
            pools: HashMap::new(),
            buffers: HashMap::new(),
            xdg_surfaces: HashMap::new(),
            toplevels: HashMap::new(),
            registry_id: None,
            shm_id: None,
            compositor_id: None,
            wm_base_id: None,
            output_id: None,
            seat_id: None,
            keyboard_id: None,
            pointer_id: None,
            outgoing: Vec::new(),
            render_events: Vec::new(),
        };
        assert(client@ =~= ClientView::initial(id));
        client
    }

    /// Hands over the events for the client, oldest first, and starts the
    /// queue anew.
    pub fn take_outgoing(&mut self) -> (events: Vec<Message>)
        requires
            old(self).wf(),
        ensures
            final(self).wf(),
            messages_view(events@) == old(self)@.outgoing,
            final(self)@ == old(self)@.without_outgoing(),
    {
        let mut events: Vec<Message> = Vec::new();
        std::mem::swap(&mut events, &mut self.outgoing);
        assert(self@ =~= old(self)@.without_outgoing());
        events
    }

    /// Hands over the events for the renderer, oldest first, and starts
    /// the queue anew.
    pub fn take_render_events(&mut self) -> (events: Vec<RenderEvent>)
        requires
            old(self).wf(),
        ensures
            final(self).wf(),
            events_view(events@) == old(self)@.render_events,
            final(self)@ == old(self)@.without_render_events(),
    {
        let mut events: Vec<RenderEvent> = Vec::new();
        std::mem::swap(&mut events, &mut self.render_events);
        assert(self@ =~= old(self)@.without_render_events());
        events
    }

    /// Files an object under its id.
    fn register(&mut self, id: u32, interface: Interface, version: u32)
        requires
            old(self).wf(),
        ensures
            final(self).wf(),
            final(self)@ == old(self)@.register(id, interface, version),
    {
        self.objects.insert(Object { id, interface, version });
        assert(self@ =~= old(self)@.register(id, interface, version));
    }

    /// Takes an object out.
    fn unregister(&mut self, id: u32)
        requires
            old(self).wf(),
        ensures
            final(self).wf(),
            final(self)@ == old(self)@.unregister(id),
    {
        self.objects.remove(id);
        assert(self@ =~= old(self)@.unregister(id));
    }

    /// Queues an event for the client.
    fn send(&mut self, event: Message)
        requires
            old(self).wf(),
        ensures
            final(self).wf(),
            final(self)@ == old(self)@.send(event@),
    {
        self.outgoing.push(event);
        assert(self@ =~= old(self)@.send(event@));
    }

    /// Queues an event for the renderer.
    fn emit(&mut self, event: RenderEvent)
        requires
            old(self).wf(),
        ensures
            final(self).wf(),
            final(self)@ == old(self)@.emit(event@),
    {
        self.render_events.push(event);
        assert(self@ =~= old(self)@.emit(event@));
    }

    /// `wl_display.sync`: the callback is registered, fires at once with
    /// the given time, and is deleted.
    fn sync(&mut self, callback_id: u32, time: u32)
        requires
            old(self).wf(),
        ensures
            final(self).wf(),
            final(self)@ == old(self)@.sync(callback_id, time),
    {
        self.register(callback_id, Interface::Callback, 1);
        self.send(callback_done(callback_id, time));
        self.send(WlDisplay::delete_id(callback_id));
    }

    /// `wl_display.get_registry`: the registry is registered and every
    /// global is announced on it, in the order of the list.
    fn get_registry(&mut self, registry_id: u32)
        requires
            old(self).wf(),
        ensures
            final(self).wf(),
            final(self)@ == old(self)@.get_registry(registry_id),
    {
        self.registry_id = Some(registry_id);
        assert(self@ =~= ClientView { registry_id: Some(registry_id), ..old(self)@ });
        self.register(registry_id, Interface::Registry, 1);
        let globals = standard_globals();
        let ghost base = self@;
        let ghost events = global_events(registry_id, globals_view(globals@));
        let mut i: usize = 0;
        assert(self@ =~= base.send_all(events.take(0)));
        while i < globals.len()
            invariant
                i <= globals.len(),
                self.wf(),
                events == global_events(registry_id, globals_view(globals@)),
                self@ == base.send_all(events.take(i as int)),
            decreases globals.len() - i,
        {
            let global = &globals[i];
            self.send(
                WlRegistry::global(
                    registry_id,
                    global.name,
                    global.interface.as_str(),
                    global.version,
                ),
            );
            assert(self@ =~= base.send_all(events.take(i as int + 1)));
            i = i + 1;
        }
        assert(events.take(i as int) =~= events);
    }

    /// A request to the display.
    fn handle_display(&mut self, opcode: u16, payload: &mut BytesMut, time: u32) -> (done: Result<
        (),
        WinWayError,
    >)
        requires
            old(self).wf(),
        ensures
            final(self).wf(),
            match old(self)@.display_request(opcode, contents(*old(payload)), time) {
                Some(state) => done is Ok && final(self)@ == state,
                None => done is Err && done->Err_0 is InvalidMessage && final(self)@ == old(self)@,
            },
    {
        if opcode == crate::wayland::display::REQUEST_SYNC {
            let callback_id: u32 = take_uint(payload)?;
            self.sync(callback_id, time);
        } else if opcode == crate::wayland::display::REQUEST_GET_REGISTRY {
            let registry_id: u32 = take_uint(payload)?;
            self.get_registry(registry_id);
        }
        Ok(())
    }

    /// `wl_registry.bind`: the new object is registered with the interface
    /// that the name stands for. A shm announces its formats, a seat its
    /// capabilities and its name. An unknown name changes nothing.
    pub fn bind(&mut self, name: u32, interface: &str, version: u32, id: u32)
        requires
            old(self).wf(),
        ensures
            final(self).wf(),
            final(self)@ == old(self)@.bind(name, interface@, version, id),
    {
        match bind_interface(interface) {
            Some(Interface::Compositor) => {
                self.compositor_id = Some(id);
                assert(self@ =~= ClientView { compositor_id: Some(id), ..old(self)@ });
                self.register(id, Interface::Compositor, version);
            },
            Some(Interface::Shm) => {
                self.shm_id = Some(id);
                assert(self@ =~= ClientView { shm_id: Some(id), ..old(self)@ });
                self.register(id, Interface::Shm, version);
                let formats = supported_formats();
                let ghost base = self@;
                let ghost events = format_events(id, formats@);
                let mut i: usize = 0;
                assert(self@ =~= base.send_all(events.take(0)));
                while i < formats.len()
                    invariant
                        i <= formats.len(),
                        self.wf(),
                        events == format_events(id, formats@),
                        self@ == base.send_all(events.take(i as int)),
                    decreases formats.len() - i,
                {
                    self.send(shm_format(id, formats[i]));
                    assert(self@ =~= base.send_all(events.take(i as int + 1)));
                    i = i + 1;
                }
                assert(events.take(i as int) =~= events);
            },
            Some(Interface::XdgWmBase) => {
                self.wm_base_id = Some(id);
                assert(self@ =~= ClientView { wm_base_id: Some(id), ..old(self)@ });
                self.register(id, Interface::XdgWmBase, version);
            },
            Some(Interface::Seat) => {
                self.seat_id = Some(id);
                assert(self@ =~= ClientView { seat_id: Some(id), ..old(self)@ });
                self.register(id, Interface::Seat, version);
                self.send(Message::new(id, SEAT_EVENT_CAPABILITIES).uint(SEAT_CAPABILITIES));
                self.send(Message::new(id, SEAT_EVENT_NAME).string("win-way-seat"));
            },
            Some(Interface::Output) => {
                self.output_id = Some(id);
                assert(self@ =~= ClientView { output_id: Some(id), ..old(self)@ });
                self.register(id, Interface::Output, version);
            },
            Some(target) => {
                self.register(id, target, version);
            },
            None => {},
        }
    }

    /// A request to the registry.
    fn handle_registry(&mut self, opcode: u16, payload: &mut BytesMut) -> (done: Result<
        (),
        WinWayError,
    >)
        requires
            old(self).wf(),
        ensures
            final(self).wf(),
            match old(self)@.registry_request(opcode, contents(*old(payload))) {
                Some(state) => done is Ok && final(self)@ == state,
                None => done is Err && done->Err_0 is InvalidMessage && final(self)@ == old(self)@,
            },
    {
        if opcode == crate::wayland::registry::REQUEST_BIND {
            let name: u32 = take_uint(payload)?;
            let interface = take_string(payload)?;
            let version: u32 = take_uint(payload)?;
            let id: u32 = take_uint(payload)?;
            self.bind(name, interface.as_str(), version, id);
        }
        Ok(())
    }

    /// `wl_compositor.create_surface`.
    fn create_surface(&mut self, surface_id: u32)
        requires
            old(self).wf(),
        ensures
            final(self).wf(),
            final(self)@ == old(self)@.create_surface(surface_id),
    {
        self.register(surface_id, Interface::Surface, 5);
        self.surfaces.insert(surface_id, Surface::new(surface_id));
        assert(self@ =~= ClientView {
            surfaces: old(self)@.surfaces.insert(surface_id, Surface::fresh(surface_id)),
            ..old(self)@.register(surface_id, Interface::Surface, 5)
        });
        self.emit(RenderEvent::SurfaceCreated { id: surface_id });
    }

    /// A request to the compositor.
    fn handle_compositor(&mut self, opcode: u16, payload: &mut BytesMut) -> (done: Result<
        (),
        WinWayError,
    >)
        requires
            old(self).wf(),
        ensures
            final(self).wf(),
            match old(self)@.compositor_request(opcode, contents(*old(payload))) {
                Some(state) => done is Ok && final(self)@ == state,
                None => done is Err && done->Err_0 is InvalidMessage && final(self)@ == old(self)@,
            },
    {
        if opcode == crate::wayland::compositor::COMPOSITOR_CREATE_SURFACE {
            let surface_id: u32 = take_uint(payload)?;
            self.create_surface(surface_id);
        } else if opcode == crate::wayland::compositor::COMPOSITOR_CREATE_REGION {
            let region_id: u32 = take_uint(payload)?;
            self.register(region_id, Interface::Region, 1);
        }
        Ok(())
    }

    /// `wl_surface.destroy`.
    fn destroy_surface(&mut self, surface_id: u32)
        requires
            old(self).wf(),
        ensures
            final(self).wf(),
            final(self)@ == old(self)@.destroy_surface(surface_id),
    {
        self.surfaces.remove(&surface_id);
        assert(self@ =~= ClientView {
            surfaces: old(self)@.surfaces.remove(surface_id),
            ..old(self)@
        });
        self.unregister(surface_id);
        assert(self@ =~= ClientView {
            surfaces: old(self)@.surfaces.remove(surface_id),
            ..old(self)@.unregister(surface_id)
        });
        self.emit(RenderEvent::SurfaceDestroyed { id: surface_id });
    }

    /// The surface with this id, if there is one.
    fn surface(&self, surface_id: u32) -> (found: Option<Surface>)
        ensures
            match found {
                Some(surface) => self@.surfaces.contains_key(surface_id) && surface
                    == self@.surfaces[surface_id],
                None => !self@.surfaces.contains_key(surface_id),
            },
    {
        match self.surfaces.get(&surface_id) {
            Some(surface) => Some(*surface),
            None => None,
        }
    }

    /// Puts a surface in the place of the one with its id.
    fn put_surface(&mut self, surface_id: u32, surface: Surface)
        requires
            old(self).wf(),
        ensures
            final(self).wf(),
            final(self)@ == (ClientView {
                surfaces: old(self)@.surfaces.insert(surface_id, surface),
                ..old(self)@
            }),
    {
        self.surfaces.insert(surface_id, surface);
        assert(self@ =~= ClientView {
            surfaces: old(self)@.surfaces.insert(surface_id, surface),
            ..old(self)@
        });
    }

    /// `wl_surface.attach`: the buffer is remembered for the next commit;
    /// buffer 0 detaches.
    fn attach(&mut self, surface_id: u32, buffer_id: u32, x: i32, y: i32)
        requires
            old(self).wf(),
        ensures
            final(self).wf(),
            final(self)@ == old(self)@.attach(surface_id, buffer_id, x, y),
    {
        if let Some(surface) = self.surface(surface_id) {
            let attached = Surface {
                buffer_id: if buffer_id == 0 {
                    None
                } else {
                    Some(buffer_id)
                },
                buffer_x: x,
                buffer_y: y,
                ..surface
            };
            self.put_surface(surface_id, attached);
        }
    }

    /// `wl_surface.frame`: the callback is registered and remembered for
    /// the next commit.
    fn frame(&mut self, surface_id: u32, callback_id: u32)
        requires
            old(self).wf(),
        ensures
            final(self).wf(),
            final(self)@ == old(self)@.frame(surface_id, callback_id),
    {
        self.register(callback_id, Interface::Callback, 1);
        if let Some(surface) = self.surface(surface_id) {
            self.put_surface(surface_id, Surface { frame_callback: Some(callback_id), ..surface });
        }
    }

    /// The first half of a commit: the attached buffer's pixels go to the
    /// renderer, and the buffer goes back to the client with the very next
    /// event.
    fn present(&mut self, surface_id: u32)
        requires
            old(self).wf(),
        ensures
            final(self).wf(),
            final(self)@ == old(self)@.present(surface_id),
    {
        if let Some(surface) = self.surface(surface_id) {
            if let Some(buffer_id) = surface.buffer_id {
                let shown = match self.buffers.get(&buffer_id) {
                    Some(buffer) => Some(
                        RenderEvent::SurfaceCommit {
                            surface_id,
                            width: buffer.width,
                            height: buffer.height,
                            data: slice_to_vec(buffer.data.as_slice()),
                        },
                    ),
                    None => None,
                };
                if let Some(event) = shown {
                    self.emit(event);
                    self.send(buffer_release(buffer_id));
                }
            }
        }
    }

    /// `wl_surface.commit`: the buffer is presented and released, then a
    /// pending frame callback fires with the given time and is deleted.
    fn commit(&mut self, surface_id: u32, time: u32)
        requires
            old(self).wf(),
        ensures
            final(self).wf(),
            final(self)@ == old(self)@.commit(surface_id, time),
    {
        if let Some(surface) = self.surface(surface_id) {
            self.present(surface_id);
            if let Some(callback_id) = surface.frame_callback {
                self.send(callback_done(callback_id, time));
                self.send(WlDisplay::delete_id(callback_id));
            }
            self.put_surface(
                surface_id,
                Surface { committed: true, frame_callback: None, ..surface },
            );
        }
    }

    /// A request to a surface.
    fn handle_surface(
        &mut self,
        surface_id: u32,
        opcode: u16,
        payload: &mut BytesMut,
        time: u32,
    ) -> (done: Result<(), WinWayError>)
        requires
            old(self).wf(),
        ensures
            final(self).wf(),
            match old(self)@.surface_request(surface_id, opcode, contents(*old(payload)), time) {
                Some(state) => done is Ok && final(self)@ == state,
                None => done is Err && done->Err_0 is InvalidMessage && final(self)@ == old(self)@,
            },
    {
        if opcode == crate::wayland::compositor::SURFACE_DESTROY {
            self.destroy_surface(surface_id);
        } else if opcode == crate::wayland::compositor::SURFACE_ATTACH {
            let buffer_id: u32 = take_uint(payload)?;
            let x: i32 = take_int(payload)?;
            let y: i32 = take_int(payload)?;
            self.attach(surface_id, buffer_id, x, y);
        } else if opcode == crate::wayland::compositor::SURFACE_FRAME {
            let callback_id: u32 = take_uint(payload)?;
            self.frame(surface_id, callback_id);
        } else if opcode == crate::wayland::compositor::SURFACE_COMMIT {
            self.commit(surface_id, time);
        }
        Ok(())
    }

    /// `wl_shm.create_pool`.
    fn create_pool(&mut self, pool_id: u32, size: u32)
        requires
            old(self).wf(),
        ensures
            final(self).wf(),
            final(self)@ == old(self)@.create_pool(pool_id, size),
    {
        self.register(pool_id, Interface::ShmPool, 1);
        self.pools.insert(pool_id, ShmPool { id: pool_id, size });
        assert(self@ =~= old(self)@.create_pool(pool_id, size));
    }

    /// A request to the shm.
    fn handle_shm(&mut self, opcode: u16, payload: &mut BytesMut) -> (done: Result<
        (),
        WinWayError,
    >)
        requires
            old(self).wf(),
        ensures
            final(self).wf(),
            match old(self)@.shm_request(opcode, contents(*old(payload))) {
                Some(state) => done is Ok && final(self)@ == state,
                None => done is Err && done->Err_0 is InvalidMessage && final(self)@ == old(self)@,
            },
    {
        if opcode == crate::wayland::shm::SHM_CREATE_POOL {
            let pool_id: u32 = take_uint(payload)?;
            let size: u32 = take_uint(payload)?;
            self.create_pool(pool_id, size);
        }
        Ok(())
    }

    /// `wl_shm_pool.create_buffer`.
    fn create_buffer(&mut self, buffer: Buffer)
        requires
            old(self).wf(),
        ensures
            final(self).wf(),
            final(self)@ == old(self)@.create_buffer(buffer@),
    {
        let id: u32 = buffer.id;
        self.register(id, Interface::Buffer, 1);
        self.buffers.insert(id, buffer);
        assert(self@ =~= old(self)@.create_buffer(buffer@));
    }

    /// `wl_shm_pool.destroy`.
    fn destroy_pool(&mut self, pool_id: u32)
        requires
            old(self).wf(),
        ensures
            final(self).wf(),
            final(self)@ == old(self)@.destroy_pool(pool_id),
    {
        self.pools.remove(&pool_id);
        assert(self@ =~= ClientView { pools: old(self)@.pools.remove(pool_id), ..old(self)@ });
        self.unregister(pool_id);
        assert(self@ =~= old(self)@.destroy_pool(pool_id));
    }

    /// `wl_shm_pool.resize`: the size is kept as the bits it came in.
    fn resize_pool(&mut self, pool_id: u32, size: i32)
        requires
            old(self).wf(),
        ensures
            final(self).wf(),
            final(self)@ == old(self)@.resize_pool(pool_id, size),
    {
        if self.pools.contains_key(&pool_id) {
            let bits: u32 = if size >= 0 {
                size as u32
            } else {
                (size as i64 + 0x1_0000_0000) as u32
            };
            self.pools.insert(pool_id, ShmPool { id: pool_id, size: bits });
            assert(self@ =~= old(self)@.resize_pool(pool_id, size));
        }
    }

    /// A request to a pool.
    fn handle_shm_pool(&mut self, pool_id: u32, opcode: u16, payload: &mut BytesMut) -> (done:
        Result<(), WinWayError>)
        requires
            old(self).wf(),
        ensures
            final(self).wf(),
            match old(self)@.pool_request(pool_id, opcode, contents(*old(payload))) {
                Some(state) => done is Ok && final(self)@ == state,
                None => done is Err && done->Err_0 is InvalidMessage && final(self)@ == old(self)@,
            },
    {
        if opcode == crate::wayland::shm::POOL_CREATE_BUFFER {
            let buffer_id: u32 = take_uint(payload)?;
            let offset: i32 = take_int(payload)?;
            let width: i32 = take_int(payload)?;
            let height: i32 = take_int(payload)?;
            let stride: i32 = take_int(payload)?;
            let format: u32 = take_uint(payload)?;
            self.create_buffer(
                Buffer::new(buffer_id, pool_id, offset, width, height, stride, format),
            );
        } else if opcode == crate::wayland::shm::POOL_DESTROY {
            self.destroy_pool(pool_id);
        } else if opcode == crate::wayland::shm::POOL_RESIZE {
            let size: i32 = take_int(payload)?;
            self.resize_pool(pool_id, size);
        }
        Ok(())
    }

    /// A request to a buffer.
    fn handle_buffer(&mut self, buffer_id: u32, opcode: u16)
        requires
            old(self).wf(),
        ensures
            final(self).wf(),
            final(self)@ == old(self)@.buffer_request(buffer_id, opcode),
    {
        if opcode == crate::wayland::shm::BUFFER_DESTROY {
            self.buffers.remove(&buffer_id);
            assert(self@ =~= ClientView {
                buffers: old(self)@.buffers.remove(buffer_id),
                ..old(self)@
            });
            self.unregister(buffer_id);
            assert(self@ =~= old(self)@.destroy_buffer(buffer_id));
        }
    }

    /// Puts pixels into a buffer; a buffer that does not exist gets none.
    pub fn set_buffer_data(&mut self, buffer_id: u32, data: Vec<u8>)
        requires
            old(self).wf(),
        ensures
            final(self).wf(),
            final(self)@ == if old(self)@.buffers.contains_key(buffer_id) {
                ClientView {
                    buffers: old(self)@.buffers.insert(
                        buffer_id,
                        (BufferView { data: data@, ..old(self)@.buffers[buffer_id] }),
                    ),
                    ..old(self)@
                }
            } else {
                old(self)@
            },
    {
        match self.buffers.remove(&buffer_id) {
            Some(buffer) => {
                let filled = Buffer { data, ..buffer };
                self.buffers.insert(buffer_id, filled);
                assert(self@ =~= ClientView {
                    buffers: old(self)@.buffers.insert(
                        buffer_id,
                        (BufferView { data: data@, ..old(self)@.buffers[buffer_id] }),
                    ),
                    ..old(self)@
                });
            },
            None => {
                assert(self@ =~= old(self)@);
            },
        }
    }

    /// `xdg_wm_base.get_xdg_surface`.
    fn get_xdg_surface(&mut self, xdg_surface_id: u32, surface_id: u32)
        requires
            old(self).wf(),
        ensures
            final(self).wf(),
            final(self)@ == old(self)@.get_xdg_surface(xdg_surface_id, surface_id),
    {
        self.register(xdg_surface_id, Interface::XdgSurface, 3);
        self.xdg_surfaces.insert(
            xdg_surface_id,
            XdgSurface { id: xdg_surface_id, surface_id, toplevel_id: None },
        );
        assert(self@ =~= old(self)@.get_xdg_surface(xdg_surface_id, surface_id));
    }

    /// A request to the window manager base.
    fn handle_xdg_wm_base(&mut self, opcode: u16, payload: &mut BytesMut) -> (done: Result<
        (),
        WinWayError,
    >)
        requires
            old(self).wf(),
        ensures
            final(self).wf(),
            match old(self)@.wm_base_request(opcode, contents(*old(payload))) {
                Some(state) => done is Ok && final(self)@ == state,
                None => done is Err && done->Err_0 is InvalidMessage && final(self)@ == old(self)@,
            },
    {
        if opcode == crate::wayland::xdg_shell::WM_BASE_DESTROY {
            self.wm_base_id = None;
            assert(self@ =~= ClientView { wm_base_id: None, ..old(self)@ });
        } else if opcode == crate::wayland::xdg_shell::WM_BASE_CREATE_POSITIONER {
            let positioner_id: u32 = take_uint(payload)?;
            self.register(positioner_id, Interface::XdgPositioner, 3);
        } else if opcode == crate::wayland::xdg_shell::WM_BASE_GET_XDG_SURFACE {
            let xdg_surface_id: u32 = take_uint(payload)?;
            let surface_id: u32 = take_uint(payload)?;
            self.get_xdg_surface(xdg_surface_id, surface_id);
        } else if opcode == crate::wayland::xdg_shell::WM_BASE_PONG {
            let _serial: u32 = take_uint(payload)?;
        }
        Ok(())
    }

    /// `xdg_surface.destroy`.
    fn destroy_xdg_surface(&mut self, xdg_surface_id: u32)
        requires
            old(self).wf(),
        ensures
            final(self).wf(),
            final(self)@ == old(self)@.destroy_xdg_surface(xdg_surface_id),
    {
        self.xdg_surfaces.remove(&xdg_surface_id);
        assert(self@ =~= ClientView {
            xdg_surfaces: old(self)@.xdg_surfaces.remove(xdg_surface_id),
            ..old(self)@
        });
        self.unregister(xdg_surface_id);
        assert(self@ =~= old(self)@.destroy_xdg_surface(xdg_surface_id));
    }

    /// `xdg_surface.get_toplevel`: the toplevel is created and at once
    /// configured, first with a size and the activated state, then with
    /// the given serial, which closes the round.
    fn get_toplevel(&mut self, xdg_surface_id: u32, toplevel_id: u32, serial: u32)
        requires
            old(self).wf(),
        ensures
            final(self).wf(),
            final(self)@ == old(self)@.get_toplevel(xdg_surface_id, toplevel_id, serial),
    {
        self.register(toplevel_id, Interface::XdgToplevel, 3);
        let bound = match self.xdg_surfaces.get(&xdg_surface_id) {
            Some(xdg_surface) => Some(
                XdgSurface { toplevel_id: Some(toplevel_id), ..*xdg_surface },
            ),
            None => None,
        };
        if let Some(xdg_surface) = bound {
            self.xdg_surfaces.insert(xdg_surface_id, xdg_surface);
        }
        self.toplevels.insert(toplevel_id, XdgToplevel::new(toplevel_id, xdg_surface_id));
        let mut states: Vec<ToplevelState> = Vec::new();
        states.push(ToplevelState::Activated);
        assert(states@ =~= seq![ToplevelState::Activated]);
        self.send(
            toplevel_configure(
                toplevel_id,
                crate::wayland::xdg_shell::INITIAL_WIDTH,
                crate::wayland::xdg_shell::INITIAL_HEIGHT,
                states.as_slice(),
            ),
        );
        self.send(xdg_surface_configure(xdg_surface_id, serial));
        assert(self@ =~= old(self)@.get_toplevel(xdg_surface_id, toplevel_id, serial));
    }

    /// A request to an `xdg_surface`. Only `get_toplevel` takes a serial
    /// from the counter.
    fn handle_xdg_surface(
        &mut self,
        xdg_surface_id: u32,
        opcode: u16,
        payload: &mut BytesMut,
        serials: &mut SerialCounter,
    ) -> (done: Result<(), WinWayError>)
        requires
            old(self).wf(),
        ensures
            final(self).wf(),
            match old(self)@.xdg_surface_request(
                xdg_surface_id,
                opcode,
                contents(*old(payload)),
                old(serials)@,
            ) {
                Some(handled) => done is Ok && final(self)@ == handled.state && final(serials)@
                    == handled.serial,
                None => done is Err && done->Err_0 is InvalidMessage && final(self)@ == old(self)@
                    && final(serials)@ == old(serials)@,
            },
    {
        if opcode == crate::wayland::xdg_shell::XDG_SURFACE_DESTROY {
            self.destroy_xdg_surface(xdg_surface_id);
        } else if opcode == crate::wayland::xdg_shell::XDG_SURFACE_GET_TOPLEVEL {
            let toplevel_id: u32 = take_uint(payload)?;
            let serial: u32 = next_serial(serials);
            self.get_toplevel(xdg_surface_id, toplevel_id, serial);
        } else if opcode == crate::wayland::xdg_shell::XDG_SURFACE_ACK_CONFIGURE {
            let _serial: u32 = take_uint(payload)?;
        }
        Ok(())
    }

    /// `xdg_toplevel.destroy`.
    fn destroy_toplevel(&mut self, toplevel_id: u32)
        requires
            old(self).wf(),
        ensures
            final(self).wf(),
            final(self)@ == old(self)@.destroy_toplevel(toplevel_id),
    {
        self.toplevels.remove(&toplevel_id);
        assert(self@ =~= ClientView {
            toplevels: old(self)@.toplevels.remove(toplevel_id),
            ..old(self)@
        });
        self.unregister(toplevel_id);
        assert(self@ =~= old(self)@.destroy_toplevel(toplevel_id));
    }

    /// `xdg_toplevel.set_title`: the title is kept, and the renderer is
    /// told it under the surface that the toplevel's role object is bound
    /// to.
    pub fn set_title(&mut self, toplevel_id: u32, title: String)
        requires
            old(self).wf(),
        ensures
            final(self).wf(),
            final(self)@ == old(self)@.set_title(toplevel_id, title@),
    {
        match self.toplevels.remove(&toplevel_id) {
            Some(toplevel) => {
                let xdg_surface_id: u32 = toplevel.xdg_surface_id;
                let shown = title.clone();
                self.toplevels.insert(toplevel_id, XdgToplevel { title, ..toplevel });
                let ghost kept = ClientView {
                    toplevels: old(self)@.toplevels.insert(
                        toplevel_id,
                        (XdgToplevelView { title: title@, ..old(self)@.toplevels[toplevel_id] }),
                    ),
                    ..old(self)@
                };
                assert(self@ =~= kept);
                let surface_id = match self.xdg_surfaces.get(&xdg_surface_id) {
                    Some(xdg_surface) => Some(xdg_surface.surface_id),
                    None => None,
                };
                if let Some(surface_id) = surface_id {
                    self.emit(RenderEvent::TitleChanged { surface_id, title: shown });
                }
            },
            None => {
                assert(self@ =~= old(self)@);
            },
        }
    }

    /// `xdg_toplevel.set_app_id`.
    pub fn set_app_id(&mut self, toplevel_id: u32, app_id: String)
        requires
            old(self).wf(),
        ensures
            final(self).wf(),
            final(self)@ == old(self)@.set_app_id(toplevel_id, app_id@),
    {
        match self.toplevels.remove(&toplevel_id) {
            Some(toplevel) => {
                self.toplevels.insert(toplevel_id, XdgToplevel { app_id, ..toplevel });
                assert(self@ =~= old(self)@.set_app_id(toplevel_id, app_id@));
            },
            None => {
                assert(self@ =~= old(self)@);
            },
        }
    }

    /// A request to a toplevel.
    fn handle_xdg_toplevel(
        &mut self,
        toplevel_id: u32,
        opcode: u16,
        payload: &mut BytesMut,
    ) -> (done: Result<(), WinWayError>)
        requires
            old(self).wf(),
        ensures
            final(self).wf(),
            match old(self)@.toplevel_request(toplevel_id, opcode, contents(*old(payload))) {
                Some(state) => done is Ok && final(self)@ == state,
                None => done is Err && done->Err_0 is InvalidMessage && final(self)@ == old(self)@,
            },
    {
        if opcode == crate::wayland::xdg_shell::TOPLEVEL_DESTROY {
            self.destroy_toplevel(toplevel_id);
        } else if opcode == crate::wayland::xdg_shell::TOPLEVEL_SET_TITLE {
            let title = take_string(payload)?;
            self.set_title(toplevel_id, title);
        } else if opcode == crate::wayland::xdg_shell::TOPLEVEL_SET_APP_ID {
            let app_id = take_string(payload)?;
            self.set_app_id(toplevel_id, app_id);
        }
        Ok(())
    }

    /// A request to the seat.
    fn handle_seat(&mut self, opcode: u16, payload: &mut BytesMut) -> (done: Result<
        (),
        WinWayError,
    >)
        requires
            old(self).wf(),
        ensures
            final(self).wf(),
            match old(self)@.seat_request(opcode, contents(*old(payload))) {
                Some(state) => done is Ok && final(self)@ == state,
                None => done is Err && done->Err_0 is InvalidMessage && final(self)@ == old(self)@,
            },
    {
        if opcode == SEAT_GET_POINTER {
            let id: u32 = take_uint(payload)?;
            self.register(id, Interface::Pointer, 1);
            self.pointer_id = Some(id);
            assert(self@ =~= ClientView {
                pointer_id: Some(id),
                ..old(self)@.register(id, Interface::Pointer, 1)
            });
        } else if opcode == SEAT_GET_KEYBOARD {
            let id: u32 = take_uint(payload)?;
            self.register(id, Interface::Keyboard, 1);
            self.keyboard_id = Some(id);
            assert(self@ =~= ClientView {
                keyboard_id: Some(id),
                ..old(self)@.register(id, Interface::Keyboard, 1)
            });
        }
        Ok(())
    }

    /// Handles one request: it goes to the handler of the interface of the
    /// object it is for. A request for an unknown object, or for an object
    /// whose interface takes no requests here, changes nothing. A request
    /// whose payload ends before its arguments do is an error and changes
    /// nothing either.
    pub fn handle_message(
        &mut self,
        object_id: u32,
        opcode: u16,
        payload: &mut BytesMut,
        time: u32,
        serials: &mut SerialCounter,
    ) -> (done: Result<(), WinWayError>)
        requires
            old(self).wf(),
        ensures
            final(self).wf(),
            match old(self)@.dispatch(
                object_id,
                opcode,
                contents(*old(payload)),
                time,
                old(serials)@,
            ) {
                Some(handled) => done is Ok && final(self)@ == handled.state && final(serials)@
                    == handled.serial,
                None => done is Err && done->Err_0 is InvalidMessage && final(self)@ == old(self)@
                    && final(serials)@ == old(serials)@,
            },
    {
        let interface = match self.objects.get(object_id) {
            Some(object) => Some(object.interface),
            None => None,
        };
        assert(interface == old(self)@.interface_of(object_id));
        match interface {
            Some(Interface::Display) => self.handle_display(opcode, payload, time),
            Some(Interface::Registry) => self.handle_registry(opcode, payload),
            Some(Interface::Compositor) => self.handle_compositor(opcode, payload),
            Some(Interface::Surface) => self.handle_surface(object_id, opcode, payload, time),
            Some(Interface::Seat) => self.handle_seat(opcode, payload),
            Some(Interface::Shm) => self.handle_shm(opcode, payload),
            Some(Interface::ShmPool) => self.handle_shm_pool(object_id, opcode, payload),
            Some(Interface::Buffer) => {
                self.handle_buffer(object_id, opcode);
                Ok(())
            },
            Some(Interface::XdgWmBase) => self.handle_xdg_wm_base(opcode, payload),
            Some(Interface::XdgSurface) => self.handle_xdg_surface(
                object_id,
                opcode,
                payload,
                serials,
            ),
            Some(Interface::XdgToplevel) => self.handle_xdg_toplevel(object_id, opcode, payload),
            Some(_) => Ok(()),
            None => Ok(()),
        }
    }

    /// Tells the client of a key going down or up, if it has a keyboard.
    pub fn send_key(&mut self, serial: u32, time: u32, key: u32, state: u32)
        requires
            old(self).wf(),
        ensures
            final(self).wf(),
            final(self)@ == match old(self)@.keyboard_id {
                Some(id) => old(self)@.send(key_event(id, serial, time, key, state)),
                None => old(self)@,
            },
    {
        if let Some(id) = self.keyboard_id {
            self.send(
                Message::new(id, KEYBOARD_EVENT_KEY).uint(serial).uint(time).uint(key).uint(state),
            );
        }
    }

    /// Tells the client where the pointer is, if it has a pointer. The
    /// coordinates have eight fractional bits.
    pub fn send_motion(&mut self, time: u32, x: i32, y: i32)
        requires
            old(self).wf(),
        ensures
            final(self).wf(),
            final(self)@ == match old(self)@.pointer_id {
                Some(id) => old(self)@.send(motion_event(id, time, x, y)),
                None => old(self)@,
            },
    {
        if let Some(id) = self.pointer_id {
            self.send(
                Message::new(id, POINTER_EVENT_MOTION).uint(time).arg(Argument::Fixed(x)).arg(
                    Argument::Fixed(y),
                ),
            );
        }
    }

    /// Tells the client of a button going down or up, if it has a pointer.
    pub fn send_button(&mut self, serial: u32, time: u32, button: u32, state: u32)
        requires
            old(self).wf(),
        ensures
            final(self).wf(),
            final(self)@ == match old(self)@.pointer_id {
                Some(id) => old(self)@.send(button_event(id, serial, time, button, state)),
                None => old(self)@,
            },
    {
        if let Some(id) = self.pointer_id {
            self.send(
                Message::new(id, POINTER_EVENT_BUTTON).uint(serial).uint(time).uint(button).uint(
                    state,
                ),
            );
        }
    }

    /// Takes one sideband frame or one request off the head of the
    /// received bytes and handles it. The answer is whether there may be
    /// more to do.
    fn step(&mut self, time: u32, serials: &mut SerialCounter) -> (done: Result<bool, WinWayError>)
        requires
            old(self).wf(),
        ensures
            final(self).wf(),
            ({
                let next = old(self)@.step(time, old(serials)@);
                &&& final(self)@ == next.state
                &&& final(serials)@ == next.serial
                &&& match done {
                    Ok(more) => more == next.more && next.failure is None,
                    Err(error) => !next.more && next.failure is Some && reports(
                        Err(error),
                        next.failure,
                    ),
                }
            }),
    {
        let ghost before = self@;
        let avail: usize = bytes_len(&self.decoder.buffer);
        if has_pixel_magic(bytes_as_slice(&self.decoder.buffer)) {
            if avail < PIXEL_HEADER_SIZE {
                return Ok(false);
            }
            let header = bytes_as_slice(&self.decoder.buffer);
            let surface_id: u32 = word_at(header, 4);
            let width: u32 = word_at(header, 8);
            let height: u32 = word_at(header, 12);
            let format: u32 = word_at(header, 16);
            let len: usize = word_at(header, 20) as usize;
            if avail - PIXEL_HEADER_SIZE < len {
                return Ok(false);
            }
            bytes_advance(&mut self.decoder.buffer, PIXEL_HEADER_SIZE);
            let body = bytes_split_to(&mut self.decoder.buffer, len);
            let pixels = slice_to_vec(bytes_as_slice(&body));
            proof {
                assert(pixels@ =~= before.buffered.subrange(
                    PIXEL_HEADER_SIZE as int,
                    PIXEL_HEADER_SIZE + len as int,
                ));
                assert(self@ =~= before.with_buffered(
                    before.buffered.skip(PIXEL_HEADER_SIZE + len as int),
                ));
            }
            self.emit(RenderEvent::PixelData { surface_id, width, height, format, data: pixels });
            Ok(true)
        } else {
            match self.decoder.decode() {
                Err(error) => Err(error),
                Ok(None) => Ok(false),
                Ok(Some((object_id, opcode, payload))) => {
                    let mut payload = payload;
                    let ghost taken = self@;
                    proof {
                        assert(taken =~= before.with_buffered(taken.buffered));
                        lemma_dispatch_keeps_buffered(
                            taken,
                            object_id,
                            opcode,
                            contents(payload),
                            time,
                            serials@,
                        );
                    }
                    match self.handle_message(object_id, opcode, &mut payload, time, serials) {
                        Ok(()) => {
                            assert(self@ =~= self@.with_buffered(taken.buffered));
                            Ok(true)
                        },
                        Err(error) => Err(error),
                    }
                },
            }
        }
    }

    /// Takes in a piece of the stream and handles every sideband frame and
    /// every request that is whole by now, with `time` as the time of all
    /// events that carry one. What is left in the buffer is the start of a
    /// frame that has not arrived whole. An undersized frame header or a
    /// request that is cut short ends the handling with an error; what was
    /// queued before it stays queued.
    pub fn process_at(&mut self, data: &[u8], time: u32, serials: &mut SerialCounter) -> (done:
        Result<(), WinWayError>)
        requires
            old(self).wf(),
        ensures
            final(self).wf(),
            processed(old(self)@, data@, time, old(serials)@, final(self)@, final(serials)@, done),
    {
        self.decoder.push(data);
        assert(self@ =~= old(self)@.received(data@));
        let ghost start = self@;
        let ghost first_serial = serials@;
        loop
            invariant
                self.wf(),
                self@.drain(time, serials@) == start.drain(time, first_serial),
                start == old(self)@.received(data@),
                first_serial == old(serials)@,
            decreases self@.buffered.len(),
        {
            proof {
                lemma_step_shortens(self@, time, serials@);
            }
            match self.step(time, serials) {
                Ok(true) => {},
                Ok(false) => {
                    return Ok(());
                },
                Err(error) => {
                    return Err(error);
                },
            }
        }
    }

    /// Takes in a piece of the stream and handles every sideband frame and
    /// every request that is whole by now. The clock is read once, and
    /// every event of this piece that carries a time carries that reading.
    pub fn process(&mut self, data: &[u8], serials: &mut SerialCounter) -> (done: Result<
        (),
        WinWayError,
    >)
        requires
            old(self).wf(),
        ensures
            final(self).wf(),
            exists|time: u32| #[trigger]
                processed(
                    old(self)@,
                    data@,
                    time,
                    old(serials)@,
                    final(self)@,
                    final(serials)@,
                    done,
                ),
    {
        let time: u32 = wall_time_millis(millis_since_epoch());
        self.process_at(data, time, serials)
    }
}

} // verus!
