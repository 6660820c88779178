//! Object ids and the interfaces behind them.

use std::collections::HashMap;
use vstd::prelude::*;

verus! {

broadcast use vstd::std_specs::hash::group_hash_axioms;

/// The first id of the range that the server allocates from.
pub const SERVER_ID_BASE: u32 = 0xFF00_0000;

/// The last id of the range that clients allocate from.
pub const CLIENT_ID_MAX: u32 = 0xFEFF_FFFF;

/// Whether a client may have allocated this id.
pub open spec fn is_client_id(id: u32) -> bool {
    1 <= id <= CLIENT_ID_MAX
}

/// Whether the server may have allocated this id.
pub open spec fn is_server_id(id: u32) -> bool {
    id >= SERVER_ID_BASE
}

/// The interface that an object speaks.
#[derive(Debug, Clone, Copy, PartialEq, Eq, Structural)]
pub enum Interface {
    Display,
    Registry,
    Compositor,
    Subcompositor,
    Surface,
    Subsurface,
    Region,
    Shm,
    ShmPool,
    Buffer,
    XdgWmBase,
    XdgSurface,
    XdgToplevel,
    XdgPositioner,
    Seat,
    Keyboard,
    Pointer,
    Output,
    Callback,
    DataDeviceManager,
    DataDevice,
}

/// A numbered endpoint with a fixed interface.
#[derive(Debug, Clone, Copy, PartialEq, Eq, Structural)]
pub struct Object {
    pub id: u32,
    pub interface: Interface,
    pub version: u32,
}

/// What an [`ObjectMap`] holds: the objects by id, and the next id that the
/// server will hand out.
pub struct ObjectMapView {
    pub objects: Map<u32, Object>,
    pub next_server_id: u32,
}

impl ObjectMapView {
    /// Every object is filed under its own id, and the cursor never leaves
    /// the server's range.
    pub open spec fn wf(self) -> bool {
        &&& forall|id: u32|
            self.objects.contains_key(id) ==> (#[trigger] self.objects[id]).id == id
        &&& self.next_server_id >= SERVER_ID_BASE
    }

    /// Whether the display object is in its place.
    pub open spec fn has_display(self) -> bool {
        self.objects.contains_key(1) && self.objects[1].interface == Interface::Display
    }
}

/// The display object that every connection starts with.
pub open spec fn display_object() -> Object {
    Object { id: 1, interface: Interface::Display, version: 1 }
}

/// The state of a map that holds the display object and nothing else.
pub open spec fn initial_objects() -> ObjectMapView {
    ObjectMapView {
        objects: Map::<u32, Object>::empty().insert(1, display_object()),
        next_server_id: SERVER_ID_BASE,
    }
}

/// All objects of one connection, by id.
#[derive(Debug)]
pub struct ObjectMap {
    objects: HashMap<u32, Object>,
    next_server_id: u32,
}

impl View for ObjectMap {
    type V = ObjectMapView;

    closed spec fn view(&self) -> ObjectMapView {
        ObjectMapView { objects: self.objects@, next_server_id: self.next_server_id }
    }
}

impl ObjectMap {
    /// Every object is filed under its own id, and the cursor never leaves
    /// the server's range.
    pub open spec fn wf(&self) -> bool {
        self@.wf()
    }

    /// A map that holds the display object at id 1.
    pub fn new() -> (map: ObjectMap)
        ensures
            map@ == initial_objects(),
            map.wf(),
            map@.has_display(),
    {
        let mut objects: HashMap<u32, Object> = HashMap::new();
        objects.insert(1, Object { id: 1, interface: Interface::Display, version: 1 });
        ObjectMap { objects, next_server_id: SERVER_ID_BASE }
    }

    /// Files `obj` under its id, in place of whatever was there.
    pub fn insert(&mut self, obj: Object)
        requires
            old(self).wf(),
        ensures
            final(self).wf(),
            final(self)@.objects == old(self)@.objects.insert(obj.id, obj),
            final(self)@.next_server_id == old(self)@.next_server_id,
    {
        self.objects.insert(obj.id, obj);
    }

    /// The object with this id, if there is one.
    pub fn get(&self, id: u32) -> (found: Option<&Object>)
        requires
            self.wf(),
        ensures
            match found {
                Some(obj) => self@.objects.contains_key(id) && *obj == self@.objects[id]
                    && obj.id == id,
                None => !self@.objects.contains_key(id),
            },
    {
        self.objects.get(&id)
    }

    /// Takes the object with this id out of the map.
    pub fn remove(&mut self, id: u32) -> (removed: Option<Object>)
        requires
            old(self).wf(),
        ensures
            final(self).wf(),
            final(self)@.objects == old(self)@.objects.remove(id),
            final(self)@.next_server_id == old(self)@.next_server_id,
            match removed {
                Some(obj) => old(self)@.objects.contains_key(id) && obj == old(self)@.objects[id],
                None => !old(self)@.objects.contains_key(id),
            },
    {
        self.objects.remove(&id)
    }

    /// Registers a new object under the next server-side id and returns
    /// that id. The last id of the range cannot be passed: the cursor has
    /// nowhere to go from it.
    pub fn alloc_server_id(&mut self, interface: Interface, version: u32) -> (id: u32)
        requires
            old(self).wf(),
            old(self)@.next_server_id < u32::MAX,
        ensures
            final(self).wf(),
            id == old(self)@.next_server_id,
            is_server_id(id),
            final(self)@.next_server_id == id + 1,
            final(self)@.objects == old(self)@.objects.insert(
                id,
                (Object { id, interface, version }),
            ),
    {
        let id: u32 = self.next_server_id;
        self.next_server_id = id + 1;
        self.objects.insert(id, Object { id, interface, version });
        id
    }
}

impl Default for ObjectMap {
    fn default() -> (map: ObjectMap)
        ensures
            map@ == initial_objects(),
            map.wf(),
    {
        ObjectMap::new()
    }
}

} // verus!
