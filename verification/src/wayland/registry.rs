//! `wl_registry`: the globals that a client can bind.

use crate::wayland::wire::{Message, MessageView};
use vstd::prelude::*;

verus! {

/// Request: bind a global to a new object.
pub const REQUEST_BIND: u16 = 0;

/// Event: a global is on offer.
pub const EVENT_GLOBAL: u16 = 0;

/// Event: a global is withdrawn.
pub const EVENT_GLOBAL_REMOVE: u16 = 1;

/// A global on offer.
#[derive(Debug, Clone, PartialEq, Eq)]
pub struct Global {
    pub name: u32,
    pub interface: String,
    pub version: u32,
}

/// A global as a mathematical value.
pub struct GlobalView {
    pub name: u32,
    pub interface: Seq<char>,
    pub version: u32,
}

impl View for Global {
    type V = GlobalView;

    open spec fn view(&self) -> GlobalView {
        GlobalView { name: self.name, interface: self.interface@, version: self.version }
    }
}

/// The views of the globals, in order.
pub open spec fn globals_view(globals: Seq<Global>) -> Seq<GlobalView> {
    Seq::new(globals.len(), |i: int| globals[i]@)
}

/// The globals that every connection is offered, in the order in which
/// they are announced.
pub open spec fn standard_globals_view() -> Seq<GlobalView> {
    seq![
        GlobalView { name: 1, interface: "wl_compositor"@, version: 5 },
        GlobalView { name: 2, interface: "wl_subcompositor"@, version: 1 },
        GlobalView { name: 3, interface: "wl_shm"@, version: 1 },
        GlobalView { name: 4, interface: "xdg_wm_base"@, version: 3 },
        GlobalView { name: 5, interface: "wl_seat"@, version: 7 },
        GlobalView { name: 6, interface: "wl_output"@, version: 4 },
        GlobalView { name: 7, interface: "wl_data_device_manager"@, version: 3 },
    ]
}

/// The globals that every connection is offered.
pub fn standard_globals() -> (globals: Vec<Global>)
    ensures
        globals_view(globals@) == standard_globals_view(),
{
    let mut globals: Vec<Global> = Vec::new();
    globals.push(Global { name: 1, interface: "wl_compositor".to_owned(), version: 5 });
    globals.push(Global { name: 2, interface: "wl_subcompositor".to_owned(), version: 1 });
    globals.push(Global { name: 3, interface: "wl_shm".to_owned(), version: 1 });
    globals.push(Global { name: 4, interface: "xdg_wm_base".to_owned(), version: 3 });
    globals.push(Global { name: 5, interface: "wl_seat".to_owned(), version: 7 });
    globals.push(Global { name: 6, interface: "wl_output".to_owned(), version: 4 });
    globals.push(
        Global { name: 7, interface: "wl_data_device_manager".to_owned(), version: 3 },
    );
    assert(globals_view(globals@) =~= standard_globals_view());
    globals
}

/// The `global` event.
pub open spec fn global_event(
    registry_id: u32,
    name: u32,
    interface: Seq<char>,
    version: u32,
) -> MessageView {
    MessageView::new(registry_id, EVENT_GLOBAL).uint(name).string(interface).uint(version)
}

/// The `global_remove` event.
pub open spec fn global_remove_event(registry_id: u32, name: u32) -> MessageView {
    MessageView::new(registry_id, EVENT_GLOBAL_REMOVE).uint(name)
}

/// The registry interface.
pub struct WlRegistry;

impl WlRegistry {
    /// The event that announces a global.
    pub fn global(registry_id: u32, name: u32, interface: &str, version: u32) -> (event: Message)
        ensures
            event@ == global_event(registry_id, name, interface@, version),
    {
        Message::new(registry_id, EVENT_GLOBAL).uint(name).string(interface).uint(version)
    }

    /// The event that withdraws a global.
    pub fn global_remove(registry_id: u32, name: u32) -> (event: Message)
        ensures
            event@ == global_remove_event(registry_id, name),
    {
        Message::new(registry_id, EVENT_GLOBAL_REMOVE).uint(name)
    }
}

/// The arguments of a `bind` request.
#[derive(Debug, Clone, PartialEq, Eq)]
pub struct BindRequest {
    pub name: u32,
    pub interface: String,
    pub version: u32,
    pub id: u32,
}

} // verus!
