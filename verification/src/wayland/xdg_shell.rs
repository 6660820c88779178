//! `xdg_wm_base`, `xdg_surface` and `xdg_toplevel`.

use crate::le::{push_u32_le, u32_le};
use crate::wayland::wire::{Argument, Message, MessageView};
use vstd::prelude::*;

verus! {

/// `xdg_wm_base` requests.
pub const WM_BASE_DESTROY: u16 = 0;

pub const WM_BASE_CREATE_POSITIONER: u16 = 1;

pub const WM_BASE_GET_XDG_SURFACE: u16 = 2;

pub const WM_BASE_PONG: u16 = 3;

/// `xdg_wm_base` event: the server asks whether the client is alive.
pub const WM_BASE_EVENT_PING: u16 = 0;

/// `xdg_surface` requests.
pub const XDG_SURFACE_DESTROY: u16 = 0;

pub const XDG_SURFACE_GET_TOPLEVEL: u16 = 1;

pub const XDG_SURFACE_GET_POPUP: u16 = 2;

pub const XDG_SURFACE_SET_WINDOW_GEOMETRY: u16 = 3;

pub const XDG_SURFACE_ACK_CONFIGURE: u16 = 4;

/// `xdg_surface` event: the server proposes a state.
pub const XDG_SURFACE_EVENT_CONFIGURE: u16 = 0;

/// `xdg_toplevel` requests.
pub const TOPLEVEL_DESTROY: u16 = 0;

pub const TOPLEVEL_SET_PARENT: u16 = 1;

pub const TOPLEVEL_SET_TITLE: u16 = 2;

pub const TOPLEVEL_SET_APP_ID: u16 = 3;

pub const TOPLEVEL_SHOW_WINDOW_MENU: u16 = 4;

pub const TOPLEVEL_MOVE: u16 = 5;

pub const TOPLEVEL_RESIZE: u16 = 6;

pub const TOPLEVEL_SET_MAX_SIZE: u16 = 7;

pub const TOPLEVEL_SET_MIN_SIZE: u16 = 8;

pub const TOPLEVEL_SET_MAXIMIZED: u16 = 9;

pub const TOPLEVEL_UNSET_MAXIMIZED: u16 = 10;

pub const TOPLEVEL_SET_FULLSCREEN: u16 = 11;

pub const TOPLEVEL_UNSET_FULLSCREEN: u16 = 12;

pub const TOPLEVEL_SET_MINIMIZED: u16 = 13;

/// `xdg_toplevel` events.
pub const TOPLEVEL_EVENT_CONFIGURE: u16 = 0;

pub const TOPLEVEL_EVENT_CLOSE: u16 = 1;

pub const TOPLEVEL_EVENT_CONFIGURE_BOUNDS: u16 = 2;

/// The width that a new toplevel is configured with.
pub const INITIAL_WIDTH: i32 = 800;

/// The height that a new toplevel is configured with.
pub const INITIAL_HEIGHT: i32 = 600;

/// A state that a toplevel can be in.
#[derive(Debug, Clone, Copy, PartialEq, Eq, Structural)]
pub enum ToplevelState {
    Maximized,
    Fullscreen,
    Resizing,
    Activated,
    TiledLeft,
    TiledRight,
    TiledTop,
    TiledBottom,
}

impl ToplevelState {
    /// The state's code on the wire.
    pub open spec fn spec_code(self) -> u32 {
        match self {
            ToplevelState::Maximized => 1,
            ToplevelState::Fullscreen => 2,
            ToplevelState::Resizing => 3,
            ToplevelState::Activated => 4,
            ToplevelState::TiledLeft => 5,
            ToplevelState::TiledRight => 6,
            ToplevelState::TiledTop => 7,
            ToplevelState::TiledBottom => 8,
        }
    }

    /// The state's code on the wire.
    #[verifier::when_used_as_spec(spec_code)]
    pub fn code(self) -> (code: u32)
        ensures
            code == self.spec_code(),
    {
        match self {
            ToplevelState::Maximized => 1,
            ToplevelState::Fullscreen => 2,
            ToplevelState::Resizing => 3,
            ToplevelState::Activated => 4,
            ToplevelState::TiledLeft => 5,
            ToplevelState::TiledRight => 6,
            ToplevelState::TiledTop => 7,
            ToplevelState::TiledBottom => 8,
        }
    }
}

/// The role object that makes a surface a window.
#[derive(Debug, Clone, Copy, PartialEq, Eq, Structural)]
pub struct XdgSurface {
    pub id: u32,
    pub surface_id: u32,
    pub toplevel_id: Option<u32>,
}

/// What the server keeps of a toplevel.
#[derive(Debug, PartialEq, Eq)]
pub struct XdgToplevel {
    pub id: u32,
    pub xdg_surface_id: u32,
    pub title: String,
    pub app_id: String,
    pub min_size: (i32, i32),
    pub max_size: (i32, i32),
}

/// A toplevel as a mathematical value.
pub struct XdgToplevelView {
    pub id: u32,
    pub xdg_surface_id: u32,
    pub title: Seq<char>,
    pub app_id: Seq<char>,
    pub min_size: (i32, i32),
    pub max_size: (i32, i32),
}

impl View for XdgToplevel {
    type V = XdgToplevelView;

    open spec fn view(&self) -> XdgToplevelView {
        XdgToplevelView {
            id: self.id,
            xdg_surface_id: self.xdg_surface_id,
            title: self.title@,
            app_id: self.app_id@,
            min_size: self.min_size,
            max_size: self.max_size,
        }
    }
}

impl XdgToplevelView {
    /// A toplevel as `get_toplevel` leaves it: no title, no application
    /// id, no size limits.
    pub open spec fn fresh(id: u32, xdg_surface_id: u32) -> XdgToplevelView {
        XdgToplevelView {
            id,
            xdg_surface_id,
            title: Seq::empty(),
            app_id: Seq::empty(),
            min_size: (0, 0),
            max_size: (0, 0),
        }
    }
}

impl XdgToplevel {
    /// A toplevel without title, application id or size limits.
    pub fn new(id: u32, xdg_surface_id: u32) -> (toplevel: XdgToplevel)
        ensures
            toplevel@ == XdgToplevelView::fresh(id, xdg_surface_id),
    {
        XdgToplevel {
            id,
            xdg_surface_id,
            title: String::new(),
            app_id: String::new(),
            min_size: (0, 0),
            max_size: (0, 0),
        }
    }
}

impl Default for XdgSurface {
    fn default() -> (xdg_surface: XdgSurface)
        ensures
            xdg_surface == (XdgSurface { id: 0, surface_id: 0, toplevel_id: None }),
    {
        XdgSurface { id: 0, surface_id: 0, toplevel_id: None }
    }
}

impl Default for XdgToplevel {
    fn default() -> (toplevel: XdgToplevel)
        ensures
            toplevel@ == XdgToplevelView::fresh(0, 0),
    {
        XdgToplevel::new(0, 0)
    }
}

/// The codes of the states as the array argument holds them: one word
/// each, in order.
pub open spec fn states_bytes(states: Seq<ToplevelState>) -> Seq<u8>
    decreases states.len(),
{
    if states.len() == 0 {
        Seq::empty()
    } else {
        states_bytes(states.drop_last()) + u32_le(states.last().spec_code())
    }
}

/// The `ping` event.
pub open spec fn wm_base_ping_event(wm_base_id: u32, serial: u32) -> MessageView {
    MessageView::new(wm_base_id, WM_BASE_EVENT_PING).uint(serial)
}

/// The `configure` event of an `xdg_surface`.
pub open spec fn xdg_surface_configure_event(surface_id: u32, serial: u32) -> MessageView {
    MessageView::new(surface_id, XDG_SURFACE_EVENT_CONFIGURE).uint(serial)
}

/// The `configure` event of a toplevel.
pub open spec fn toplevel_configure_event(
    toplevel_id: u32,
    width: i32,
    height: i32,
    states: Seq<ToplevelState>,
) -> MessageView {
    MessageView::new(toplevel_id, TOPLEVEL_EVENT_CONFIGURE).int_arg(width).int_arg(height).array(
        states_bytes(states),
    )
}

/// The `close` event.
pub open spec fn toplevel_close_event(toplevel_id: u32) -> MessageView {
    MessageView::new(toplevel_id, TOPLEVEL_EVENT_CLOSE)
}

/// The event that asks the client whether it is alive.
pub fn wm_base_ping(wm_base_id: u32, serial: u32) -> (event: Message)
    ensures
        event@ == wm_base_ping_event(wm_base_id, serial),
{
    Message::new(wm_base_id, WM_BASE_EVENT_PING).uint(serial)
}

/// The event that closes a round of configuration, to be acknowledged
/// with its serial.
pub fn xdg_surface_configure(surface_id: u32, serial: u32) -> (event: Message)
    ensures
        event@ == xdg_surface_configure_event(surface_id, serial),
{
    Message::new(surface_id, XDG_SURFACE_EVENT_CONFIGURE).uint(serial)
}

/// The event that proposes a size and a set of states to a toplevel.
pub fn toplevel_configure(
    toplevel_id: u32,
    width: i32,
    height: i32,
    states: &[ToplevelState],
) -> (event: Message)
    ensures
        event@ == toplevel_configure_event(toplevel_id, width, height, states@),
{
    let mut bytes: Vec<u8> = Vec::new();
    let mut i: usize = 0;
    assert(states@.take(0) =~= Seq::<ToplevelState>::empty());
    while i < states.len()
        invariant
            i <= states.len(),
            bytes@ == states_bytes(states@.take(i as int)),
        decreases states.len() - i,
    {
        push_u32_le(&mut bytes, states[i].code());
        assert(states@.take(i as int + 1).drop_last() =~= states@.take(i as int));
        i = i + 1;
    }
    assert(states@.take(i as int) =~= states@);
    Message::new(toplevel_id, TOPLEVEL_EVENT_CONFIGURE).int_arg(width).int_arg(height).arg(
        Argument::Array(bytes),
    )
}

/// The event that asks a toplevel to close.
pub fn toplevel_close(toplevel_id: u32) -> (event: Message)
    ensures
        event@ == toplevel_close_event(toplevel_id),
{
    Message::new(toplevel_id, TOPLEVEL_EVENT_CLOSE)
}

} // verus!
