use bytes::BytesMut;
use win_way::wayland::compositor::{callback_done, surface_enter, Surface};
use win_way::wayland::display::{DisplayRequest, WlDisplay};
use win_way::wayland::registry::{standard_globals, Global, WlRegistry};
use win_way::wayland::shm::{
    buffer_release, shm_format, supported_formats, Buffer, ShmFormat,
};
use win_way::wayland::wire::{Argument, Message};
use win_way::wayland::xdg_shell::{
    toplevel_close, toplevel_configure, wm_base_ping, xdg_surface_configure, ToplevelState,
    XdgToplevel,
};

#[test]
fn display_requests_are_read_by_opcode() {
    let mut sync = BytesMut::from(&[2u8, 0, 0, 0, 9][..]);
    assert_eq!(
        WlDisplay::handle_request(0, &mut sync),
        Some(DisplayRequest::Sync { callback_id: 2 })
    );
    assert_eq!(&sync[..], &[9]);
    let mut registry = BytesMut::from(&[3u8, 0, 0, 0][..]);
    assert_eq!(
        WlDisplay::handle_request(1, &mut registry),
        Some(DisplayRequest::GetRegistry { registry_id: 3 })
    );
    let mut unknown = BytesMut::from(&[3u8, 0, 0, 0][..]);
    assert_eq!(WlDisplay::handle_request(2, &mut unknown), None);
    assert_eq!(unknown.len(), 4);
    let mut short = BytesMut::from(&[3u8, 0][..]);
    assert_eq!(WlDisplay::handle_request(0, &mut short), None);
    assert_eq!(short.len(), 2);
}

#[test]
fn display_events_come_from_object_one() {
    assert_eq!(
        WlDisplay::error(7, 3, "bad"),
        Message::new(1, 0).uint(7).uint(3).string("bad")
    );
    assert_eq!(WlDisplay::delete_id(9), Message::new(1, 1).uint(9));
    assert_eq!(
        &WlDisplay::delete_id(2).encode()[..],
        &[1, 0, 0, 0, 1, 0, 12, 0, 2, 0, 0, 0]
    );
}

#[test]
fn standard_globals_are_the_seven() {
    let global = |name: u32, interface: &str, version: u32| Global {
        name,
        interface: interface.to_string(),
        version,
    };
    assert_eq!(
        standard_globals(),
        vec![
            global(1, "wl_compositor", 5),
            global(2, "wl_subcompositor", 1),
            global(3, "wl_shm", 1),
            global(4, "xdg_wm_base", 3),
            global(5, "wl_seat", 7),
            global(6, "wl_output", 4),
            global(7, "wl_data_device_manager", 3),
        ]
    );
}

#[test]
fn registry_events_name_the_global() {
    assert_eq!(
        WlRegistry::global(2, 3, "wl_shm", 1),
        Message::new(2, 0).uint(3).string("wl_shm").uint(1)
    );
    assert_eq!(WlRegistry::global_remove(2, 3), Message::new(2, 1).uint(3));
    assert_eq!(
        &WlRegistry::global(2, 3, "wl_shm", 1).encode()[..],
        &[
            2, 0, 0, 0, 0, 0, 28, 0, 3, 0, 0, 0, 7, 0, 0, 0, b'w', b'l', b'_', b's', b'h', b'm',
            0, 0, 1, 0, 0, 0,
        ]
    );
}

#[test]
fn new_surface_has_nothing_attached() {
    assert_eq!(
        Surface::new(5),
        Surface {
            id: 5,
            buffer_id: None,
            buffer_x: 0,
            buffer_y: 0,
            committed: false,
            frame_callback: None,
        }
    );
}

#[test]
fn compositor_events_carry_one_word() {
    assert_eq!(callback_done(4, 1000), Message::new(4, 0).uint(1000));
    assert_eq!(surface_enter(5, 16), Message::new(5, 0).uint(16));
}

#[test]
fn shm_formats_have_their_codes() {
    assert_eq!(ShmFormat::Argb8888.code(), 0);
    assert_eq!(ShmFormat::Xrgb8888.code(), 1);
    assert_eq!(ShmFormat::Rgb888.code(), 20);
    assert_eq!(ShmFormat::Bgr888.code(), 21);
    assert_eq!(ShmFormat::Rgba8888.code(), 0x34324152);
    assert_eq!(supported_formats(), vec![0, 1]);
}

#[test]
fn shm_events_are_for_their_object() {
    assert_eq!(shm_format(6, 1), Message::new(6, 0).uint(1));
    assert_eq!(buffer_release(21), Message::new(21, 0));
    assert_eq!(&buffer_release(21).encode()[..], &[21, 0, 0, 0, 0, 0, 8, 0]);
}

#[test]
fn new_buffer_has_geometry_and_no_pixels() {
    assert_eq!(
        Buffer::new(21, 20, 16, 640, 480, 2560, 1),
        Buffer {
            id: 21,
            pool_id: 20,
            offset: 16,
            width: 640,
            height: 480,
            stride: 2560,
            format: 1,
            data: vec![],
        }
    );
}

#[test]
fn toplevel_states_have_their_codes() {
    let codes: Vec<u32> = [
        ToplevelState::Maximized,
        ToplevelState::Fullscreen,
        ToplevelState::Resizing,
        ToplevelState::Activated,
        ToplevelState::TiledLeft,
        ToplevelState::TiledRight,
        ToplevelState::TiledTop,
        ToplevelState::TiledBottom,
    ]
    .iter()
    .map(|state| state.code())
    .collect();
    assert_eq!(codes, vec![1, 2, 3, 4, 5, 6, 7, 8]);
}

#[test]
fn toplevel_configure_lists_states_as_words() {
    assert_eq!(
        toplevel_configure(12, 800, 600, &[ToplevelState::Activated]),
        Message::new(12, 0).int_arg(800).int_arg(600).arg(Argument::Array(vec![4, 0, 0, 0]))
    );
    assert_eq!(
        toplevel_configure(12, -1, 0, &[ToplevelState::Maximized, ToplevelState::TiledBottom]),
        Message::new(12, 0)
            .int_arg(-1)
            .int_arg(0)
            .arg(Argument::Array(vec![1, 0, 0, 0, 8, 0, 0, 0]))
    );
    assert_eq!(
        toplevel_configure(12, 0, 0, &[]),
        Message::new(12, 0).int_arg(0).int_arg(0).arg(Argument::Array(vec![]))
    );
    assert_eq!(
        &toplevel_configure(12, 800, 600, &[ToplevelState::Activated]).encode()[..],
        &[
            12, 0, 0, 0, 0, 0, 24, 0, 0x20, 0x03, 0, 0, 0x58, 0x02, 0, 0, 4, 0, 0, 0, 4, 0, 0, 0,
        ]
    );
}

#[test]
fn xdg_events_are_for_their_object() {
    assert_eq!(wm_base_ping(10, 77), Message::new(10, 0).uint(77));
    assert_eq!(xdg_surface_configure(11, 5), Message::new(11, 0).uint(5));
    assert_eq!(toplevel_close(12), Message::new(12, 1));
}

#[test]
fn new_toplevel_has_no_title() {
    assert_eq!(
        XdgToplevel::new(12, 11),
        XdgToplevel {
            id: 12,
            xdg_surface_id: 11,
            title: String::new(),
            app_id: String::new(),
            min_size: (0, 0),
            max_size: (0, 0),
        }
    );
}
