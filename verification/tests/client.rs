use win_way::wayland::client::{
    bind_interface, has_pixel_magic, next_serial, same_text, wall_time_millis, RenderEvent,
    SerialCounter, WaylandClient,
};
use win_way::wayland::object::Interface;
use win_way::wayland::wire::{Argument, Message};
use win_way::WinWayError;

const TIME: u32 = 123456;

fn frame(message: Message) -> Vec<u8> {
    message.encode().to_vec()
}

fn pixl(surface_id: u32, width: u32, height: u32, format: u32, data: &[u8]) -> Vec<u8> {
    let mut bytes = b"PIXL".to_vec();
    bytes.extend_from_slice(&surface_id.to_le_bytes());
    bytes.extend_from_slice(&width.to_le_bytes());
    bytes.extend_from_slice(&height.to_le_bytes());
    bytes.extend_from_slice(&format.to_le_bytes());
    bytes.extend_from_slice(&(data.len() as u32).to_le_bytes());
    bytes.extend_from_slice(data);
    bytes
}

fn feed(client: &mut WaylandClient, serials: &mut SerialCounter, message: Message) {
    client.process_at(&frame(message), TIME, serials).unwrap();
}

fn bind(name: u32, interface: &str, version: u32, id: u32) -> Message {
    Message::new(2, 0).uint(name).string(interface).uint(version).new_id(id)
}

/// A client with the registry at 2, the compositor at 4, the shm at 6, the
/// window manager base at 10 and the seat at 8, and with empty queues.
fn bound_client(serials: &mut SerialCounter) -> WaylandClient {
    let mut client = WaylandClient::new(1);
    feed(&mut client, serials, Message::new(1, 1).new_id(2));
    feed(&mut client, serials, bind(1, "wl_compositor", 5, 4));
    feed(&mut client, serials, bind(3, "wl_shm", 1, 6));
    feed(&mut client, serials, bind(4, "xdg_wm_base", 3, 10));
    feed(&mut client, serials, bind(5, "wl_seat", 7, 8));
    client.take_outgoing();
    client.take_render_events();
    client
}

#[test]
fn display_is_there_from_the_start() {
    let mut serials = SerialCounter::new();
    let mut client = WaylandClient::new(7);
    assert_eq!(client.id, 7);
    assert!(client.take_outgoing().is_empty());
    assert!(client.take_render_events().is_empty());
    feed(&mut client, &mut serials, Message::new(1, 0).new_id(9));
    assert_eq!(client.take_outgoing().len(), 2);
}

#[test]
fn sync_fires_and_deletes_the_callback() {
    let mut serials = SerialCounter::new();
    let mut client = WaylandClient::new(1);
    let request = [0x01, 0, 0, 0, 0, 0, 0x0C, 0, 0x02, 0, 0, 0];
    client.process_at(&request, TIME, &mut serials).unwrap();
    assert_eq!(
        client.take_outgoing(),
        vec![Message::new(2, 0).uint(TIME), Message::new(1, 1).uint(2)]
    );
    assert!(client.take_render_events().is_empty());
}

#[test]
fn sync_with_the_clock_carries_some_time() {
    let mut serials = SerialCounter::new();
    let mut client = WaylandClient::new(1);
    client.process(&frame(Message::new(1, 0).new_id(2)), &mut serials).unwrap();
    let outgoing = client.take_outgoing();
    assert_eq!(outgoing.len(), 2);
    assert_eq!((outgoing[0].object_id, outgoing[0].opcode), (2, 0));
    assert!(matches!(outgoing[0].args[..], [Argument::Uint(_)]));
    assert_eq!(outgoing[1], Message::new(1, 1).uint(2));
}

#[test]
fn get_registry_announces_the_globals_in_order() {
    let mut serials = SerialCounter::new();
    let mut client = WaylandClient::new(1);
    feed(&mut client, &mut serials, Message::new(1, 1).new_id(3));
    let global = |name: u32, interface: &str, version: u32| {
        Message::new(3, 0).uint(name).string(interface).uint(version)
    };
    assert_eq!(
        client.take_outgoing(),
        vec![
            global(1, "wl_compositor", 5),
            global(2, "wl_subcompositor", 1),
            global(3, "wl_shm", 1),
            global(4, "xdg_wm_base", 3),
            global(5, "wl_seat", 7),
            global(6, "wl_output", 4),
            global(7, "wl_data_device_manager", 3),
        ]
    );
}

#[test]
fn surface_and_sideband_pixels_reach_the_renderer() {
    let mut serials = SerialCounter::new();
    let mut client = WaylandClient::new(1);
    feed(&mut client, &mut serials, Message::new(1, 1).new_id(2));
    feed(&mut client, &mut serials, bind(1, "wl_compositor", 5, 4));
    feed(&mut client, &mut serials, Message::new(4, 0).new_id(5));
    let pixels = [0xFF, 0x00, 0x00, 0xFF, 0x00, 0xFF, 0x00, 0xFF];
    client.process_at(&pixl(5, 2, 1, 0, &pixels), TIME, &mut serials).unwrap();
    assert_eq!(
        client.take_render_events(),
        vec![
            RenderEvent::SurfaceCreated { id: 5 },
            RenderEvent::PixelData {
                surface_id: 5,
                width: 2,
                height: 1,
                format: 0,
                data: pixels.to_vec(),
            },
        ]
    );
}

#[test]
fn toplevel_is_configured_at_once() {
    let mut serials = SerialCounter::new();
    let mut client = bound_client(&mut serials);
    feed(&mut client, &mut serials, Message::new(4, 0).new_id(5));
    feed(&mut client, &mut serials, Message::new(10, 2).new_id(11).object(5));
    assert!(client.take_outgoing().is_empty());
    let mut probe = SerialCounter::new();
    let expected_serial = next_serial(&mut probe);
    feed(&mut client, &mut serials, Message::new(11, 1).new_id(12));
    assert_eq!(
        client.take_outgoing(),
        vec![
            Message::new(12, 0).int_arg(800).int_arg(600).arg(Argument::Array(vec![4, 0, 0, 0])),
            Message::new(11, 0).uint(expected_serial),
        ]
    );
    assert_eq!(next_serial(&mut serials), expected_serial + 1);
}

#[test]
fn title_reaches_the_renderer_under_the_surface() {
    let mut serials = SerialCounter::new();
    let mut client = bound_client(&mut serials);
    feed(&mut client, &mut serials, Message::new(4, 0).new_id(5));
    feed(&mut client, &mut serials, Message::new(10, 2).new_id(11).object(5));
    feed(&mut client, &mut serials, Message::new(11, 1).new_id(12));
    client.take_render_events();
    feed(&mut client, &mut serials, Message::new(12, 2).string("Hi"));
    assert_eq!(
        client.take_render_events(),
        vec![RenderEvent::TitleChanged { surface_id: 5, title: "Hi".to_string() }]
    );
}

#[test]
fn title_without_a_role_object_reaches_nobody() {
    let mut serials = SerialCounter::new();
    let mut client = bound_client(&mut serials);
    feed(&mut client, &mut serials, Message::new(4, 0).new_id(5));
    feed(&mut client, &mut serials, Message::new(10, 2).new_id(11).object(5));
    feed(&mut client, &mut serials, Message::new(11, 1).new_id(12));
    feed(&mut client, &mut serials, Message::new(11, 0));
    client.take_render_events();
    feed(&mut client, &mut serials, Message::new(12, 2).string("Hi"));
    feed(&mut client, &mut serials, Message::new(12, 3).string("org.example"));
    assert!(client.take_render_events().is_empty());
}

#[test]
fn set_title_on_a_missing_toplevel_changes_nothing() {
    let mut client = WaylandClient::new(1);
    client.set_title(40, "x".to_string());
    client.set_app_id(40, "y".to_string());
    assert!(client.take_render_events().is_empty());
    assert!(client.take_outgoing().is_empty());
}

#[test]
fn shm_announces_its_formats() {
    let mut serials = SerialCounter::new();
    let mut client = WaylandClient::new(1);
    feed(&mut client, &mut serials, Message::new(1, 1).new_id(2));
    client.take_outgoing();
    feed(&mut client, &mut serials, bind(3, "wl_shm", 1, 6));
    assert_eq!(
        client.take_outgoing(),
        vec![Message::new(6, 0).uint(0), Message::new(6, 0).uint(1)]
    );
}

#[test]
fn seat_announces_capabilities_and_name() {
    let mut serials = SerialCounter::new();
    let mut client = WaylandClient::new(1);
    feed(&mut client, &mut serials, Message::new(1, 1).new_id(2));
    client.take_outgoing();
    feed(&mut client, &mut serials, bind(5, "wl_seat", 7, 8));
    assert_eq!(
        client.take_outgoing(),
        vec![Message::new(8, 0).uint(3), Message::new(8, 1).string("win-way-seat")]
    );
}

#[test]
fn other_globals_bind_silently() {
    let mut serials = SerialCounter::new();
    let mut client = WaylandClient::new(1);
    feed(&mut client, &mut serials, Message::new(1, 1).new_id(2));
    client.take_outgoing();
    feed(&mut client, &mut serials, bind(1, "wl_compositor", 5, 4));
    feed(&mut client, &mut serials, bind(2, "wl_subcompositor", 1, 14));
    feed(&mut client, &mut serials, bind(4, "xdg_wm_base", 3, 10));
    feed(&mut client, &mut serials, bind(6, "wl_output", 4, 16));
    feed(&mut client, &mut serials, bind(7, "wl_data_device_manager", 3, 17));
    feed(&mut client, &mut serials, bind(9, "zwp_unknown_v1", 1, 18));
    assert!(client.take_outgoing().is_empty());
    feed(&mut client, &mut serials, Message::new(18, 0).new_id(30));
    feed(&mut client, &mut serials, Message::new(4, 0).new_id(5));
    assert_eq!(client.take_render_events(), vec![RenderEvent::SurfaceCreated { id: 5 }]);
}

#[test]
fn bind_goes_by_the_name() {
    assert_eq!(bind_interface("wl_compositor"), Some(Interface::Compositor));
    assert_eq!(bind_interface("wl_subcompositor"), Some(Interface::Subcompositor));
    assert_eq!(bind_interface("wl_shm"), Some(Interface::Shm));
    assert_eq!(bind_interface("xdg_wm_base"), Some(Interface::XdgWmBase));
    assert_eq!(bind_interface("wl_seat"), Some(Interface::Seat));
    assert_eq!(bind_interface("wl_output"), Some(Interface::Output));
    assert_eq!(bind_interface("wl_data_device_manager"), Some(Interface::DataDeviceManager));
    assert_eq!(bind_interface("wl_shm_pool"), None);
    assert_eq!(bind_interface(""), None);
}

#[test]
fn bind_called_directly_registers_the_object() {
    let mut serials = SerialCounter::new();
    let mut client = WaylandClient::new(1);
    client.bind(1, "wl_compositor", 5, 4);
    feed(&mut client, &mut serials, Message::new(4, 0).new_id(5));
    assert_eq!(client.take_render_events(), vec![RenderEvent::SurfaceCreated { id: 5 }]);
}

#[test]
fn same_text_compares_whole_strings() {
    assert!(same_text("wl_shm", "wl_shm"));
    assert!(same_text("", ""));
    assert!(!same_text("wl_shm", "wl_shn"));
    assert!(!same_text("wl_shm", "wl_shm_pool"));
    assert!(!same_text("é", "e"));
}

#[test]
fn commit_presents_releases_and_fires_in_order() {
    let mut serials = SerialCounter::new();
    let mut client = bound_client(&mut serials);
    feed(&mut client, &mut serials, Message::new(4, 0).new_id(5));
    feed(&mut client, &mut serials, Message::new(6, 0).new_id(20).uint(4096));
    feed(
        &mut client,
        &mut serials,
        Message::new(20, 0).new_id(21).int_arg(0).int_arg(2).int_arg(1).int_arg(8).uint(0),
    );
    client.set_buffer_data(21, vec![1, 2, 3, 4, 5, 6, 7, 8]);
    feed(&mut client, &mut serials, Message::new(5, 1).object(21).int_arg(0).int_arg(0));
    feed(&mut client, &mut serials, Message::new(5, 3).new_id(22));
    client.take_render_events();
    assert!(client.take_outgoing().is_empty());
    feed(&mut client, &mut serials, Message::new(5, 6));
    assert_eq!(
        client.take_render_events(),
        vec![RenderEvent::SurfaceCommit {
            surface_id: 5,
            width: 2,
            height: 1,
            data: vec![1, 2, 3, 4, 5, 6, 7, 8],
        }]
    );
    assert_eq!(
        client.take_outgoing(),
        vec![Message::new(21, 0), Message::new(22, 0).uint(TIME), Message::new(1, 1).uint(22)]
    );
}

#[test]
fn second_commit_has_no_callback_left() {
    let mut serials = SerialCounter::new();
    let mut client = bound_client(&mut serials);
    feed(&mut client, &mut serials, Message::new(4, 0).new_id(5));
    feed(&mut client, &mut serials, Message::new(6, 0).new_id(20).uint(64));
    feed(
        &mut client,
        &mut serials,
        Message::new(20, 0).new_id(21).int_arg(0).int_arg(4).int_arg(4).int_arg(16).uint(1),
    );
    feed(&mut client, &mut serials, Message::new(5, 1).object(21).int_arg(3).int_arg(-3));
    feed(&mut client, &mut serials, Message::new(5, 3).new_id(22));
    feed(&mut client, &mut serials, Message::new(5, 6));
    client.take_outgoing();
    client.take_render_events();
    feed(&mut client, &mut serials, Message::new(5, 6));
    assert_eq!(client.take_outgoing(), vec![Message::new(21, 0)]);
    assert_eq!(
        client.take_render_events(),
        vec![RenderEvent::SurfaceCommit { surface_id: 5, width: 4, height: 4, data: vec![] }]
    );
}

#[test]
fn commit_without_a_buffer_only_fires_the_callback() {
    let mut serials = SerialCounter::new();
    let mut client = bound_client(&mut serials);
    feed(&mut client, &mut serials, Message::new(4, 0).new_id(5));
    feed(&mut client, &mut serials, Message::new(5, 3).new_id(22));
    client.take_render_events();
    feed(&mut client, &mut serials, Message::new(5, 6));
    assert!(client.take_render_events().is_empty());
    assert_eq!(
        client.take_outgoing(),
        vec![Message::new(22, 0).uint(TIME), Message::new(1, 1).uint(22)]
    );
}

#[test]
fn attach_of_zero_detaches() {
    let mut serials = SerialCounter::new();
    let mut client = bound_client(&mut serials);
    feed(&mut client, &mut serials, Message::new(4, 0).new_id(5));
    feed(&mut client, &mut serials, Message::new(6, 0).new_id(20).uint(64));
    feed(
        &mut client,
        &mut serials,
        Message::new(20, 0).new_id(21).int_arg(0).int_arg(4).int_arg(4).int_arg(16).uint(1),
    );
    feed(&mut client, &mut serials, Message::new(5, 1).object(21).int_arg(0).int_arg(0));
    feed(&mut client, &mut serials, Message::new(5, 1).object(0).int_arg(0).int_arg(0));
    client.take_render_events();
    feed(&mut client, &mut serials, Message::new(5, 6));
    assert!(client.take_render_events().is_empty());
    assert!(client.take_outgoing().is_empty());
}

#[test]
fn commit_with_a_destroyed_buffer_presents_nothing() {
    let mut serials = SerialCounter::new();
    let mut client = bound_client(&mut serials);
    feed(&mut client, &mut serials, Message::new(4, 0).new_id(5));
    feed(&mut client, &mut serials, Message::new(6, 0).new_id(20).uint(64));
    feed(
        &mut client,
        &mut serials,
        Message::new(20, 0).new_id(21).int_arg(0).int_arg(4).int_arg(4).int_arg(16).uint(1),
    );
    feed(&mut client, &mut serials, Message::new(5, 1).object(21).int_arg(0).int_arg(0));
    feed(&mut client, &mut serials, Message::new(21, 0));
    client.take_render_events();
    feed(&mut client, &mut serials, Message::new(5, 6));
    assert!(client.take_render_events().is_empty());
    assert!(client.take_outgoing().is_empty());
}

#[test]
fn buffer_outlives_its_pool() {
    let mut serials = SerialCounter::new();
    let mut client = bound_client(&mut serials);
    feed(&mut client, &mut serials, Message::new(4, 0).new_id(5));
    feed(&mut client, &mut serials, Message::new(6, 0).new_id(20).uint(64));
    feed(
        &mut client,
        &mut serials,
        Message::new(20, 0).new_id(21).int_arg(0).int_arg(1).int_arg(1).int_arg(4).uint(0),
    );
    feed(&mut client, &mut serials, Message::new(20, 2).int_arg(128));
    feed(&mut client, &mut serials, Message::new(20, 1));
    feed(&mut client, &mut serials, Message::new(20, 2).int_arg(256));
    feed(&mut client, &mut serials, Message::new(5, 1).object(21).int_arg(0).int_arg(0));
    client.take_render_events();
    feed(&mut client, &mut serials, Message::new(5, 6));
    assert_eq!(client.take_outgoing(), vec![Message::new(21, 0)]);
    assert_eq!(client.take_render_events().len(), 1);
}

#[test]
fn destroyed_surface_is_gone() {
    let mut serials = SerialCounter::new();
    let mut client = bound_client(&mut serials);
    feed(&mut client, &mut serials, Message::new(4, 0).new_id(5));
    feed(&mut client, &mut serials, Message::new(5, 0));
    assert_eq!(
        client.take_render_events(),
        vec![RenderEvent::SurfaceCreated { id: 5 }, RenderEvent::SurfaceDestroyed { id: 5 }]
    );
    feed(&mut client, &mut serials, Message::new(5, 3).new_id(22));
    feed(&mut client, &mut serials, Message::new(5, 6));
    assert!(client.take_outgoing().is_empty());
    assert!(client.take_render_events().is_empty());
}

#[test]
fn ignored_requests_change_nothing() {
    let mut serials = SerialCounter::new();
    let mut client = bound_client(&mut serials);
    feed(&mut client, &mut serials, Message::new(4, 0).new_id(5));
    feed(&mut client, &mut serials, Message::new(4, 1).new_id(30));
    client.take_render_events();
    feed(
        &mut client,
        &mut serials,
        Message::new(5, 2).int_arg(0).int_arg(0).int_arg(10).int_arg(10),
    );
    feed(&mut client, &mut serials, Message::new(5, 4).object(30));
    feed(&mut client, &mut serials, Message::new(5, 8).int_arg(2));
    feed(&mut client, &mut serials, Message::new(1, 9));
    feed(&mut client, &mut serials, Message::new(2, 5));
    feed(&mut client, &mut serials, Message::new(30, 0));
    feed(&mut client, &mut serials, Message::new(999, 0).uint(1));
    feed(&mut client, &mut serials, Message::new(10, 3).uint(77));
    feed(&mut client, &mut serials, Message::new(10, 1).new_id(31));
    feed(&mut client, &mut serials, Message::new(10, 0));
    assert!(client.take_outgoing().is_empty());
    assert!(client.take_render_events().is_empty());
}

#[test]
fn ack_configure_is_accepted() {
    let mut serials = SerialCounter::new();
    let mut client = bound_client(&mut serials);
    feed(&mut client, &mut serials, Message::new(4, 0).new_id(5));
    feed(&mut client, &mut serials, Message::new(10, 2).new_id(11).object(5));
    feed(&mut client, &mut serials, Message::new(11, 1).new_id(12));
    client.take_outgoing();
    feed(&mut client, &mut serials, Message::new(11, 4).uint(1));
    feed(&mut client, &mut serials, Message::new(12, 9));
    feed(&mut client, &mut serials, Message::new(12, 0));
    feed(&mut client, &mut serials, Message::new(12, 2).string("late"));
    assert!(client.take_outgoing().is_empty());
    assert_eq!(next_serial(&mut serials), 2);
}

#[test]
fn get_toplevel_on_an_unbound_role_object_still_configures() {
    let mut serials = SerialCounter::new();
    let mut client = bound_client(&mut serials);
    feed(&mut client, &mut serials, Message::new(10, 2).new_id(11).object(5));
    feed(&mut client, &mut serials, Message::new(11, 1).new_id(12));
    let outgoing = client.take_outgoing();
    assert_eq!(outgoing.len(), 2);
    assert_eq!(outgoing[1], Message::new(11, 0).uint(1));
}

#[test]
fn truncated_request_is_an_error_and_changes_nothing() {
    let mut serials = SerialCounter::new();
    let mut client = bound_client(&mut serials);
    let short = [4, 0, 0, 0, 0, 0, 10, 0, 5, 0];
    let result = client.process_at(&short, TIME, &mut serials);
    assert!(matches!(result, Err(WinWayError::InvalidMessage)));
    assert!(client.take_render_events().is_empty());
    assert_eq!(client.decoder.buffer.len(), 0);
}

#[test]
fn truncated_bind_registers_nothing() {
    let mut serials = SerialCounter::new();
    let mut client = bound_client(&mut serials);
    let request = Message::new(2, 0).uint(1).string("wl_compositor").uint(5);
    let result = client.process_at(&frame(request), TIME, &mut serials);
    assert!(matches!(result, Err(WinWayError::InvalidMessage)));
    assert!(client.take_outgoing().is_empty());
}

#[test]
fn what_was_queued_before_a_failure_stays() {
    let mut serials = SerialCounter::new();
    let mut client = bound_client(&mut serials);
    let mut stream = frame(Message::new(4, 0).new_id(5));
    stream.extend_from_slice(&[4, 0, 0, 0, 0, 0, 8, 0]);
    stream.extend_from_slice(&frame(Message::new(4, 0).new_id(6)));
    let result = client.process_at(&stream, TIME, &mut serials);
    assert!(matches!(result, Err(WinWayError::InvalidMessage)));
    assert_eq!(client.take_render_events(), vec![RenderEvent::SurfaceCreated { id: 5 }]);
    assert_eq!(client.decoder.buffer.len(), 12);
}

#[test]
fn undersized_frame_is_a_protocol_error() {
    let mut serials = SerialCounter::new();
    let mut client = WaylandClient::new(1);
    let result = client.process_at(&[1, 0, 0, 0, 0, 0, 4, 0], TIME, &mut serials);
    match result {
        Err(WinWayError::Protocol(text)) => assert_eq!(text, "frame size below header size"),
        other => panic!("expected a protocol error, got {:?}", other),
    }
    assert_eq!(client.decoder.buffer.len(), 8);
}

#[test]
fn requests_may_arrive_byte_by_byte() {
    let mut serials = SerialCounter::new();
    let mut client = WaylandClient::new(1);
    let mut stream = frame(Message::new(1, 1).new_id(2));
    stream.extend_from_slice(&frame(bind(1, "wl_compositor", 5, 4)));
    stream.extend_from_slice(&frame(Message::new(4, 0).new_id(5)));
    stream.extend_from_slice(&pixl(5, 1, 1, 1, &[9, 9, 9, 9]));
    stream.extend_from_slice(&frame(Message::new(5, 0)));
    for byte in stream {
        client.process_at(&[byte], TIME, &mut serials).unwrap();
    }
    assert_eq!(client.take_outgoing().len(), 7);
    assert_eq!(
        client.take_render_events(),
        vec![
            RenderEvent::SurfaceCreated { id: 5 },
            RenderEvent::PixelData {
                surface_id: 5,
                width: 1,
                height: 1,
                format: 1,
                data: vec![9, 9, 9, 9],
            },
            RenderEvent::SurfaceDestroyed { id: 5 },
        ]
    );
}

#[test]
fn pixel_frame_survives_a_cut_at_every_byte() {
    let sideband = pixl(5, 2, 1, 0, &[1, 2, 3, 4, 5, 6, 7, 8]);
    for cut in 0..=sideband.len() {
        let mut serials = SerialCounter::new();
        let mut client = WaylandClient::new(1);
        client.process_at(&sideband[..cut], TIME, &mut serials).unwrap();
        if cut < sideband.len() {
            assert!(client.take_render_events().is_empty(), "cut at {}", cut);
        }
        client.process_at(&sideband[cut..], TIME, &mut serials).unwrap();
        assert_eq!(
            client.take_render_events(),
            vec![RenderEvent::PixelData {
                surface_id: 5,
                width: 2,
                height: 1,
                format: 0,
                data: vec![1, 2, 3, 4, 5, 6, 7, 8],
            }]
        );
        assert_eq!(client.decoder.buffer.len(), 0);
    }
}

#[test]
fn empty_pixel_frame_is_a_frame() {
    let mut serials = SerialCounter::new();
    let mut client = WaylandClient::new(1);
    let mut stream = pixl(3, 0, 0, 1, &[]);
    stream.extend_from_slice(&frame(Message::new(1, 0).new_id(2)));
    client.process_at(&stream, TIME, &mut serials).unwrap();
    assert_eq!(
        client.take_render_events(),
        vec![RenderEvent::PixelData { surface_id: 3, width: 0, height: 0, format: 1, data: vec![] }]
    );
    assert_eq!(client.take_outgoing().len(), 2);
}

#[test]
fn pixel_magic_is_four_bytes() {
    assert!(has_pixel_magic(b"PIXL"));
    assert!(has_pixel_magic(b"PIXLxyz"));
    assert!(!has_pixel_magic(b"PIX"));
    assert!(!has_pixel_magic(b"PIXl"));
    assert!(!has_pixel_magic(b""));
}

#[test]
fn taking_the_queues_empties_them() {
    let mut serials = SerialCounter::new();
    let mut client = WaylandClient::new(1);
    feed(&mut client, &mut serials, Message::new(1, 0).new_id(2));
    assert_eq!(client.take_outgoing().len(), 2);
    assert!(client.take_outgoing().is_empty());
}

#[test]
fn set_buffer_data_on_a_missing_buffer_changes_nothing() {
    let mut serials = SerialCounter::new();
    let mut client = bound_client(&mut serials);
    client.set_buffer_data(99, vec![1, 2, 3]);
    feed(&mut client, &mut serials, Message::new(4, 0).new_id(5));
    feed(&mut client, &mut serials, Message::new(5, 1).object(99).int_arg(0).int_arg(0));
    client.take_render_events();
    feed(&mut client, &mut serials, Message::new(5, 6));
    assert!(client.take_render_events().is_empty());
}

#[test]
fn keys_go_to_the_keyboard() {
    let mut serials = SerialCounter::new();
    let mut client = bound_client(&mut serials);
    client.send_key(1, 2, 30, 1);
    assert!(client.take_outgoing().is_empty());
    feed(&mut client, &mut serials, Message::new(8, 1).new_id(41));
    client.send_key(1, 2, 30, 1);
    assert_eq!(
        client.take_outgoing(),
        vec![Message::new(41, 3).uint(1).uint(2).uint(30).uint(1)]
    );
}

#[test]
fn motion_and_buttons_go_to_the_pointer() {
    let mut serials = SerialCounter::new();
    let mut client = bound_client(&mut serials);
    client.send_motion(5, 256, 512);
    client.send_button(1, 2, 0x110, 1);
    assert!(client.take_outgoing().is_empty());
    feed(&mut client, &mut serials, Message::new(8, 0).new_id(40));
    feed(&mut client, &mut serials, Message::new(8, 7));
    client.send_motion(5, 256, -128);
    client.send_button(9, 6, 0x110, 0);
    assert_eq!(
        client.take_outgoing(),
        vec![
            Message::new(40, 2).uint(5).arg(Argument::Fixed(256)).arg(Argument::Fixed(-128)),
            Message::new(40, 3).uint(9).uint(6).uint(0x110).uint(0),
        ]
    );
}

#[test]
fn handle_message_takes_one_request() {
    let mut serials = SerialCounter::new();
    let mut client = WaylandClient::new(1);
    let mut payload = bytes::BytesMut::from(&[2u8, 0, 0, 0][..]);
    client.handle_message(1, 0, &mut payload, 5, &mut serials).unwrap();
    assert_eq!(
        client.take_outgoing(),
        vec![Message::new(2, 0).uint(5), Message::new(1, 1).uint(2)]
    );
    let mut empty = bytes::BytesMut::new();
    let result = client.handle_message(1, 0, &mut empty, 5, &mut serials);
    assert!(matches!(result, Err(WinWayError::InvalidMessage)));
}

#[test]
fn event_time_is_the_clock_in_thirty_two_bits() {
    assert_eq!(wall_time_millis(None), 0);
    assert_eq!(wall_time_millis(Some(0)), 0);
    assert_eq!(wall_time_millis(Some(1_700_000_000_123)), 3_487_918_203);
    assert_eq!(wall_time_millis(Some(1 << 32)), 0);
    assert_eq!(wall_time_millis(Some((1 << 32) + 5)), 5);
}

#[test]
fn serials_count_up_from_one() {
    let mut serials = SerialCounter::new();
    assert_eq!(next_serial(&mut serials), 1);
    assert_eq!(next_serial(&mut serials), 2);
    assert_eq!(next_serial(&mut serials), 3);
}

#[test]
fn serials_increase_across_connections() {
    let mut serials = SerialCounter::new();
    let mut first = bound_client(&mut serials);
    let mut second = bound_client(&mut serials);
    let mut seen = Vec::new();
    for round in 0..3u32 {
        for client in [&mut first, &mut second] {
            let xdg_surface = 100 + 2 * round;
            feed(client, &mut serials, Message::new(10, 2).new_id(xdg_surface).object(5));
            feed(client, &mut serials, Message::new(xdg_surface, 1).new_id(xdg_surface + 1));
            let outgoing = client.take_outgoing();
            match outgoing[1].args[0] {
                Argument::Uint(serial) => seen.push(serial),
                _ => panic!("configure without a serial"),
            }
        }
        seen.push(next_serial(&mut serials));
    }
    assert_eq!(seen, vec![1, 2, 3, 4, 5, 6, 7, 8, 9]);
    assert!(seen.windows(2).all(|pair| pair[0] < pair[1]));
}
