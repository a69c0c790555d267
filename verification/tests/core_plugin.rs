use joid::client::{Client, Clients};
use joid::core_plugin::{CorePlugin, TopLevel};
use joid::protocol::{
    ConfigureRequest, Geometry, Request, Screen, UnmapNotify, WindowAttributes, CW_BACKING_PIXEL,
    CW_BORDER_PIXEL,
};

fn screen() -> Screen {
    Screen { root: 1, root_visual: 33 }
}

fn geometry() -> Geometry {
    Geometry { x: 10, y: 20, width: 300, height: 200 }
}

fn attributes(override_redirect: bool, map_state: u8) -> WindowAttributes {
    WindowAttributes { override_redirect, map_state }
}

fn frame_creation(frame: u32) -> Request {
    Request::CreateWindow {
        depth: 0,
        wid: frame,
        parent: 1,
        x: 10,
        y: 20,
        width: 300,
        height: 200,
        border_width: 3,
        class: 1,
        visual: 33,
        values: vec![(CW_BORDER_PIXEL, 0xff0000), (CW_BACKING_PIXEL, 0x0000ff)],
    }
}

fn configure_event(window: u32) -> ConfigureRequest {
    ConfigureRequest {
        window,
        x: -3,
        y: 4,
        width: 500,
        height: 400,
        border_width: 2,
        sibling: 77,
        stack_mode: 1,
        value_mask: 0x7f,
    }
}

fn passed_values() -> Vec<(u16, u32)> {
    vec![(1, 0xffff_fffd), (2, 4), (4, 500), (8, 400), (16, 2), (32, 77), (64, 1)]
}

#[test]
fn init_adopts_only_viewable_windows() {
    let plugin = CorePlugin {};
    let mut clients = Clients::new();
    let children = vec![
        TopLevel { window: 10, attributes: attributes(false, 2), geometry: geometry(), frame: 110 },
        TopLevel { window: 11, attributes: attributes(true, 2), geometry: geometry(), frame: 0 },
        TopLevel { window: 12, attributes: attributes(false, 0), geometry: geometry(), frame: 0 },
        TopLevel { window: 13, attributes: attributes(false, 2), geometry: geometry(), frame: 113 },
    ];
    let requests = plugin.init(&mut clients, &children, screen());
    assert_eq!(
        requests,
        vec![
            frame_creation(110),
            Request::ReparentWindow { window: 10, parent: 110, x: 0, y: 0 },
            Request::MapWindow { window: 110 },
            frame_creation(113),
            Request::ReparentWindow { window: 13, parent: 113, x: 0, y: 0 },
            Request::MapWindow { window: 113 },
        ]
    );
    assert_eq!(clients.clients.len(), 2);
    assert_eq!(clients.clients[&10], Client { frame: 110, window: 10, workspace: None });
    assert_eq!(clients.clients[&13], Client { frame: 113, window: 13, workspace: None });
}

#[test]
fn init_without_windows_sends_nothing() {
    let plugin = CorePlugin {};
    let mut clients = Clients::new();
    let requests = plugin.init(&mut clients, &Vec::new(), screen());
    assert!(requests.is_empty());
    assert!(clients.clients.is_empty());
}

#[test]
fn configure_unmanaged_window() {
    let plugin = CorePlugin {};
    let clients = Clients::new();
    let requests = plugin.on_configure_request(&clients, configure_event(9));
    assert_eq!(
        requests,
        vec![Request::ConfigureWindow { window: 9, values: passed_values() }, Request::Flush]
    );
}

#[test]
fn configure_managed_window_moves_frame_too() {
    let plugin = CorePlugin {};
    let mut clients = Clients::new();
    plugin.on_map_request(&mut clients, 9, attributes(false, 0), geometry(), 90, screen());
    let requests = plugin.on_configure_request(&clients, configure_event(9));
    assert_eq!(
        requests,
        vec![
            Request::ConfigureWindow { window: 90, values: passed_values() },
            Request::ConfigureWindow { window: 9, values: passed_values() },
            Request::Flush,
        ]
    );
}

#[test]
fn map_request_frames_then_maps() {
    let plugin = CorePlugin {};
    let mut clients = Clients::new();
    let requests =
        plugin.on_map_request(&mut clients, 9, attributes(true, 0), geometry(), 90, screen());
    assert_eq!(
        requests,
        vec![
            frame_creation(90),
            Request::ReparentWindow { window: 9, parent: 90, x: 0, y: 0 },
            Request::MapWindow { window: 90 },
            Request::MapWindow { window: 9 },
        ]
    );
    assert_eq!(clients.clients[&9].frame, 90);
}

#[test]
fn unmap_of_managed_window_is_ignored() {
    let plugin = CorePlugin {};
    let mut clients = Clients::new();
    plugin.on_map_request(&mut clients, 9, attributes(false, 2), geometry(), 90, screen());
    let requests = plugin.on_unmap_notify(&mut clients, UnmapNotify { event: 90, window: 9 }, 1);
    assert!(requests.is_empty());
    assert_eq!(clients.clients.len(), 1);
}

#[test]
fn unmap_reported_on_root_is_ignored() {
    let plugin = CorePlugin {};
    let mut clients = Clients::new();
    let requests = plugin.on_unmap_notify(&mut clients, UnmapNotify { event: 1, window: 9 }, 1);
    assert!(requests.is_empty());
    assert!(clients.clients.is_empty());
}

#[test]
fn unmap_of_unknown_window_changes_nothing() {
    let plugin = CorePlugin {};
    let mut clients = Clients::new();
    plugin.on_map_request(&mut clients, 9, attributes(false, 2), geometry(), 90, screen());
    let requests = plugin.on_unmap_notify(&mut clients, UnmapNotify { event: 5, window: 8 }, 1);
    assert!(requests.is_empty());
    assert_eq!(clients.clients.len(), 1);
}

#[test]
fn init_keeps_clients_of_other_windows() {
    let plugin = CorePlugin {};
    let mut clients = Clients::new();
    plugin.on_map_request(&mut clients, 9, attributes(false, 2), geometry(), 90, screen());
    let children = vec![
        TopLevel { window: 10, attributes: attributes(false, 2), geometry: geometry(), frame: 110 },
    ];
    plugin.init(&mut clients, &children, screen());
    assert_eq!(clients.clients.len(), 2);
    assert_eq!(clients.clients[&9], Client { frame: 90, window: 9, workspace: None });
    assert_eq!(clients.clients[&10].frame, 110);
}

#[test]
fn configure_passes_on_only_masked_fields() {
    let plugin = CorePlugin {};
    let clients = Clients::new();
    let mut event = configure_event(7);
    event.x = 10;
    event.y = 20;
    event.value_mask = 1 | 2;
    let requests = plugin.on_configure_request(&clients, event);
    assert_eq!(
        requests,
        vec![Request::ConfigureWindow { window: 7, values: vec![(1, 10), (2, 20)] }, Request::Flush]
    );
}

#[test]
fn configure_size_uses_width_and_height() {
    let plugin = CorePlugin {};
    let clients = Clients::new();
    let mut event = configure_event(7);
    event.width = 300;
    event.height = 200;
    event.value_mask = 4 | 8;
    let requests = plugin.on_configure_request(&clients, event);
    assert_eq!(
        requests,
        vec![Request::ConfigureWindow { window: 7, values: vec![(4, 300), (8, 200)] }, Request::Flush]
    );
}

#[test]
fn configure_with_empty_mask_sends_empty_lists() {
    let plugin = CorePlugin {};
    let mut clients = Clients::new();
    plugin.on_map_request(&mut clients, 7, attributes(false, 2), geometry(), 70, screen());
    let mut event = configure_event(7);
    event.value_mask = 0;
    let requests = plugin.on_configure_request(&clients, event);
    assert_eq!(
        requests,
        vec![
            Request::ConfigureWindow { window: 70, values: vec![] },
            Request::ConfigureWindow { window: 7, values: vec![] },
            Request::Flush,
        ]
    );
}
