use window_manager::bar_message::Message;
use window_manager::config::Config;
use window_manager::ewmh::{StrutPartial, WindowType};
use window_manager::keybindings::{handle_key_press, keybindings_from_config, Dimension, Direction};
use window_manager::monitor::{MapRequest, Monitor};
use window_manager::rect::Rect;
use window_manager::workspace::XRequest;

fn screen() -> Rect {
    Rect { x: 0, y: 0, width: 1920, height: 1080 }
}

fn request(window_type: WindowType) -> MapRequest {
    MapRequest {
        override_redirect: false,
        rect_hints: Rect { x: 0, y: 0, width: 0, height: 0 },
        requested_workspace: None,
        class_instance: Some(("Alacritty".to_string(), "alacritty".to_string())),
        window_type,
        strut: None,
        screen_rect: screen(),
    }
}

#[test]
fn new_monitor_shows_workspace_one() {
    let monitor = Monitor::new(screen());
    assert_eq!(monitor.get_focused_workspace_id(), Some(1));
    assert_eq!(monitor.available_rect(), screen());
}

#[test]
fn switching_workspaces_tells_the_bar() {
    let config = Config::default();
    let mut monitor = Monitor::new(screen());
    let mut requests = Vec::new();
    let mut notices = Vec::new();
    monitor.handle_switch_to_workspace(1, &config, &mut requests, &mut notices);
    assert!(requests.is_empty());
    assert!(notices.is_empty());
    monitor.handle_switch_to_workspace(3, &config, &mut requests, &mut notices);
    assert_eq!(monitor.get_focused_workspace_id(), Some(3));
    assert_eq!(requests, vec![XRequest::Flush]);
    assert_eq!(notices, vec![Message::WorkspaceList(vec![1, 3]), Message::WorkspaceActive(3)]);
    notices.clear();
    monitor.handle_focus_window_change(Direction::Up, &config, &mut requests, &mut notices);
    assert_eq!(monitor.get_focused_workspace_id(), Some(2));
    assert_eq!(notices, vec![Message::WorkspaceList(vec![1, 3, 2]), Message::WorkspaceActive(2)]);
}

#[test]
fn mapping_windows() {
    let config = Config::default();
    let mut monitor = Monitor::new(screen());
    let mut requests = Vec::new();
    let mut ignored = request(WindowType::Normal);
    ignored.override_redirect = true;
    monitor.handle_map_request(9, &ignored, 636, &config, &mut requests);
    assert!(requests.is_empty());

    let mut dmenu = request(WindowType::Normal);
    dmenu.class_instance = Some(("dmenu-run".to_string(), "x".to_string()));
    monitor.handle_map_request(10, &dmenu, 636, &config, &mut requests);
    assert_eq!(
        requests,
        vec![
            XRequest::Configure { window: 10, rect: Rect { x: 0, y: 0, width: 1920, height: 25 }, border: 0 },
            XRequest::MapWindow(10),
            XRequest::Raise(10),
            XRequest::Flush,
        ]
    );
    requests.clear();

    monitor.handle_map_request(11, &request(WindowType::Normal), 636, &config, &mut requests);
    assert_eq!(requests.last(), Some(&XRequest::Flush));
    assert!(requests.contains(&XRequest::SetInputFocus(11)));
    requests.clear();

    // Named in the settings to float: placed as a floating window.
    let mut config_float = Config::default();
    config_float.override_to_floating = vec!["alacritty".to_string()];
    monitor.handle_map_request(12, &request(WindowType::Normal), 636, &config_float, &mut requests);
    assert!(requests.contains(&XRequest::Raise(12)));
}

#[test]
fn globally_docked_window() {
    let config = Config::default();
    let mut monitor = Monitor::new(screen());
    let mut requests = Vec::new();
    let mut dock = request(WindowType::Docked);
    dock.strut = Some(StrutPartial {
        left: 0,
        right: 0,
        top: 30,
        bottom: 30,
        left_start_y: 0,
        left_end_y: 0,
        right_start_y: 0,
        right_end_y: 0,
        top_start_x: 0,
        top_end_x: 1919,
        bottom_start_x: 0,
        bottom_end_x: 0,
    });
    monitor.handle_map_request(20, &dock, 636, &config, &mut requests);
    let bar = Rect { x: 0, y: 0, width: 1920, height: 30 };
    assert_eq!(
        requests,
        vec![
            XRequest::Configure { window: 20, rect: bar, border: 0 },
            XRequest::MapWindow(20),
            XRequest::Flush,
        ]
    );
    assert_eq!(monitor.available_rect(), Rect { x: 0, y: 30, width: 1920, height: 1050 });

    // The same size changes nothing.
    requests.clear();
    monitor.update_with_new_dimensions(1920, 1080, &mut requests);
    assert!(requests.is_empty());
    // A new size: the wide bar at the top takes the new width.
    monitor.update_with_new_dimensions(1280, 1024, &mut requests);
    let resized = Rect { x: 0, y: 0, width: 1280, height: 30 };
    assert_eq!(requests, vec![XRequest::Configure { window: 20, rect: resized, border: 0 }]);
    assert_eq!(monitor.rect, Rect { x: 0, y: 0, width: 1280, height: 1024 });
    assert_eq!(monitor.available_rect(), Rect { x: 0, y: 30, width: 1280, height: 994 });
}

#[test]
fn resizing_moves_a_bottom_bar_to_the_new_bottom() {
    let config = Config::default();
    let mut monitor = Monitor::new(screen());
    let mut requests = Vec::new();
    let mut dock = request(WindowType::Docked);
    dock.strut = Some(StrutPartial {
        left: 0,
        right: 0,
        top: 0,
        bottom: 25,
        left_start_y: 0,
        left_end_y: 0,
        right_start_y: 0,
        right_end_y: 0,
        top_start_x: 0,
        top_end_x: 0,
        bottom_start_x: 0,
        bottom_end_x: 1919,
    });
    monitor.handle_map_request(21, &dock, 636, &config, &mut requests);
    assert_eq!(
        requests[0],
        XRequest::Configure { window: 21, rect: Rect { x: 0, y: 1055, width: 1920, height: 25 }, border: 0 }
    );
    requests.clear();
    monitor.update_with_new_dimensions(1280, 720, &mut requests);
    assert_eq!(
        requests,
        vec![XRequest::Configure { window: 21, rect: Rect { x: 0, y: 695, width: 1280, height: 25 }, border: 0 }]
    );
}

#[test]
fn moving_and_killing_windows() {
    let config = Config::default();
    let mut monitor = Monitor::new(screen());
    let mut requests = Vec::new();
    let mut notices = Vec::new();
    monitor.handle_map_request(11, &request(WindowType::Normal), 636, &config, &mut requests);
    requests.clear();
    monitor.handle_move_window(Direction::Down, &config, &mut requests, &mut notices);
    assert_eq!(monitor.get_focused_workspace_id(), Some(2));
    assert_eq!(notices, vec![Message::WorkspaceList(vec![1, 2]), Message::WorkspaceActive(2)]);
    assert!(requests.contains(&XRequest::SetInputFocus(11)));
    requests.clear();
    monitor.handle_kill_focused_window(&config, &mut requests);
    assert_eq!(requests, vec![XRequest::DestroyGracefully(11), XRequest::Flush]);
    requests.clear();
    monitor.handle_kill_focused_window(&config, &mut requests);
    assert_eq!(requests, vec![XRequest::Flush]);
    requests.clear();
    monitor.handle_resize_window(Dimension::Horizontal, 0, &config, &mut requests);
    assert!(requests.is_empty());
    monitor.check_deleted(100, &[], &mut requests);
    assert!(requests.is_empty());
}

#[test]
fn focus_events_on_the_monitor() {
    let config = Config::default();
    let monitor = Monitor::new(screen());
    let mut requests = Vec::new();
    monitor.handle_focus_in(5, 1, 1, &config, &mut requests);
    monitor.handle_focus_in(1, 0, 1, &config, &mut requests);
    assert!(requests.is_empty());
    monitor.handle_focus_in(5, 0, 1, &config, &mut requests);
    assert_eq!(
        requests,
        vec![XRequest::ChangeAttrs { window: 5, mask: 8, value: 0xffa38b43 }, XRequest::Flush]
    );
    requests.clear();
    monitor.handle_focus_out(5, 0, 1, false, &config, &mut requests);
    assert!(requests.is_empty());
    monitor.handle_focus_out(5, 0, 1, true, &config, &mut requests);
    assert_eq!(
        requests,
        vec![XRequest::ChangeAttrs { window: 5, mask: 8, value: 0xff2b2b29 }, XRequest::Flush]
    );
}

#[test]
fn key_presses_carry_out_bindings() {
    let config = Config::default();
    let keybindings = keybindings_from_config(&config);
    let mut monitor = Monitor::new(screen());
    let mut requests = Vec::new();
    let mut notices = Vec::new();
    // Alt+Enter runs a command, which is handed back.
    let cmd = handle_key_press(&keybindings, &config, &mut monitor, 8, 36, &mut requests, &mut notices);
    assert_eq!(cmd, Some("alacritty"));
    assert!(requests.is_empty());
    // Num Lock held as well changes nothing.
    let cmd = handle_key_press(&keybindings, &config, &mut monitor, 8 | 16, 36, &mut requests, &mut notices);
    assert_eq!(cmd, Some("alacritty"));
    // Alt+2 shows workspace 2.
    let cmd = handle_key_press(&keybindings, &config, &mut monitor, 8, 11, &mut requests, &mut notices);
    assert_eq!(cmd, None);
    assert_eq!(monitor.get_focused_workspace_id(), Some(2));
    assert_eq!(requests, vec![XRequest::Flush]);
    assert_eq!(notices, vec![Message::WorkspaceList(vec![1, 2]), Message::WorkspaceActive(2)]);
    // Without a modifier, or with only the locks, nothing is selected.
    requests.clear();
    notices.clear();
    assert_eq!(handle_key_press(&keybindings, &config, &mut monitor, 0, 11, &mut requests, &mut notices), None);
    assert_eq!(handle_key_press(&keybindings, &config, &mut monitor, 2 | 16, 11, &mut requests, &mut notices), None);
    assert_eq!(monitor.get_focused_workspace_id(), Some(2));
    assert!(requests.is_empty() && notices.is_empty());
}
