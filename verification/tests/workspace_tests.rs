use window_manager::config::Config;
use window_manager::ewmh::WindowType;
use window_manager::rect::Rect;
use window_manager::workspace::{Workspace, XRequest};

const ACTIVE: u32 = 0xffa38b43;
const EVENT_MASK: u32 = 2048;
const BORDER_PIXEL: u32 = 8;
const NORMAL_EVENTS: u32 = 2097152 | 16 | 32;
const FLOATING_EVENTS: u32 = 2097152 | 16 | 32 | 8192;

fn monitor() -> Rect {
    Rect { x: 0, y: 0, width: 1920, height: 1080 }
}

fn tiling_width(ws: &Workspace, config: &Config) -> u32 {
    let avail = ws.available_rectangle(&monitor(), config);
    ((avail.x + avail.width as i32) as f64 * 0.3333) as u32
}

fn configures(requests: &[XRequest]) -> Vec<(u32, Rect)> {
    requests
        .iter()
        .filter_map(|r| match r {
            XRequest::Configure { window, rect, .. } => Some((*window, *rect)),
            _ => None,
        })
        .collect()
}

#[test]
fn available_rectangle_inside_gaps() {
    let config = Config::default();
    let ws = Workspace::new(1, true);
    assert_eq!(ws.available_rectangle(&monitor(), &config), Rect { x: 10, y: 10, width: 1900, height: 1060 });
}

#[test]
fn first_tiled_window_is_centred() {
    let config = Config::default();
    let mut ws = Workspace::new(1, true);
    let mut requests = Vec::new();
    let width = tiling_width(&ws, &config);
    assert_eq!(width, 636);
    ws.handle_new_normal_window(100, &monitor(), width, &config, &mut requests);
    let rect = Rect { x: 645, y: 10, width: 630, height: 1054 };
    assert_eq!(
        requests,
        vec![
            XRequest::ChangeAttrs { window: 100, mask: EVENT_MASK, value: NORMAL_EVENTS },
            XRequest::Configure { window: 100, rect, border: 3 },
            XRequest::MapWindow(100),
            XRequest::ChangeAttrs { window: 100, mask: BORDER_PIXEL, value: ACTIVE },
            XRequest::SetInputFocus(100),
        ]
    );
}

#[test]
fn second_tiled_window_goes_after_the_focused_one() {
    let config = Config::default();
    let mut ws = Workspace::new(1, true);
    let mut requests = Vec::new();
    ws.handle_new_normal_window(100, &monitor(), 636, &config, &mut requests);
    requests.clear();
    ws.handle_new_normal_window(101, &monitor(), 636, &config, &mut requests);
    let placed = configures(&requests);
    assert_eq!(placed.len(), 2);
    assert_eq!(placed[0].0, 100);
    assert_eq!(placed[1].0, 101);
    let (a, b) = (placed[0].1, placed[1].1);
    // Next to each other, the inner gap and the borders between them.
    assert_eq!(b.x, a.x + a.width as i32 + 5 + 6);
    // Centred together in the available area: equal free space on both sides,
    // to within a pixel.
    let left = a.x - 10;
    let right = 1910 - (b.x + b.width as i32);
    assert!((left - right).abs() <= 1);
    assert_eq!(requests.last(), Some(&XRequest::SetInputFocus(101)));
}

#[test]
fn focus_and_move_among_tiled_windows() {
    let config = Config::default();
    let mut ws = Workspace::new(1, true);
    let mut requests = Vec::new();
    ws.handle_new_normal_window(100, &monitor(), 636, &config, &mut requests);
    ws.handle_new_normal_window(101, &monitor(), 636, &config, &mut requests);
    requests.clear();
    ws.handle_change_focus_window_left(&config, &monitor(), &mut requests);
    assert_eq!(
        requests,
        vec![
            XRequest::ChangeAttrs { window: 100, mask: BORDER_PIXEL, value: ACTIVE },
            XRequest::SetInputFocus(100),
        ]
    );
    requests.clear();
    // Already the leftmost: nothing happens.
    ws.handle_change_focus_window_left(&config, &monitor(), &mut requests);
    assert!(requests.is_empty());
    ws.handle_change_focus_window_right(&config, &monitor(), &mut requests);
    assert_eq!(requests.last(), Some(&XRequest::SetInputFocus(101)));
    requests.clear();
    // Window 101 trades places with 100; both are configured, 101 first.
    ws.handle_move_window_left(&config, &monitor(), &mut requests);
    let placed = configures(&requests);
    assert_eq!(placed.len(), 2);
    assert_eq!(placed[0].0, 101);
    assert_eq!(placed[1].0, 100);
    assert!(placed[0].1.x < placed[1].1.x);
    requests.clear();
    // And back again: the same places as before.
    ws.handle_move_window_right(&config, &monitor(), &mut requests);
    let back = configures(&requests);
    assert_eq!(back[0], (101, placed[1].1));
    assert_eq!(back[1], (100, placed[0].1));
}

#[test]
fn resize_keeps_windows_apart() {
    let config = Config::default();
    let mut ws = Workspace::new(1, true);
    let mut requests = Vec::new();
    ws.handle_new_normal_window(100, &monitor(), 636, &config, &mut requests);
    ws.handle_new_normal_window(101, &monitor(), 636, &config, &mut requests);
    requests.clear();
    ws.handle_resize_window_horizontal(&config, &monitor(), 20, &mut requests);
    let placed = configures(&requests);
    assert_eq!(placed.len(), 2);
    let (a, b) = (placed[0].1, placed[1].1);
    assert_eq!(b.width, 650);
    assert_eq!(a.x, 315);
    assert_eq!(b.x, a.x + a.width as i32 + 11);
}

#[test]
fn floating_window_where_it_asks() {
    let config = Config::default();
    let mut ws = Workspace::new(1, true);
    let mut requests = Vec::new();
    let rect = Rect { x: 100, y: 120, width: 300, height: 200 };
    ws.handle_new_floating_window(7, rect, &monitor(), &config, &mut requests);
    assert_eq!(
        requests,
        vec![
            XRequest::Configure { window: 7, rect, border: 3 },
            XRequest::ChangeAttrs { window: 7, mask: EVENT_MASK, value: FLOATING_EVENTS },
            XRequest::MapWindow(7),
            XRequest::ChangeAttrs { window: 7, mask: BORDER_PIXEL, value: ACTIVE },
            XRequest::SetInputFocus(7),
            XRequest::Raise(7),
        ]
    );
}

#[test]
fn floating_windows_cascade() {
    let config = Config::default();
    let mut ws = Workspace::new(1, true);
    let mut requests = Vec::new();
    let no_hints = Rect { x: 0, y: 0, width: 0, height: 0 };
    ws.handle_new_floating_window(7, no_hints, &monitor(), &config, &mut requests);
    assert_eq!(configures(&requests), vec![(7, Rect { x: 560, y: 240, width: 800, height: 600 })]);
    requests.clear();
    ws.handle_new_floating_window(8, no_hints, &monitor(), &config, &mut requests);
    assert_eq!(configures(&requests), vec![(8, Rect { x: 570, y: 250, width: 800, height: 600 })]);
    requests.clear();
    let sized = Rect { x: 0, y: 0, width: 400, height: 300 };
    ws.handle_new_floating_window(9, sized, &monitor(), &config, &mut requests);
    assert_eq!(configures(&requests), vec![(9, Rect { x: 760, y: 390, width: 400, height: 300 })]);
}

#[test]
fn docked_window_takes_its_side() {
    let mut ws = Workspace::new(1, true);
    let mut requests = Vec::new();
    let strut = Rect { x: 0, y: 0, width: 1920, height: 30 };
    ws.handle_new_docked_window(50, &strut, &monitor(), &mut requests);
    assert_eq!(
        requests,
        vec![XRequest::Configure { window: 50, rect: strut, border: 0 }, XRequest::MapWindow(50)]
    );
    let config = Config::default();
    assert_eq!(ws.available_rectangle(&monitor(), &config), Rect { x: 10, y: 40, width: 1900, height: 1030 });
}

#[test]
fn hide_and_show_restore_floating_windows() {
    let config = Config::default();
    let mut ws = Workspace::new(1, true);
    let mut requests = Vec::new();
    let rect = Rect { x: 100, y: 120, width: 300, height: 200 };
    ws.handle_new_floating_window(7, rect, &monitor(), &config, &mut requests);
    requests.clear();
    ws.hide_all_windows(&monitor(), &config, true, &mut requests);
    assert_eq!(
        requests,
        vec![
            XRequest::Configure { window: 7, rect: Rect { y: 1200, ..rect }, border: 3 },
            XRequest::UnmapWindow(7),
        ]
    );
    requests.clear();
    // Hiding twice does nothing.
    ws.hide_all_windows(&monitor(), &config, true, &mut requests);
    assert!(requests.is_empty());
    ws.show_all_windows(&monitor(), &config, &mut requests);
    assert_eq!(
        requests,
        vec![
            XRequest::Configure { window: 7, rect, border: 3 },
            XRequest::MapWindow(7),
            XRequest::ChangeAttrs { window: 7, mask: BORDER_PIXEL, value: ACTIVE },
            XRequest::SetInputFocus(7),
            XRequest::Raise(7),
        ]
    );
    // Showing again does nothing, and needs no active colour.
    requests.clear();
    let mut without_colour = Config::default();
    without_colour.border_color_active_int = None;
    ws.show_all_windows(&monitor(), &without_colour, &mut requests);
    assert!(requests.is_empty());
}

#[test]
fn pop_focused_window_hands_it_back() {
    let config = Config::default();
    let mut ws = Workspace::new(1, true);
    let mut requests = Vec::new();
    assert_eq!(ws.pop_focused_window(&monitor(), &config, &mut requests), None);
    ws.handle_new_normal_window(100, &monitor(), 636, &config, &mut requests);
    ws.handle_new_normal_window(101, &monitor(), 636, &config, &mut requests);
    requests.clear();
    let (window, _, kind) = ws.pop_focused_window(&monitor(), &config, &mut requests).unwrap();
    assert_eq!(window, 101);
    assert_eq!(kind, WindowType::Normal);
    // Focus falls back to the window before it, which is laid out again alone.
    assert_eq!(requests[0], XRequest::ChangeAttrs { window: 100, mask: BORDER_PIXEL, value: ACTIVE });
    assert_eq!(requests[1], XRequest::SetInputFocus(100));
    assert_eq!(configures(&requests), vec![(100, Rect { x: 645, y: 10, width: 630, height: 1054 })]);
}

#[test]
fn pointer_entering_windows() {
    let config = Config::default();
    let mut ws = Workspace::new(1, true);
    let mut requests = Vec::new();
    ws.handle_new_normal_window(100, &monitor(), 636, &config, &mut requests);
    ws.handle_new_normal_window(101, &monitor(), 636, &config, &mut requests);
    requests.clear();
    // The first entry into the window focused by keyboard is only noted.
    ws.handle_enter_notify(101, &config, &mut requests);
    assert!(requests.is_empty());
    ws.handle_enter_notify(100, &config, &mut requests);
    assert_eq!(
        requests,
        vec![
            XRequest::ChangeAttrs { window: 100, mask: BORDER_PIXEL, value: ACTIVE },
            XRequest::SetInputFocus(100),
        ]
    );
    requests.clear();
    ws.handle_enter_notify(999, &config, &mut requests);
    assert!(requests.is_empty());
}

#[test]
fn pointer_buttons_and_motion() {
    let config = Config::default();
    let mut ws = Workspace::new(1, true);
    let mut requests = Vec::new();
    ws.handle_motion_notify(1, 2, 3, 0, &mut requests);
    assert_eq!(requests, vec![XRequest::Flush]);
    requests.clear();
    ws.handle_motion_notify(1, 2, 3, 8 | 256, &mut requests);
    assert!(requests.is_empty());
    assert_eq!(ws.handle_button_press(1, 2, 3, 0, &config, &mut requests), None);
    ws.handle_button_release(&mut requests);
    assert_eq!(requests, vec![XRequest::Flush]);
    requests.clear();
    ws.handle_focus_in(5, &config, &mut requests);
    assert_eq!(requests, vec![XRequest::ChangeAttrs { window: 5, mask: BORDER_PIXEL, value: ACTIVE }]);
}

#[test]
fn popping_the_last_window_needs_no_active_colour() {
    let config = Config::default();
    let mut ws = Workspace::new(1, true);
    let mut requests = Vec::new();
    ws.handle_new_normal_window(100, &monitor(), 636, &config, &mut requests);
    requests.clear();
    let mut without_colour = Config::default();
    without_colour.border_color_active_int = None;
    let (window, _, kind) = ws.pop_focused_window(&monitor(), &without_colour, &mut requests).unwrap();
    assert_eq!((window, kind), (100, WindowType::Normal));
    assert!(!requests.iter().any(|r| matches!(r, XRequest::ChangeAttrs { .. })));
}
