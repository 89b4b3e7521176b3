use window_manager::config::Config;
use window_manager::keybindings::{
    command_from_str, find_keybinding, keybinding_from_string, keybindings_from_config,
    keybindings_grab, keybindings_ungrab, startup_command_parts, Dimension, Direction, Keybinding,
    KeybindingAction,
};
use window_manager::workspace::XRequest;
use window_manager::keycodes::Keycodes;

#[test]
fn keybinding_focus_window() {
    let kb = keybinding_from_string("Alt+Left            focus_window left").unwrap();
    assert_eq!(
        kb,
        Keybinding {
            modifiers: 8,
            modifiers_count: 1,
            keycode: Keycodes::Left,
            action: KeybindingAction::FocusWindow(Direction::Left),
        }
    );
}

#[test]
fn keybinding_exec_joins_arguments() {
    let kb = keybinding_from_string("Alt+D   exec dmenu_run  -i   -nb x").unwrap();
    assert_eq!(kb.keycode, Keycodes::d);
    assert_eq!(kb.action, KeybindingAction::Exec("dmenu_run -i -nb x".to_string()));
}

#[test]
fn keybinding_with_two_modifiers() {
    let kb = keybinding_from_string("Alt+Shift+H  window_size_change horizontal  15").unwrap();
    assert_eq!(kb.modifiers, 8 | 1);
    assert_eq!(kb.modifiers_count, 2);
    assert_eq!(kb.action, KeybindingAction::ResizeWindow(Dimension::Horizontal, 15));
    let kb = keybinding_from_string("Alt+Ctrl+J  move_window down 15").unwrap();
    assert_eq!(kb.modifiers, 8 | 4);
    assert_eq!(kb.action, KeybindingAction::MoveWindow(Direction::Down));
}

#[test]
fn keybinding_workspaces_and_kill() {
    let kb = keybinding_from_string("Alt+3 switch_to_workspace 3").unwrap();
    assert_eq!(kb.action, KeybindingAction::SwitchToWorkspace(3));
    let kb = keybinding_from_string("Alt+Shift+9 move_focused_window_to_workspace 9").unwrap();
    assert_eq!(kb.action, KeybindingAction::MoveFocusedWindowToWorkspace(9));
    let kb = keybinding_from_string("Alt+Q kill_focused_window").unwrap();
    assert_eq!(kb.action, KeybindingAction::KillFocusedWindow);
}

#[test]
fn keybinding_rejects_bad_lines() {
    assert!(keybinding_from_string("").is_none());
    assert!(keybinding_from_string("Alt+Nope focus_window left").is_none());
    assert!(keybinding_from_string("Q+Left focus_window left").is_none());
    assert!(keybinding_from_string("Alt+Left focus_window sideways").is_none());
    assert!(keybinding_from_string("Alt+Left").is_none());
    assert!(keybinding_from_string("Alt+3 switch_to_workspace three").is_none());
}

#[test]
fn keybindings_sorted_by_modifier_count() {
    let mut config = Config::default();
    config.keybindings = vec![
        "Alt+Left focus_window left".to_string(),
        "Alt+Shift+H window_size_change horizontal 15".to_string(),
        "bogus".to_string(),
        "Alt+Right focus_window right".to_string(),
    ];
    let kbs = keybindings_from_config(&config);
    assert_eq!(kbs.len(), 3);
    assert_eq!(kbs[0].modifiers_count, 2);
    assert_eq!(kbs[1].action, KeybindingAction::FocusWindow(Direction::Left));
    assert_eq!(kbs[2].action, KeybindingAction::FocusWindow(Direction::Right));
}

#[test]
fn key_press_finds_first_matching_binding() {
    let config = Config::default();
    let kbs = keybindings_from_config(&config);
    let i = find_keybinding(&kbs, 8, 43).unwrap();
    assert_eq!(kbs[i].action, KeybindingAction::FocusWindow(Direction::Left));
    // Num Lock and Caps Lock do not count.
    let j = find_keybinding(&kbs, 8 | 16 | 2, 43).unwrap();
    assert_eq!(i, j);
    assert_eq!(find_keybinding(&kbs, 16, 43), None);
    assert_eq!(find_keybinding(&kbs, 8, 200), None);
}

#[test]
fn command_line_split() {
    let (program, args) = command_from_str("  alacritty -e  htop ").unwrap();
    assert_eq!(program, "alacritty");
    assert_eq!(args, vec!["-e", "htop"]);
    assert!(command_from_str("   ").is_none());
}

#[test]
fn key_grabs_cover_the_lock_keys() {
    let kbs = vec![keybinding_from_string("Alt+H focus_window left").unwrap()];
    let mut requests = Vec::new();
    keybindings_grab(&kbs, &mut requests);
    assert_eq!(
        requests,
        vec![
            XRequest::GrabKey { modifiers: 8, key: 43 },
            XRequest::GrabKey { modifiers: 8 | 16, key: 43 },
            XRequest::GrabKey { modifiers: 8 | 2, key: 43 },
            XRequest::GrabKey { modifiers: 8 | 16 | 2, key: 43 },
        ]
    );
    requests.clear();
    keybindings_ungrab(&kbs, &mut requests);
    assert_eq!(requests.len(), 4);
    assert_eq!(requests[3], XRequest::UngrabKey { modifiers: 8 | 16 | 2, key: 43 });
}

#[test]
fn startup_lines_split_at_and() {
    assert_eq!(startup_command_parts("a && b -x && c"), vec!["a", "b -x", "c"]);
    assert_eq!(startup_command_parts("picom -b"), vec!["picom -b"]);
    assert_eq!(startup_command_parts("a &&b"), vec!["a &&b"]);
    assert_eq!(startup_command_parts(" && "), vec!["", ""]);
}
