use window_manager::bar_message::{payload_size, Message};
use window_manager::config::{added_startup_commands, create_color_with_alpha, Config, ConfigErrors};
use window_manager::ewmh::{
    bytes_to_u32, class_instance_names, class_instance_parts, requested_workspace,
};
use window_manager::msg_types::{WmCommand, WmMessage};

#[test]
fn default_settings() {
    let config = Config::default();
    assert_eq!(config.keybindings.len(), 46);
    assert_eq!(config.keybindings[0], "Alt+Left            focus_window left");
    assert_eq!(config.border_size, 3);
    assert_eq!(config.inner_gap, 5);
    assert_eq!(config.border_color_inactive_int, Some(0xff2b2b29));
    assert_eq!(config.border_color_active_int, Some(0xffa38b43));
    assert_eq!(config.override_to_floating, vec![String::new()]);
    assert!(config.startup_commands.is_empty());
}

#[test]
fn colors_from_settings() {
    assert_eq!(Config::try_color_from_str("#ff0000"), Some(0xffff0000));
    assert_eq!(Config::try_color_from_str("##00ff00"), Some(0xff00ff00));
    assert_eq!(Config::try_color_from_str("#1234567"), Some(0xff123456));
    assert_eq!(Config::try_color_from_str("#abc"), Some(0xff000abc));
    assert_eq!(Config::try_color_from_str("#zz0000"), None);
    assert_eq!(Config::try_color_from_str("#"), None);
    assert_eq!(create_color_with_alpha(0x12, 0x34, 0x56, 0x78), 0x78123456);
}

#[test]
fn color_checks() {
    let mut config = Config::default();
    config.border_color_inactive_int = None;
    match config.check_colors() {
        Err(ConfigErrors::ValidationError(msg)) => {
            assert_eq!(msg, "border_color_inactive is not populated")
        }
        _ => panic!("expected a validation error"),
    }
    let mut config = Config::default();
    config.border_color_active_int = None;
    config.border_color_active_str = Some("#xyz".to_string());
    match config.check_colors() {
        Err(ConfigErrors::ValidationError(msg)) => {
            assert_eq!(msg, "border_color_active_str contains invalid hex value: #xyz")
        }
        _ => panic!("expected a validation error"),
    }
    let mut config = Config::default();
    config.border_color_active_int = None;
    config.border_color_active_str = Some("#010203".to_string());
    let config = config.check_colors().ok().unwrap();
    assert_eq!(config.border_color_active_int, Some(0xff010203));
}

#[test]
fn bar_messages_on_the_wire() {
    let m = Message::WorkspaceActive(3);
    let bytes = m.as_bytes();
    assert_eq!(bytes, vec![5, 0, 0, 0, 0, 0, 0, 0, 2, 3, 0, 0, 0]);
    let list = Message::WorkspaceList(vec![1, 2]);
    let bytes = list.as_bytes();
    assert_eq!(
        bytes,
        vec![17, 0, 0, 0, 0, 0, 0, 0, 1, 2, 0, 0, 0, 0, 0, 0, 0, 1, 0, 0, 0, 2, 0, 0, 0]
    );
    let layout = Message::KeyboardLayout("us");
    assert_eq!(layout.as_bytes(), vec![3, 0, 0, 0, 0, 0, 0, 0, 0, b'u', b's']);
    // Only a request for client initialisation is read back.
    let init = Message::RequestClientInit;
    assert_eq!(Message::from_bytes(&init.as_bytes()[8..]), Some(Message::RequestClientInit));
    assert_eq!(Message::from_bytes(&m.as_bytes()[8..]), None);
    assert_eq!(Message::from_bytes(&[]), None);
}

#[test]
fn message_sizes_read_back() {
    let list = Message::WorkspaceList(vec![1, 2]);
    let bytes = list.as_bytes();
    assert_eq!(payload_size(&bytes[..8]), Some(17));
    assert_eq!(payload_size(&[1, 2, 0, 0, 0, 0, 0, 1]), Some(0x0100_0000_0000_0201));
    assert_eq!(payload_size(&[0xff; 8]), Some(u64::MAX));
    assert_eq!(payload_size(&[5, 0, 0, 0]), None);
    assert_eq!(payload_size(&[]), None);
}

fn words(line: &str) -> WmMessage {
    WmMessage::new(line.split_whitespace().map(|w| w.to_string()).collect())
}

#[test]
fn wm_commands_from_words() {
    assert!(matches!(WmCommand::try_from(words("focus left")), Ok(WmCommand::FocusLeft)));
    assert!(matches!(WmCommand::try_from(words("focusing rightmost")), Ok(WmCommand::FocusRight)));
    assert!(matches!(WmCommand::try_from(words("move left")), Ok(WmCommand::MoveLeft)));
    assert!(matches!(
        WmCommand::try_from(words("workspace change 4")),
        Ok(WmCommand::WorkspaceChange(4))
    ));
    match WmCommand::try_from(words("focus up")) {
        Err(e) => assert_eq!(e, "Invalid focus command: focus up"),
        Ok(_) => panic!("expected an error"),
    }
    match WmCommand::try_from(words("workspace change x")) {
        Err(e) => assert_eq!(
            e,
            "Invalid workspace change command: workspace change x, error: invalid digit found in string"
        ),
        Ok(_) => panic!("expected an error"),
    }
    match WmCommand::try_from(words("reboot now")) {
        Err(e) => assert_eq!(e, "Unknown command: reboot now"),
        Ok(_) => panic!("expected an error"),
    }
    match WmCommand::try_from(WmMessage::new(vec![])) {
        Err(e) => assert_eq!(e, "Command should not be empty"),
        Ok(_) => panic!("expected an error"),
    }
}

#[test]
fn desktop_property_bytes() {
    assert_eq!(bytes_to_u32(&[1, 2, 3, 4]), Some(0x04030201));
    assert_eq!(bytes_to_u32(&[7]), Some(7));
    assert_eq!(bytes_to_u32(&[]), Some(0));
    assert_eq!(requested_workspace(3), Some(3));
    assert_eq!(requested_workspace(10), None);
}

#[test]
fn startup_commands_added_on_reload() {
    let old = vec!["picom -b".to_string(), "nm-applet".to_string()];
    let new = vec![
        "nm-applet".to_string(),
        "dunst".to_string(),
        "picom -b".to_string(),
        "a && b".to_string(),
        "dunst".to_string(),
    ];
    assert_eq!(added_startup_commands(&old, &new), vec!["dunst", "a && b", "dunst"]);
    assert!(added_startup_commands(&new, &old).is_empty());
    assert_eq!(added_startup_commands(&Vec::new(), &old), vec!["picom -b", "nm-applet"]);
}

#[test]
fn class_and_instance_names() {
    let data = b"Alacritty\0alacritty\0";
    assert_eq!(
        class_instance_parts(data),
        Some((&b"Alacritty"[..], &b"alacritty"[..]))
    );
    assert_eq!(
        class_instance_names(data),
        Some(("Alacritty".to_string(), "alacritty".to_string()))
    );
    // The instance runs to the end where no second zero byte follows.
    assert_eq!(class_instance_parts(b"a\0b"), Some((&b"a"[..], &b"b"[..])));
    assert_eq!(class_instance_parts(b"a\0"), Some((&b"a"[..], &b""[..])));
    // Without a zero byte there is no instance name.
    assert_eq!(class_instance_parts(b"dmenu"), None);
    assert_eq!(class_instance_names(b""), None);
    // Bytes that are not UTF-8 become the replacement character.
    assert_eq!(
        class_instance_names(&[0xff, b'a', 0, b'x', 0xc3]),
        Some(("\u{FFFD}a".to_string(), "x\u{FFFD}".to_string()))
    );
}
