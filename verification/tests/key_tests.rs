use std::str::FromStr;

use window_manager::key_names;
use window_manager::key_names::key_into_mod_mask;
use window_manager::keycodes::{Keycodes, XCB_MOD_MASK_1, XCB_MOD_MASK_4, XCB_MOD_MASK_CONTROL};

#[test]
fn keycode_names_ignore_case() {
    assert_eq!(Keycodes::try_from("ALT"), Ok(Keycodes::Alt_L));
    assert_eq!(Keycodes::try_from("Alt"), Ok(Keycodes::Alt_L));
    assert_eq!(Keycodes::try_from("enter"), Ok(Keycodes::Return));
    assert_eq!(Keycodes::try_from("H"), Ok(Keycodes::h));
    assert_eq!(Keycodes::try_from("no_such_key"), Err(()));
}

#[test]
fn keycode_values_round_trip() {
    let code: u8 = Keycodes::Alt_L.into();
    assert_eq!(code, 64);
    assert_eq!(Keycodes::try_from(64u8), Ok(Keycodes::Alt_L));
    assert_eq!(Keycodes::try_from(36u8), Ok(Keycodes::Return));
    assert_eq!(Keycodes::try_from(0u8), Err(()));
    for v in 0..=255u8 {
        if let Ok(key) = Keycodes::try_from(v) {
            let back: u8 = key.into();
            assert_eq!(back, v);
        }
    }
}

#[test]
fn modifier_masks_of_keys() {
    assert_eq!(u32::try_from(Keycodes::Alt_L), Ok(XCB_MOD_MASK_1));
    assert_eq!(u32::try_from(Keycodes::Control_L), Ok(XCB_MOD_MASK_CONTROL));
    assert_eq!(u32::try_from(Keycodes::Super_L), Ok(XCB_MOD_MASK_4));
    assert!(u32::try_from(Keycodes::q).is_err());
}

#[test]
fn key_names_are_case_sensitive() {
    assert_eq!(key_names::Keycodes::from_str("Alt"), Ok(key_names::Keycodes::Alt_L));
    assert_eq!(key_names::Keycodes::from_str("Q"), Ok(key_names::Keycodes::q));
    assert_eq!(key_names::Keycodes::from_str("q"), Ok(key_names::Keycodes::q));
    assert_eq!(key_names::Keycodes::from_str("1"), Ok(key_names::Keycodes::_1));
    assert_eq!(
        key_names::Keycodes::from_str("alt"),
        Err("No matching keycode for 'alt'_ ".to_string())
    );
    assert_eq!(key_names::Keycodes::Alt_L.code(), 64);
    assert_eq!(key_names::Keycodes::_1.code(), 10);
    assert_eq!(key_names::Keycodes::default(), key_names::Keycodes::NoKey);
    assert_eq!(key_names::Keycodes::NoKey.code(), 0);
}

#[test]
fn key_names_modifier_masks() {
    let alt_l: Option<u32> = key_names::Keycodes::Alt_L.into();
    let alt_r: Option<u32> = key_names::Keycodes::Alt_R.into();
    let shift: Option<u32> = key_names::Keycodes::Shift_R.into();
    let q: Option<u32> = key_names::Keycodes::q.into();
    assert_eq!(alt_l, Some(8));
    assert_eq!(alt_r, Some(128));
    assert_eq!(shift, Some(1));
    assert_eq!(q, None);
}

#[test]
fn key_state_into_mod_mask() {
    assert_eq!(key_into_mod_mask(0), 0);
    assert_eq!(key_into_mod_mask(0x1ff), 0xff);
    assert_eq!(key_into_mod_mask(256 | 8 | 1), 9);
    assert_eq!(key_into_mod_mask(0xffff_ff00), 0);
}
