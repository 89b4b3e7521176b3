//! Key codes of the keys a binding can name, as `xev` reports them, with the
//! names the configuration uses for them and the modifier masks of the
//! modifier keys.
use vstd::prelude::*;
use vstd::std_specs::convert::{FromSpecImpl, TryFromSpecImpl};
use crate::text::str_eq;

verus! {

/// `ShiftMask` of the X protocol.
pub const XCB_MOD_MASK_SHIFT: u32 = 1;

/// `LockMask`.
pub const XCB_MOD_MASK_LOCK: u32 = 2;

/// `ControlMask`.
pub const XCB_MOD_MASK_CONTROL: u32 = 4;

/// `Mod1Mask` (Alt).
pub const XCB_MOD_MASK_1: u32 = 8;

/// `Mod2Mask` (Num Lock).
pub const XCB_MOD_MASK_2: u32 = 16;

/// `Mod3Mask`.
pub const XCB_MOD_MASK_3: u32 = 32;

/// `Mod4Mask` (Super).
pub const XCB_MOD_MASK_4: u32 = 64;

/// `Mod5Mask`.
pub const XCB_MOD_MASK_5: u32 = 128;

#[allow(non_camel_case_types)]
#[derive(Debug, Clone, Copy, PartialEq, Eq, Structural)]
pub enum Keycodes {
    Escape,
    Num_1,
    Num_2,
    Num_3,
    Num_4,
    Num_5,
    Num_6,
    Num_7,
    Num_8,
    Num_9,
    Num_0,
    minus,
    equal,
    BackSpace,
    Tab,
    q,
    w,
    e,
    r,
    t,
    y,
    u,
    i,
    o,
    p,
    bracketleft,
    bracketright,
    Return,
    Control_L,
    a,
    s,
    d,
    f,
    g,
    h,
    j,
    k,
    l,
    semicolon,
    apostrophe,
    Shift_L,
    backslash,
    z,
    x,
    c,
    v,
    b,
    n,
    m,
    comma,
    period,
    slash,
    Shift_R,
    Alt_L,
    space,
    F1,
    F2,
    F3,
    F4,
    F5,
    F6,
    F7,
    F8,
    F9,
    F10,
    KP_Home,
    KP_Up,
    KP_Prior,
    KP_Subtract,
    KP_Left,
    KP_Begin,
    KP_Right,
    KP_Add,
    KP_End,
    KP_Down,
    KP_Next,
    KP_Insert,
    KP_Delete,
    less,
    F11,
    F12,
    KP_Enter,
    Control_R,
    KP_Divide,
    Print,
    Alt_R,
    Home,
    Up,
    Page_Up,
    Left,
    Right,
    End,
    Down,
    Page_Down,
    Insert,
    Delete,
    KP_Equal,
    plusminus,
    Pause,
    KP_Decimal,
    Super_L,
    Super_R,
    Menu,
    Cancel,
    Redo,
    Undo,
    Find,
    Help,
}

/// The key code of each key.
pub open spec fn keycode_value(key: Keycodes) -> u8 {
    match key {
        Keycodes::Escape => 9,
        Keycodes::Num_1 => 10,
        Keycodes::Num_2 => 11,
        Keycodes::Num_3 => 12,
        Keycodes::Num_4 => 13,
        Keycodes::Num_5 => 14,
        Keycodes::Num_6 => 15,
        Keycodes::Num_7 => 16,
        Keycodes::Num_8 => 17,
        Keycodes::Num_9 => 18,
        Keycodes::Num_0 => 19,
        Keycodes::minus => 20,
        Keycodes::equal => 21,
        Keycodes::BackSpace => 22,
        Keycodes::Tab => 23,
        Keycodes::q => 24,
        Keycodes::w => 25,
        Keycodes::e => 26,
        Keycodes::r => 27,
        Keycodes::t => 28,
        Keycodes::y => 29,
        Keycodes::u => 30,
        Keycodes::i => 31,
        Keycodes::o => 32,
        Keycodes::p => 33,
        Keycodes::bracketleft => 34,
        Keycodes::bracketright => 35,
        Keycodes::Return => 36,
        Keycodes::Control_L => 37,
        Keycodes::a => 38,
        Keycodes::s => 39,
        Keycodes::d => 40,
        Keycodes::f => 41,
        Keycodes::g => 42,
        Keycodes::h => 43,
        Keycodes::j => 44,
        Keycodes::k => 45,
        Keycodes::l => 46,
        Keycodes::semicolon => 47,
        Keycodes::apostrophe => 48,
        Keycodes::Shift_L => 50,
        Keycodes::backslash => 51,
        Keycodes::z => 52,
        Keycodes::x => 53,
        Keycodes::c => 54,
        Keycodes::v => 55,
        Keycodes::b => 56,
        Keycodes::n => 57,
        Keycodes::m => 58,
        Keycodes::comma => 59,
        Keycodes::period => 60,
        Keycodes::slash => 61,
        Keycodes::Shift_R => 62,
        Keycodes::Alt_L => 64,
        Keycodes::space => 65,
        Keycodes::F1 => 67,
        Keycodes::F2 => 68,
        Keycodes::F3 => 69,
        Keycodes::F4 => 70,
        Keycodes::F5 => 71,
        Keycodes::F6 => 72,
        Keycodes::F7 => 73,
        Keycodes::F8 => 74,
        Keycodes::F9 => 75,
        Keycodes::F10 => 76,
        Keycodes::KP_Home => 79,
        Keycodes::KP_Up => 80,
        Keycodes::KP_Prior => 81,
        Keycodes::KP_Subtract => 82,
        Keycodes::KP_Left => 83,
        Keycodes::KP_Begin => 84,
        Keycodes::KP_Right => 85,
        Keycodes::KP_Add => 86,
        Keycodes::KP_End => 87,
        Keycodes::KP_Down => 88,
        Keycodes::KP_Next => 89,
        Keycodes::KP_Insert => 90,
        Keycodes::KP_Delete => 91,
        Keycodes::less => 94,
        Keycodes::F11 => 95,
        Keycodes::F12 => 96,
        Keycodes::KP_Enter => 104,
        Keycodes::Control_R => 105,
        Keycodes::KP_Divide => 106,
        Keycodes::Print => 107,
        Keycodes::Alt_R => 108,
        Keycodes::Home => 110,
        Keycodes::Up => 111,
        Keycodes::Page_Up => 112,
        Keycodes::Left => 113,
        Keycodes::Right => 114,
        Keycodes::End => 115,
        Keycodes::Down => 116,
        Keycodes::Page_Down => 117,
        Keycodes::Insert => 118,
        Keycodes::Delete => 119,
        Keycodes::KP_Equal => 125,
        Keycodes::plusminus => 126,
        Keycodes::Pause => 127,
        Keycodes::KP_Decimal => 129,
        Keycodes::Super_L => 133,
        Keycodes::Super_R => 134,
        Keycodes::Menu => 135,
        Keycodes::Cancel => 136,
        Keycodes::Redo => 137,
        Keycodes::Undo => 139,
        Keycodes::Find => 144,
        Keycodes::Help => 146,
    }
}

/// The key with the given code, if any.
pub open spec fn keycode_of_value(v: u8) -> Option<Keycodes> {
    if v == 9 {
        Some(Keycodes::Escape)
    } else if v == 10 {
        Some(Keycodes::Num_1)
    } else if v == 11 {
        Some(Keycodes::Num_2)
    } else if v == 12 {
        Some(Keycodes::Num_3)
    } else if v == 13 {
        Some(Keycodes::Num_4)
    } else if v == 14 {
        Some(Keycodes::Num_5)
    } else if v == 15 {
        Some(Keycodes::Num_6)
    } else if v == 16 {
        Some(Keycodes::Num_7)
    } else if v == 17 {
        Some(Keycodes::Num_8)
    } else if v == 18 {
        Some(Keycodes::Num_9)
    } else if v == 19 {
        Some(Keycodes::Num_0)
    } else if v == 20 {
        Some(Keycodes::minus)
    } else if v == 21 {
        Some(Keycodes::equal)
    } else if v == 22 {
        Some(Keycodes::BackSpace)
    } else if v == 23 {
        Some(Keycodes::Tab)
    } else if v == 24 {
        Some(Keycodes::q)
    } else if v == 25 {
        Some(Keycodes::w)
    } else if v == 26 {
        Some(Keycodes::e)
    } else if v == 27 {
        Some(Keycodes::r)
    } else if v == 28 {
        Some(Keycodes::t)
    } else if v == 29 {
        Some(Keycodes::y)
    } else if v == 30 {
        Some(Keycodes::u)
    } else if v == 31 {
        Some(Keycodes::i)
    } else if v == 32 {
        Some(Keycodes::o)
    } else if v == 33 {
        Some(Keycodes::p)
    } else if v == 34 {
        Some(Keycodes::bracketleft)
    } else if v == 35 {
        Some(Keycodes::bracketright)
    } else if v == 36 {
        Some(Keycodes::Return)
    } else if v == 37 {
        Some(Keycodes::Control_L)
    } else if v == 38 {
        Some(Keycodes::a)
    } else if v == 39 {
        Some(Keycodes::s)
    } else if v == 40 {
        Some(Keycodes::d)
    } else if v == 41 {
        Some(Keycodes::f)
    } else if v == 42 {
        Some(Keycodes::g)
    } else if v == 43 {
        Some(Keycodes::h)
    } else if v == 44 {
        Some(Keycodes::j)
    } else if v == 45 {
        Some(Keycodes::k)
    } else if v == 46 {
        Some(Keycodes::l)
    } else if v == 47 {
        Some(Keycodes::semicolon)
    } else if v == 48 {
        Some(Keycodes::apostrophe)
    } else if v == 50 {
        Some(Keycodes::Shift_L)
    } else if v == 51 {
        Some(Keycodes::backslash)
    } else if v == 52 {
        Some(Keycodes::z)
    } else if v == 53 {
        Some(Keycodes::x)
    } else if v == 54 {
        Some(Keycodes::c)
    } else if v == 55 {
        Some(Keycodes::v)
    } else if v == 56 {
        Some(Keycodes::b)
    } else if v == 57 {
        Some(Keycodes::n)
    } else if v == 58 {
        Some(Keycodes::m)
    } else if v == 59 {
        Some(Keycodes::comma)
    } else if v == 60 {
        Some(Keycodes::period)
    } else if v == 61 {
        Some(Keycodes::slash)
    } else if v == 62 {
        Some(Keycodes::Shift_R)
    } else if v == 64 {
        Some(Keycodes::Alt_L)
    } else if v == 65 {
        Some(Keycodes::space)
    } else if v == 67 {
        Some(Keycodes::F1)
    } else if v == 68 {
        Some(Keycodes::F2)
    } else if v == 69 {
        Some(Keycodes::F3)
    } else if v == 70 {
        Some(Keycodes::F4)
    } else if v == 71 {
        Some(Keycodes::F5)
    } else if v == 72 {
        Some(Keycodes::F6)
    } else if v == 73 {
        Some(Keycodes::F7)
    } else if v == 74 {
        Some(Keycodes::F8)
    } else if v == 75 {
        Some(Keycodes::F9)
    } else if v == 76 {
        Some(Keycodes::F10)
    } else if v == 79 {
        Some(Keycodes::KP_Home)
    } else if v == 80 {
        Some(Keycodes::KP_Up)
    } else if v == 81 {
        Some(Keycodes::KP_Prior)
    } else if v == 82 {
        Some(Keycodes::KP_Subtract)
    } else if v == 83 {
        Some(Keycodes::KP_Left)
    } else if v == 84 {
        Some(Keycodes::KP_Begin)
    } else if v == 85 {
        Some(Keycodes::KP_Right)
    } else if v == 86 {
        Some(Keycodes::KP_Add)
    } else if v == 87 {
        Some(Keycodes::KP_End)
    } else if v == 88 {
        Some(Keycodes::KP_Down)
    } else if v == 89 {
        Some(Keycodes::KP_Next)
    } else if v == 90 {
        Some(Keycodes::KP_Insert)
    } else if v == 91 {
        Some(Keycodes::KP_Delete)
    } else if v == 94 {
        Some(Keycodes::less)
    } else if v == 95 {
        Some(Keycodes::F11)
    } else if v == 96 {
        Some(Keycodes::F12)
    } else if v == 104 {
        Some(Keycodes::KP_Enter)
    } else if v == 105 {
        Some(Keycodes::Control_R)
    } else if v == 106 {
        Some(Keycodes::KP_Divide)
    } else if v == 107 {
        Some(Keycodes::Print)
    } else if v == 108 {
        Some(Keycodes::Alt_R)
    } else if v == 110 {
        Some(Keycodes::Home)
    } else if v == 111 {
        Some(Keycodes::Up)
    } else if v == 112 {
        Some(Keycodes::Page_Up)
    } else if v == 113 {
        Some(Keycodes::Left)
    } else if v == 114 {
        Some(Keycodes::Right)
    } else if v == 115 {
        Some(Keycodes::End)
    } else if v == 116 {
        Some(Keycodes::Down)
    } else if v == 117 {
        Some(Keycodes::Page_Down)
    } else if v == 118 {
        Some(Keycodes::Insert)
    } else if v == 119 {
        Some(Keycodes::Delete)
    } else if v == 125 {
        Some(Keycodes::KP_Equal)
    } else if v == 126 {
        Some(Keycodes::plusminus)
    } else if v == 127 {
        Some(Keycodes::Pause)
    } else if v == 129 {
        Some(Keycodes::KP_Decimal)
    } else if v == 133 {
        Some(Keycodes::Super_L)
    } else if v == 134 {
        Some(Keycodes::Super_R)
    } else if v == 135 {
        Some(Keycodes::Menu)
    } else if v == 136 {
        Some(Keycodes::Cancel)
    } else if v == 137 {
        Some(Keycodes::Redo)
    } else if v == 139 {
        Some(Keycodes::Undo)
    } else if v == 144 {
        Some(Keycodes::Find)
    } else if v == 146 {
        Some(Keycodes::Help)
    } else {
        None
    }
}

/// The key a configuration names with `name`, written in lower case.
pub open spec fn keycode_of_name(name: Seq<char>) -> Option<Keycodes> {
    if name == "escape"@ {
        Some(Keycodes::Escape)
    } else if name == "1"@ {
        Some(Keycodes::Num_1)
    } else if name == "2"@ {
        Some(Keycodes::Num_2)
    } else if name == "3"@ {
        Some(Keycodes::Num_3)
    } else if name == "4"@ {
        Some(Keycodes::Num_4)
    } else if name == "5"@ {
        Some(Keycodes::Num_5)
    } else if name == "6"@ {
        Some(Keycodes::Num_6)
    } else if name == "7"@ {
        Some(Keycodes::Num_7)
    } else if name == "8"@ {
        Some(Keycodes::Num_8)
    } else if name == "9"@ {
        Some(Keycodes::Num_9)
    } else if name == "0"@ {
        Some(Keycodes::Num_0)
    } else if name == "minus"@ {
        Some(Keycodes::minus)
    } else if name == "equal"@ {
        Some(Keycodes::equal)
    } else if name == "backspace"@ {
        Some(Keycodes::BackSpace)
    } else if name == "tab"@ {
        Some(Keycodes::Tab)
    } else if name == "q"@ {
        Some(Keycodes::q)
    } else if name == "w"@ {
        Some(Keycodes::w)
    } else if name == "e"@ {
        Some(Keycodes::e)
    } else if name == "r"@ {
        Some(Keycodes::r)
    } else if name == "t"@ {
        Some(Keycodes::t)
    } else if name == "y"@ {
        Some(Keycodes::y)
    } else if name == "u"@ {
        Some(Keycodes::u)
    } else if name == "i"@ {
        Some(Keycodes::i)
    } else if name == "o"@ {
        Some(Keycodes::o)
    } else if name == "p"@ {
        Some(Keycodes::p)
    } else if name == "bracketleft"@ {
        Some(Keycodes::bracketleft)
    } else if name == "bracketright"@ {
        Some(Keycodes::bracketright)
    } else if name == "return"@ {
        Some(Keycodes::Return)
    } else if name == "enter"@ {
        Some(Keycodes::Return)
    } else if name == "control_l"@ {
        Some(Keycodes::Control_L)
    } else if name == "control"@ {
        Some(Keycodes::Control_L)
    } else if name == "ctrl"@ {
        Some(Keycodes::Control_L)
    } else if name == "a"@ {
        Some(Keycodes::a)
    } else if name == "s"@ {
        Some(Keycodes::s)
    } else if name == "d"@ {
        Some(Keycodes::d)
    } else if name == "f"@ {
        Some(Keycodes::f)
    } else if name == "g"@ {
        Some(Keycodes::g)
    } else if name == "h"@ {
        Some(Keycodes::h)
    } else if name == "j"@ {
        Some(Keycodes::j)
    } else if name == "k"@ {
        Some(Keycodes::k)
    } else if name == "l"@ {
        Some(Keycodes::l)
    } else if name == "semicolon"@ {
        Some(Keycodes::semicolon)
    } else if name == "apostrophe"@ {
        Some(Keycodes::apostrophe)
    } else if name == "shift_l"@ {
        Some(Keycodes::Shift_L)
    } else if name == "shift"@ {
        Some(Keycodes::Shift_L)
    } else if name == "backslash"@ {
        Some(Keycodes::backslash)
    } else if name == "z"@ {
        Some(Keycodes::z)
    } else if name == "x"@ {
        Some(Keycodes::x)
    } else if name == "c"@ {
        Some(Keycodes::c)
    } else if name == "v"@ {
        Some(Keycodes::v)
    } else if name == "b"@ {
        Some(Keycodes::b)
    } else if name == "n"@ {
        Some(Keycodes::n)
    } else if name == "m"@ {
        Some(Keycodes::m)
    } else if name == "comma"@ {
        Some(Keycodes::comma)
    } else if name == "period"@ {
        Some(Keycodes::period)
    } else if name == "slash"@ {
        Some(Keycodes::slash)
    } else if name == "shift_r"@ {
        Some(Keycodes::Shift_R)
    } else if name == "alt_l"@ {
        Some(Keycodes::Alt_L)
    } else if name == "alt"@ {
        Some(Keycodes::Alt_L)
    } else if name == "space"@ {
        Some(Keycodes::space)
    } else if name == "f1"@ {
        Some(Keycodes::F1)
    } else if name == "f2"@ {
        Some(Keycodes::F2)
    } else if name == "f3"@ {
        Some(Keycodes::F3)
    } else if name == "f4"@ {
        Some(Keycodes::F4)
    } else if name == "f5"@ {
        Some(Keycodes::F5)
    } else if name == "f6"@ {
        Some(Keycodes::F6)
    } else if name == "f7"@ {
        Some(Keycodes::F7)
    } else if name == "f8"@ {
        Some(Keycodes::F8)
    } else if name == "f9"@ {
        Some(Keycodes::F9)
    } else if name == "f10"@ {
        Some(Keycodes::F10)
    } else if name == "kp_home"@ {
        Some(Keycodes::KP_Home)
    } else if name == "kp_up"@ {
        Some(Keycodes::KP_Up)
    } else if name == "kp_prior"@ {
        Some(Keycodes::KP_Prior)
    } else if name == "kp_subtract"@ {
        Some(Keycodes::KP_Subtract)
    } else if name == "kp_left"@ {
        Some(Keycodes::KP_Left)
    } else if name == "kp_begin"@ {
        Some(Keycodes::KP_Begin)
    } else if name == "kp_right"@ {
        Some(Keycodes::KP_Right)
    } else if name == "kp_add"@ {
        Some(Keycodes::KP_Add)
    } else if name == "kp_end"@ {
        Some(Keycodes::KP_End)
    } else if name == "kp_down"@ {
        Some(Keycodes::KP_Down)
    } else if name == "kp_next"@ {
        Some(Keycodes::KP_Next)
    } else if name == "kp_insert"@ {
        Some(Keycodes::KP_Insert)
    } else if name == "kp_delete"@ {
        Some(Keycodes::KP_Delete)
    } else if name == "less"@ {
        Some(Keycodes::less)
    } else if name == "f11"@ {
        Some(Keycodes::F11)
    } else if name == "f12"@ {
        Some(Keycodes::F12)
    } else if name == "kp_enter"@ {
        Some(Keycodes::KP_Enter)
    } else if name == "control_r"@ {
        Some(Keycodes::Control_R)
    } else if name == "kp_divide"@ {
        Some(Keycodes::KP_Divide)
    } else if name == "print"@ {
        Some(Keycodes::Print)
    } else if name == "alt_r"@ {
        Some(Keycodes::Alt_R)
    } else if name == "home"@ {
        Some(Keycodes::Home)
    } else if name == "up"@ {
        Some(Keycodes::Up)
    } else if name == "page_up"@ {
        Some(Keycodes::Page_Up)
    } else if name == "left"@ {
        Some(Keycodes::Left)
    } else if name == "right"@ {
        Some(Keycodes::Right)
    } else if name == "end"@ {
        Some(Keycodes::End)
    } else if name == "down"@ {
        Some(Keycodes::Down)
    } else if name == "page_down"@ {
        Some(Keycodes::Page_Down)
    } else if name == "insert"@ {
        Some(Keycodes::Insert)
    } else if name == "delete"@ {
        Some(Keycodes::Delete)
    } else if name == "kp_equal"@ {
        Some(Keycodes::KP_Equal)
    } else if name == "plusminus"@ {
        Some(Keycodes::plusminus)
    } else if name == "pause"@ {
        Some(Keycodes::Pause)
    } else if name == "kp_decimal"@ {
        Some(Keycodes::KP_Decimal)
    } else if name == "super_l"@ {
        Some(Keycodes::Super_L)
    } else if name == "super"@ {
        Some(Keycodes::Super_L)
    } else if name == "super_r"@ {
        Some(Keycodes::Super_R)
    } else if name == "menu"@ {
        Some(Keycodes::Menu)
    } else if name == "cancel"@ {
        Some(Keycodes::Cancel)
    } else if name == "redo"@ {
        Some(Keycodes::Redo)
    } else if name == "undo"@ {
        Some(Keycodes::Undo)
    } else if name == "find"@ {
        Some(Keycodes::Find)
    } else if name == "help"@ {
        Some(Keycodes::Help)
    } else {
        None
    }
}

impl Keycodes {
    /// The key with the given name, written in lower case.
    pub fn from_lowercase_name(name: &str) -> (res: Result<Keycodes, ()>)
        ensures
            res == match keycode_of_name(name@) {
                Some(key) => Ok::<Keycodes, ()>(key),
                None => Err(()),
            },
    {
        if str_eq(name, "escape") {
            Ok(Keycodes::Escape)
        } else if str_eq(name, "1") {
            Ok(Keycodes::Num_1)
        } else if str_eq(name, "2") {
            Ok(Keycodes::Num_2)
        } else if str_eq(name, "3") {
            Ok(Keycodes::Num_3)
        } else if str_eq(name, "4") {
            Ok(Keycodes::Num_4)
        } else if str_eq(name, "5") {
            Ok(Keycodes::Num_5)
        } else if str_eq(name, "6") {
            Ok(Keycodes::Num_6)
        } else if str_eq(name, "7") {
            Ok(Keycodes::Num_7)
        } else if str_eq(name, "8") {
            Ok(Keycodes::Num_8)
        } else if str_eq(name, "9") {
            Ok(Keycodes::Num_9)
        } else if str_eq(name, "0") {
            Ok(Keycodes::Num_0)
        } else if str_eq(name, "minus") {
            Ok(Keycodes::minus)
        } else if str_eq(name, "equal") {
            Ok(Keycodes::equal)
        } else if str_eq(name, "backspace") {
            Ok(Keycodes::BackSpace)
        } else if str_eq(name, "tab") {
            Ok(Keycodes::Tab)
        } else if str_eq(name, "q") {
            Ok(Keycodes::q)
        } else if str_eq(name, "w") {
            Ok(Keycodes::w)
        } else if str_eq(name, "e") {
            Ok(Keycodes::e)
        } else if str_eq(name, "r") {
            Ok(Keycodes::r)
        } else if str_eq(name, "t") {
            Ok(Keycodes::t)
        } else if str_eq(name, "y") {
            Ok(Keycodes::y)
        } else if str_eq(name, "u") {
            Ok(Keycodes::u)
        } else if str_eq(name, "i") {
            Ok(Keycodes::i)
        } else if str_eq(name, "o") {
            Ok(Keycodes::o)
        } else if str_eq(name, "p") {
            Ok(Keycodes::p)
        } else if str_eq(name, "bracketleft") {
            Ok(Keycodes::bracketleft)
        } else if str_eq(name, "bracketright") {
            Ok(Keycodes::bracketright)
        } else if str_eq(name, "return") {
            Ok(Keycodes::Return)
        } else if str_eq(name, "enter") {
            Ok(Keycodes::Return)
        } else if str_eq(name, "control_l") {
            Ok(Keycodes::Control_L)
        } else if str_eq(name, "control") {
            Ok(Keycodes::Control_L)
        } else if str_eq(name, "ctrl") {
            Ok(Keycodes::Control_L)
        } else if str_eq(name, "a") {
            Ok(Keycodes::a)
        } else if str_eq(name, "s") {
            Ok(Keycodes::s)
        } else if str_eq(name, "d") {
            Ok(Keycodes::d)
        } else if str_eq(name, "f") {
            Ok(Keycodes::f)
        } else if str_eq(name, "g") {
            Ok(Keycodes::g)
        } else if str_eq(name, "h") {
            Ok(Keycodes::h)
        } else if str_eq(name, "j") {
            Ok(Keycodes::j)
        } else if str_eq(name, "k") {
            Ok(Keycodes::k)
        } else if str_eq(name, "l") {
            Ok(Keycodes::l)
        } else if str_eq(name, "semicolon") {
            Ok(Keycodes::semicolon)
        } else if str_eq(name, "apostrophe") {
            Ok(Keycodes::apostrophe)
        } else if str_eq(name, "shift_l") {
            Ok(Keycodes::Shift_L)
        } else if str_eq(name, "shift") {
            Ok(Keycodes::Shift_L)
        } else if str_eq(name, "backslash") {
            Ok(Keycodes::backslash)
        } else if str_eq(name, "z") {
            Ok(Keycodes::z)
        } else if str_eq(name, "x") {
            Ok(Keycodes::x)
        } else if str_eq(name, "c") {
            Ok(Keycodes::c)
        } else if str_eq(name, "v") {
            Ok(Keycodes::v)
        } else if str_eq(name, "b") {
            Ok(Keycodes::b)
        } else if str_eq(name, "n") {
            Ok(Keycodes::n)
        } else if str_eq(name, "m") {
            Ok(Keycodes::m)
        } else if str_eq(name, "comma") {
            Ok(Keycodes::comma)
        } else if str_eq(name, "period") {
            Ok(Keycodes::period)
        } else if str_eq(name, "slash") {
            Ok(Keycodes::slash)
        } else if str_eq(name, "shift_r") {
            Ok(Keycodes::Shift_R)
        } else if str_eq(name, "alt_l") {
            Ok(Keycodes::Alt_L)
        } else if str_eq(name, "alt") {
            Ok(Keycodes::Alt_L)
        } else if str_eq(name, "space") {
            Ok(Keycodes::space)
        } else if str_eq(name, "f1") {
            Ok(Keycodes::F1)
        } else if str_eq(name, "f2") {
            Ok(Keycodes::F2)
        } else if str_eq(name, "f3") {
            Ok(Keycodes::F3)
        } else if str_eq(name, "f4") {
            Ok(Keycodes::F4)
        } else if str_eq(name, "f5") {
            Ok(Keycodes::F5)
        } else if str_eq(name, "f6") {
            Ok(Keycodes::F6)
        } else if str_eq(name, "f7") {
            Ok(Keycodes::F7)
        } else if str_eq(name, "f8") {
            Ok(Keycodes::F8)
        } else if str_eq(name, "f9") {
            Ok(Keycodes::F9)
        } else if str_eq(name, "f10") {
            Ok(Keycodes::F10)
        } else if str_eq(name, "kp_home") {
            Ok(Keycodes::KP_Home)
        } else if str_eq(name, "kp_up") {
            Ok(Keycodes::KP_Up)
        } else if str_eq(name, "kp_prior") {
            Ok(Keycodes::KP_Prior)
        } else if str_eq(name, "kp_subtract") {
            Ok(Keycodes::KP_Subtract)
        } else if str_eq(name, "kp_left") {
            Ok(Keycodes::KP_Left)
        } else if str_eq(name, "kp_begin") {
            Ok(Keycodes::KP_Begin)
        } else if str_eq(name, "kp_right") {
            Ok(Keycodes::KP_Right)
        } else if str_eq(name, "kp_add") {
            Ok(Keycodes::KP_Add)
        } else if str_eq(name, "kp_end") {
            Ok(Keycodes::KP_End)
        } else if str_eq(name, "kp_down") {
            Ok(Keycodes::KP_Down)
        } else if str_eq(name, "kp_next") {
            Ok(Keycodes::KP_Next)
        } else if str_eq(name, "kp_insert") {
            Ok(Keycodes::KP_Insert)
        } else if str_eq(name, "kp_delete") {
            Ok(Keycodes::KP_Delete)
        } else if str_eq(name, "less") {
            Ok(Keycodes::less)
        } else if str_eq(name, "f11") {
            Ok(Keycodes::F11)
        } else if str_eq(name, "f12") {
            Ok(Keycodes::F12)
        } else if str_eq(name, "kp_enter") {
            Ok(Keycodes::KP_Enter)
        } else if str_eq(name, "control_r") {
            Ok(Keycodes::Control_R)
        } else if str_eq(name, "kp_divide") {
            Ok(Keycodes::KP_Divide)
        } else if str_eq(name, "print") {
            Ok(Keycodes::Print)
        } else if str_eq(name, "alt_r") {
            Ok(Keycodes::Alt_R)
        } else if str_eq(name, "home") {
            Ok(Keycodes::Home)
        } else if str_eq(name, "up") {
            Ok(Keycodes::Up)
        } else if str_eq(name, "page_up") {
            Ok(Keycodes::Page_Up)
        } else if str_eq(name, "left") {
            Ok(Keycodes::Left)
        } else if str_eq(name, "right") {
            Ok(Keycodes::Right)
        } else if str_eq(name, "end") {
            Ok(Keycodes::End)
        } else if str_eq(name, "down") {
            Ok(Keycodes::Down)
        } else if str_eq(name, "page_down") {
            Ok(Keycodes::Page_Down)
        } else if str_eq(name, "insert") {
            Ok(Keycodes::Insert)
        } else if str_eq(name, "delete") {
            Ok(Keycodes::Delete)
        } else if str_eq(name, "kp_equal") {
            Ok(Keycodes::KP_Equal)
        } else if str_eq(name, "plusminus") {
            Ok(Keycodes::plusminus)
        } else if str_eq(name, "pause") {
            Ok(Keycodes::Pause)
        } else if str_eq(name, "kp_decimal") {
            Ok(Keycodes::KP_Decimal)
        } else if str_eq(name, "super_l") {
            Ok(Keycodes::Super_L)
        } else if str_eq(name, "super") {
            Ok(Keycodes::Super_L)
        } else if str_eq(name, "super_r") {
            Ok(Keycodes::Super_R)
        } else if str_eq(name, "menu") {
            Ok(Keycodes::Menu)
        } else if str_eq(name, "cancel") {
            Ok(Keycodes::Cancel)
        } else if str_eq(name, "redo") {
            Ok(Keycodes::Redo)
        } else if str_eq(name, "undo") {
            Ok(Keycodes::Undo)
        } else if str_eq(name, "find") {
            Ok(Keycodes::Find)
        } else if str_eq(name, "help") {
            Ok(Keycodes::Help)
        } else {
            Err(())
        }
    }

    /// The key code.
    pub fn code(self) -> (res: u8)
        ensures
            res == keycode_value(self),
    {
        match self {
            Keycodes::Escape => 9,
            Keycodes::Num_1 => 10,
            Keycodes::Num_2 => 11,
            Keycodes::Num_3 => 12,
            Keycodes::Num_4 => 13,
            Keycodes::Num_5 => 14,
            Keycodes::Num_6 => 15,
            Keycodes::Num_7 => 16,
            Keycodes::Num_8 => 17,
            Keycodes::Num_9 => 18,
            Keycodes::Num_0 => 19,
            Keycodes::minus => 20,
            Keycodes::equal => 21,
            Keycodes::BackSpace => 22,
            Keycodes::Tab => 23,
            Keycodes::q => 24,
            Keycodes::w => 25,
            Keycodes::e => 26,
            Keycodes::r => 27,
            Keycodes::t => 28,
            Keycodes::y => 29,
            Keycodes::u => 30,
            Keycodes::i => 31,
            Keycodes::o => 32,
            Keycodes::p => 33,
            Keycodes::bracketleft => 34,
            Keycodes::bracketright => 35,
            Keycodes::Return => 36,
            Keycodes::Control_L => 37,
            Keycodes::a => 38,
            Keycodes::s => 39,
            Keycodes::d => 40,
            Keycodes::f => 41,
            Keycodes::g => 42,
            Keycodes::h => 43,
            Keycodes::j => 44,
            Keycodes::k => 45,
            Keycodes::l => 46,
            Keycodes::semicolon => 47,
            Keycodes::apostrophe => 48,
            Keycodes::Shift_L => 50,
            Keycodes::backslash => 51,
            Keycodes::z => 52,
            Keycodes::x => 53,
            Keycodes::c => 54,
            Keycodes::v => 55,
            Keycodes::b => 56,
            Keycodes::n => 57,
            Keycodes::m => 58,
            Keycodes::comma => 59,
            Keycodes::period => 60,
            Keycodes::slash => 61,
            Keycodes::Shift_R => 62,
            Keycodes::Alt_L => 64,
            Keycodes::space => 65,
            Keycodes::F1 => 67,
            Keycodes::F2 => 68,
            Keycodes::F3 => 69,
            Keycodes::F4 => 70,
            Keycodes::F5 => 71,
            Keycodes::F6 => 72,
            Keycodes::F7 => 73,
            Keycodes::F8 => 74,
            Keycodes::F9 => 75,
            Keycodes::F10 => 76,
            Keycodes::KP_Home => 79,
            Keycodes::KP_Up => 80,
            Keycodes::KP_Prior => 81,
            Keycodes::KP_Subtract => 82,
            Keycodes::KP_Left => 83,
            Keycodes::KP_Begin => 84,
            Keycodes::KP_Right => 85,
            Keycodes::KP_Add => 86,
            Keycodes::KP_End => 87,
            Keycodes::KP_Down => 88,
            Keycodes::KP_Next => 89,
            Keycodes::KP_Insert => 90,
            Keycodes::KP_Delete => 91,
            Keycodes::less => 94,
            Keycodes::F11 => 95,
            Keycodes::F12 => 96,
            Keycodes::KP_Enter => 104,
            Keycodes::Control_R => 105,
            Keycodes::KP_Divide => 106,
            Keycodes::Print => 107,
            Keycodes::Alt_R => 108,
            Keycodes::Home => 110,
            Keycodes::Up => 111,
            Keycodes::Page_Up => 112,
            Keycodes::Left => 113,
            Keycodes::Right => 114,
            Keycodes::End => 115,
            Keycodes::Down => 116,
            Keycodes::Page_Down => 117,
            Keycodes::Insert => 118,
            Keycodes::Delete => 119,
            Keycodes::KP_Equal => 125,
            Keycodes::plusminus => 126,
            Keycodes::Pause => 127,
            Keycodes::KP_Decimal => 129,
            Keycodes::Super_L => 133,
            Keycodes::Super_R => 134,
            Keycodes::Menu => 135,
            Keycodes::Cancel => 136,
            Keycodes::Redo => 137,
            Keycodes::Undo => 139,
            Keycodes::Find => 144,
            Keycodes::Help => 146,
        }
    }
}

impl From<Keycodes> for u8 {
    fn from(value: Keycodes) -> (res: u8) {
        value.code()
    }
}

impl FromSpecImpl<Keycodes> for u8 {
    open spec fn obeys_from_spec() -> bool {
        true
    }

    open spec fn from_spec(key: Keycodes) -> u8 {
        keycode_value(key)
    }
}

impl TryFrom<u8> for Keycodes {
    type Error = ();

    fn try_from(value: u8) -> (res: Result<Self, Self::Error>) {
        if value == 9 {
            Ok(Keycodes::Escape)
        } else if value == 10 {
            Ok(Keycodes::Num_1)
        } else if value == 11 {
            Ok(Keycodes::Num_2)
        } else if value == 12 {
            Ok(Keycodes::Num_3)
        } else if value == 13 {
            Ok(Keycodes::Num_4)
        } else if value == 14 {
            Ok(Keycodes::Num_5)
        } else if value == 15 {
            Ok(Keycodes::Num_6)
        } else if value == 16 {
            Ok(Keycodes::Num_7)
        } else if value == 17 {
            Ok(Keycodes::Num_8)
        } else if value == 18 {
            Ok(Keycodes::Num_9)
        } else if value == 19 {
            Ok(Keycodes::Num_0)
        } else if value == 20 {
            Ok(Keycodes::minus)
        } else if value == 21 {
            Ok(Keycodes::equal)
        } else if value == 22 {
            Ok(Keycodes::BackSpace)
        } else if value == 23 {
            Ok(Keycodes::Tab)
        } else if value == 24 {
            Ok(Keycodes::q)
        } else if value == 25 {
            Ok(Keycodes::w)
        } else if value == 26 {
            Ok(Keycodes::e)
        } else if value == 27 {
            Ok(Keycodes::r)
        } else if value == 28 {
            Ok(Keycodes::t)
        } else if value == 29 {
            Ok(Keycodes::y)
        } else if value == 30 {
            Ok(Keycodes::u)
        } else if value == 31 {
            Ok(Keycodes::i)
        } else if value == 32 {
            Ok(Keycodes::o)
        } else if value == 33 {
            Ok(Keycodes::p)
        } else if value == 34 {
            Ok(Keycodes::bracketleft)
        } else if value == 35 {
            Ok(Keycodes::bracketright)
        } else if value == 36 {
            Ok(Keycodes::Return)
        } else if value == 37 {
            Ok(Keycodes::Control_L)
        } else if value == 38 {
            Ok(Keycodes::a)
        } else if value == 39 {
            Ok(Keycodes::s)
        } else if value == 40 {
            Ok(Keycodes::d)
        } else if value == 41 {
            Ok(Keycodes::f)
        } else if value == 42 {
            Ok(Keycodes::g)
        } else if value == 43 {
            Ok(Keycodes::h)
        } else if value == 44 {
            Ok(Keycodes::j)
        } else if value == 45 {
            Ok(Keycodes::k)
        } else if value == 46 {
            Ok(Keycodes::l)
        } else if value == 47 {
            Ok(Keycodes::semicolon)
        } else if value == 48 {
            Ok(Keycodes::apostrophe)
        } else if value == 50 {
            Ok(Keycodes::Shift_L)
        } else if value == 51 {
            Ok(Keycodes::backslash)
        } else if value == 52 {
            Ok(Keycodes::z)
        } else if value == 53 {
            Ok(Keycodes::x)
        } else if value == 54 {
            Ok(Keycodes::c)
        } else if value == 55 {
            Ok(Keycodes::v)
        } else if value == 56 {
            Ok(Keycodes::b)
        } else if value == 57 {
            Ok(Keycodes::n)
        } else if value == 58 {
            Ok(Keycodes::m)
        } else if value == 59 {
            Ok(Keycodes::comma)
        } else if value == 60 {
            Ok(Keycodes::period)
        } else if value == 61 {
            Ok(Keycodes::slash)
        } else if value == 62 {
            Ok(Keycodes::Shift_R)
        } else if value == 64 {
            Ok(Keycodes::Alt_L)
        } else if value == 65 {
            Ok(Keycodes::space)
        } else if value == 67 {
            Ok(Keycodes::F1)
        } else if value == 68 {
            Ok(Keycodes::F2)
        } else if value == 69 {
            Ok(Keycodes::F3)
        } else if value == 70 {
            Ok(Keycodes::F4)
        } else if value == 71 {
            Ok(Keycodes::F5)
        } else if value == 72 {
            Ok(Keycodes::F6)
        } else if value == 73 {
            Ok(Keycodes::F7)
        } else if value == 74 {
            Ok(Keycodes::F8)
        } else if value == 75 {
            Ok(Keycodes::F9)
        } else if value == 76 {
            Ok(Keycodes::F10)
        } else if value == 79 {
            Ok(Keycodes::KP_Home)
        } else if value == 80 {
            Ok(Keycodes::KP_Up)
        } else if value == 81 {
            Ok(Keycodes::KP_Prior)
        } else if value == 82 {
            Ok(Keycodes::KP_Subtract)
        } else if value == 83 {
            Ok(Keycodes::KP_Left)
        } else if value == 84 {
            Ok(Keycodes::KP_Begin)
        } else if value == 85 {
            Ok(Keycodes::KP_Right)
        } else if value == 86 {
            Ok(Keycodes::KP_Add)
        } else if value == 87 {
            Ok(Keycodes::KP_End)
        } else if value == 88 {
            Ok(Keycodes::KP_Down)
        } else if value == 89 {
            Ok(Keycodes::KP_Next)
        } else if value == 90 {
            Ok(Keycodes::KP_Insert)
        } else if value == 91 {
            Ok(Keycodes::KP_Delete)
        } else if value == 94 {
            Ok(Keycodes::less)
        } else if value == 95 {
            Ok(Keycodes::F11)
        } else if value == 96 {
            Ok(Keycodes::F12)
        } else if value == 104 {
            Ok(Keycodes::KP_Enter)
        } else if value == 105 {
            Ok(Keycodes::Control_R)
        } else if value == 106 {
            Ok(Keycodes::KP_Divide)
        } else if value == 107 {
            Ok(Keycodes::Print)
        } else if value == 108 {
            Ok(Keycodes::Alt_R)
        } else if value == 110 {
            Ok(Keycodes::Home)
        } else if value == 111 {
            Ok(Keycodes::Up)
        } else if value == 112 {
            Ok(Keycodes::Page_Up)
        } else if value == 113 {
            Ok(Keycodes::Left)
        } else if value == 114 {
            Ok(Keycodes::Right)
        } else if value == 115 {
            Ok(Keycodes::End)
        } else if value == 116 {
            Ok(Keycodes::Down)
        } else if value == 117 {
            Ok(Keycodes::Page_Down)
        } else if value == 118 {
            Ok(Keycodes::Insert)
        } else if value == 119 {
            Ok(Keycodes::Delete)
        } else if value == 125 {
            Ok(Keycodes::KP_Equal)
        } else if value == 126 {
            Ok(Keycodes::plusminus)
        } else if value == 127 {
            Ok(Keycodes::Pause)
        } else if value == 129 {
            Ok(Keycodes::KP_Decimal)
        } else if value == 133 {
            Ok(Keycodes::Super_L)
        } else if value == 134 {
            Ok(Keycodes::Super_R)
        } else if value == 135 {
            Ok(Keycodes::Menu)
        } else if value == 136 {
            Ok(Keycodes::Cancel)
        } else if value == 137 {
            Ok(Keycodes::Redo)
        } else if value == 139 {
            Ok(Keycodes::Undo)
        } else if value == 144 {
            Ok(Keycodes::Find)
        } else if value == 146 {
            Ok(Keycodes::Help)
        } else {
            Err(())
        }
    }
}

impl TryFromSpecImpl<u8> for Keycodes {
    open spec fn obeys_try_from_spec() -> bool {
        true
    }

    open spec fn try_from_spec(v: u8) -> Result<Self, ()> {
        match keycode_of_value(v) {
            Some(key) => Ok(key),
            None => Err(()),
        }
    }
}

/// The text that `str::to_lowercase` returns for the characters `s`.
pub uninterp spec fn lowercase(s: Seq<char>) -> Seq<char>;

/// `s` with each character in ASCII lower case.
pub open spec fn ascii_lowered(s: Seq<char>) -> Seq<char> {
    s.map_values(|c: char| ascii_lower(c))
}

/// All characters of `s` are ASCII.
pub open spec fn is_ascii_text(s: Seq<char>) -> bool {
    forall|i: int| 0 <= i < s.len() ==> (#[trigger] s[i] as u32) < 128
}

/// The ASCII lower case of `c`: `A` to `Z` become `a` to `z`, every other
/// character stays.
pub open spec fn ascii_lower(c: char) -> char {
    if 'A' <= c <= 'Z' {
        ((c as u32) + 32) as char
    } else {
        c
    }
}

/// Calls `str::to_lowercase`. What it returns, Unicode's lower-case mapping of
/// each character, is left to the name `lowercase`; the contract claims that
/// the result is that name applied to the argument's characters and, for
/// ASCII text, the plain ASCII mapping, one character for one (Unicode lower
/// cases `A` to `Z` to `a` to `z` and keeps the other ASCII characters).
#[verifier::external_body]
fn to_lowercase(s: &str) -> (res: String)
    ensures
        res@ == lowercase(s@),
        is_ascii_text(s@) ==> res@ == ascii_lowered(s@),
{
    s.to_lowercase()
}

/// The key a configuration names with `name`, in any case.
pub open spec fn keycode_by_name(name: Seq<char>) -> Option<Keycodes> {
    keycode_of_name(lowercase(name))
}

impl<'a> TryFrom<&'a str> for Keycodes {
    type Error = ();

    fn try_from(value: &'a str) -> (res: Result<Self, Self::Error>)
        ensures
            is_ascii_text(value@) ==> res == match keycode_of_name(ascii_lowered(value@)) {
                Some(key) => Ok::<Keycodes, ()>(key),
                None => Err(()),
            },
    {
        let lower_case_value = to_lowercase(value);
        Keycodes::from_lowercase_name(lower_case_value.as_str())
    }
}

impl<'a> TryFromSpecImpl<&'a str> for Keycodes {
    open spec fn obeys_try_from_spec() -> bool {
        true
    }

    open spec fn try_from_spec(v: &'a str) -> Result<Self, ()> {
        match keycode_by_name(v@) {
            Some(key) => Ok(key),
            None => Err(()),
        }
    }
}

/// The modifier mask of a modifier key.
pub open spec fn modifier_mask(key: Keycodes) -> Option<u32> {
    match key {
        Keycodes::Shift_L | Keycodes::Shift_R => Some(XCB_MOD_MASK_SHIFT),
        Keycodes::Control_L | Keycodes::Control_R => Some(XCB_MOD_MASK_CONTROL),
        Keycodes::Alt_L | Keycodes::Alt_R => Some(XCB_MOD_MASK_1),
        Keycodes::Super_L | Keycodes::Super_R => Some(XCB_MOD_MASK_4),
        _ => None,
    }
}

impl TryFrom<Keycodes> for u32 {
    type Error = ();

    fn try_from(value: Keycodes) -> (res: Result<Self, Self::Error>) {
        match value {
            Keycodes::Shift_L | Keycodes::Shift_R => Ok(XCB_MOD_MASK_SHIFT),
            Keycodes::Control_L | Keycodes::Control_R => Ok(XCB_MOD_MASK_CONTROL),
            Keycodes::Alt_L | Keycodes::Alt_R => Ok(XCB_MOD_MASK_1),
            Keycodes::Super_L | Keycodes::Super_R => Ok(XCB_MOD_MASK_4),
            _ => Err(()),
        }
    }
}

impl TryFromSpecImpl<Keycodes> for u32 {
    open spec fn obeys_try_from_spec() -> bool {
        true
    }

    open spec fn try_from_spec(key: Keycodes) -> Result<Self, ()> {
        match modifier_mask(key) {
            Some(m) => Ok(m),
            None => Err(()),
        }
    }
}

/// Names are told apart only by their lower-case form: two names whose
/// lower-case forms agree name the same key, or both name none.
pub proof fn law_names_case_insensitive(a: Seq<char>, b: Seq<char>)
    ensures
        lowercase(a) == lowercase(b) ==> keycode_by_name(a) == keycode_by_name(b),
{
}

/// The ASCII lower case of ASCII text is ASCII text, and lower-casing it
/// again changes nothing.
proof fn lemma_ascii_lower_twice(s: Seq<char>)
    requires
        is_ascii_text(s),
    ensures
        is_ascii_text(ascii_lowered(s)),
        ascii_lowered(ascii_lowered(s)) == ascii_lowered(s),
{
    let t = ascii_lowered(s);
    assert forall|i: int| 0 <= i < t.len() implies (#[trigger] t[i] as u32) < 128 by {
        assert((s[i] as u32) < 128);
    }
    assert forall|i: int| 0 <= i < t.len() implies #[trigger] ascii_lower(t[i]) == t[i] by {
        assert((s[i] as u32) < 128);
    }
    assert(ascii_lowered(t) =~= t);
}

/// For a name written in ASCII, as all key names are, the key its lower-case
/// form names is the key it names: `Keycodes::try_from` gives the same for
/// `s` and for `s.to_lowercase()`.
pub proof fn law_ascii_names_case_insensitive(s: Seq<char>)
    requires
        is_ascii_text(s),
    ensures
        is_ascii_text(ascii_lowered(s)),
        keycode_of_name(ascii_lowered(ascii_lowered(s))) == keycode_of_name(ascii_lowered(s)),
{
    lemma_ascii_lower_twice(s);
}

/// Converting a key to its code and back gives the key.
pub proof fn lemma_keycode_round_trip(key: Keycodes)
    ensures
        keycode_of_value(keycode_value(key)) == Some(key),
{
}

/// A code that names a key is that key's code.
pub proof fn lemma_keycode_value_of(v: u8)
    ensures
        keycode_of_value(v) matches Some(key) ==> keycode_value(key) == v,
{
}

} // verus!
