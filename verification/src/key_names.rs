//! The key names of the first keybinding format: key codes as `xev` reports
//! them, named as X keysyms are (case matters), with the modifier masks of the
//! modifier keys.
use vstd::prelude::*;
use vstd::std_specs::convert::FromSpecImpl;
use crate::keycodes::{
    XCB_MOD_MASK_1, XCB_MOD_MASK_2, XCB_MOD_MASK_4, XCB_MOD_MASK_5, XCB_MOD_MASK_CONTROL,
    XCB_MOD_MASK_LOCK, XCB_MOD_MASK_SHIFT,
};
use crate::text::{join, join_strs, str_eq, views};

verus! {

/// What a binding does.
#[derive(Debug)]
pub enum Action {
    /// Runs the command.
    Exec(String),
}

#[allow(non_camel_case_types)]
#[derive(Debug, PartialEq, Eq, Copy, Clone, Structural)]
pub enum Keycodes {
    NoKey,
    Escape,
    _1,
    _2,
    _3,
    _4,
    _5,
    _6,
    _7,
    _8,
    _9,
    _0,
    minus,
    equal,
    BackSpace,
    Tab,
    q,
    w,
    e,
    r,
    t,
    y,
    u,
    i,
    o,
    p,
    bracketleft,
    bracketright,
    Return,
    Control_L,
    a,
    s,
    d,
    f,
    g,
    h,
    j,
    k,
    l,
    semicolon,
    apostrophe,
    grave,
    Shift_L,
    backslash,
    z,
    x,
    c,
    v,
    b,
    n,
    m,
    comma,
    period,
    slash,
    Shift_R,
    KP_Multiply,
    Alt_L,
    space,
    Caps_Lock,
    F1,
    F2,
    F3,
    F4,
    F5,
    F6,
    F7,
    F8,
    F9,
    F10,
    Num_Lock,
    Scroll_Lock,
    KP_Home,
    KP_Up,
    KP_Prior,
    KP_Subtract,
    KP_Left,
    KP_Begin,
    KP_Right,
    KP_Add,
    KP_End,
    KP_Down,
    KP_Next,
    KP_Insert,
    KP_Delete,
    ISO_Level3_Shift,
    less,
    F11,
    F12,
    Katakana,
    Hiragana,
    Henkan_Mode,
    Hiragana_Katakana,
    Muhenkan,
    KP_Enter,
    Control_R,
    KP_Divide,
    Print,
    Alt_R,
    Linefeed,
    Home,
    Up,
    Prior,
    Left,
    Right,
    End,
    Down,
    Next,
    Insert,
    Delete,
    XF86AudioMute,
    XF86AudioLowerVolume,
    XF86AudioRaiseVolume,
    XF86PowerOff,
    KP_Equal,
    plusminus,
    Pause,
    XF86LaunchA,
    KP_Decimal,
    Hangul,
    Hangul_Hanja,
    Super_L,
    Super_R,
    Menu,
    Cancel,
    Redo,
    SunProps,
    Undo,
    SunFront,
    XF86Copy,
    XF86Open,
    XF86Paste,
    Find,
    XF86Cut,
    Help,
    XF86MenuKB,
    XF86Calculator,
    XF86Sleep,
    XF86WakeUp,
    XF86Explorer,
    XF86Send,
    XF86Xfer,
    XF86Launch1,
    XF86Launch2,
    XF86WWW,
    XF86DOS,
    XF86ScreenSaver,
    XF86RotateWindows,
    XF86TaskPane,
    XF86Mail,
    XF86Favorites,
    XF86MyComputer,
    XF86Back,
    XF86Forward,
    XF86Eject,
    XF86AudioNext,
    XF86AudioPlay,
    XF86AudioPrev,
    XF86AudioStop,
    XF86AudioRecord,
    XF86AudioRewind,
    XF86Phone,
    XF86Tools,
    XF86HomePage,
    XF86Reload,
    XF86Close,
    XF86ScrollUp,
    XF86ScrollDown,
    parenleft,
    parenright,
    XF86New,
    XF86Launch5,
    XF86Launch6,
    XF86Launch7,
    XF86Launch8,
    XF86Launch9,
    XF86AudioMicMute,
    XF86TouchpadToggle,
    XF86TouchpadOn,
    XF86TouchpadOff,
    ISO_Level5_Shift,
    NoSymbol,
    XF86AudioPause,
    XF86Launch3,
    XF86Launch4,
    XF86LaunchB,
    XF86Suspend,
    XF86AudioForward,
    XF86WebCam,
    XF86AudioPreset,
    XF86Messenger,
    XF86Search,
    XF86Go,
    XF86Finance,
    XF86Game,
    XF86Shop,
    XF86MonBrightnessDown,
    XF86MonBrightnessUp,
    XF86AudioMedia,
    XF86Display,
    XF86KbdLightOnOff,
    XF86KbdBrightnessDown,
    XF86KbdBrightnessUp,
    XF86Reply,
    XF86MailForward,
    XF86Save,
    XF86Documents,
    XF86Battery,
    XF86Bluetooth,
    XF86WLAN,
    XF86UWB,
    XF86Next_VMode,
    XF86Prev_VMode,
    XF86MonBrightnessCycle,
    XF86BrightnessAuto,
    XF86DisplayOff,
    XF86WWAN,
    XF86RFKill,
}

/// The key code of each key; `NoKey`, no key at all, has the code 0.
pub open spec fn key_code(key: Keycodes) -> u8 {
    match key {
        Keycodes::NoKey => 0,
        Keycodes::Escape => 9,
        Keycodes::_1 => 10,
        Keycodes::_2 => 11,
        Keycodes::_3 => 12,
        Keycodes::_4 => 13,
        Keycodes::_5 => 14,
        Keycodes::_6 => 15,
        Keycodes::_7 => 16,
        Keycodes::_8 => 17,
        Keycodes::_9 => 18,
        Keycodes::_0 => 19,
        Keycodes::minus => 20,
        Keycodes::equal => 21,
        Keycodes::BackSpace => 22,
        Keycodes::Tab => 23,
        Keycodes::q => 24,
        Keycodes::w => 25,
        Keycodes::e => 26,
        Keycodes::r => 27,
        Keycodes::t => 28,
        Keycodes::y => 29,
        Keycodes::u => 30,
        Keycodes::i => 31,
        Keycodes::o => 32,
        Keycodes::p => 33,
        Keycodes::bracketleft => 34,
        Keycodes::bracketright => 35,
        Keycodes::Return => 36,
        Keycodes::Control_L => 37,
        Keycodes::a => 38,
        Keycodes::s => 39,
        Keycodes::d => 40,
        Keycodes::f => 41,
        Keycodes::g => 42,
        Keycodes::h => 43,
        Keycodes::j => 44,
        Keycodes::k => 45,
        Keycodes::l => 46,
        Keycodes::semicolon => 47,
        Keycodes::apostrophe => 48,
        Keycodes::grave => 49,
        Keycodes::Shift_L => 50,
        Keycodes::backslash => 51,
        Keycodes::z => 52,
        Keycodes::x => 53,
        Keycodes::c => 54,
        Keycodes::v => 55,
        Keycodes::b => 56,
        Keycodes::n => 57,
        Keycodes::m => 58,
        Keycodes::comma => 59,
        Keycodes::period => 60,
        Keycodes::slash => 61,
        Keycodes::Shift_R => 62,
        Keycodes::KP_Multiply => 63,
        Keycodes::Alt_L => 64,
        Keycodes::space => 65,
        Keycodes::Caps_Lock => 66,
        Keycodes::F1 => 67,
        Keycodes::F2 => 68,
        Keycodes::F3 => 69,
        Keycodes::F4 => 70,
        Keycodes::F5 => 71,
        Keycodes::F6 => 72,
        Keycodes::F7 => 73,
        Keycodes::F8 => 74,
        Keycodes::F9 => 75,
        Keycodes::F10 => 76,
        Keycodes::Num_Lock => 77,
        Keycodes::Scroll_Lock => 78,
        Keycodes::KP_Home => 79,
        Keycodes::KP_Up => 80,
        Keycodes::KP_Prior => 81,
        Keycodes::KP_Subtract => 82,
        Keycodes::KP_Left => 83,
        Keycodes::KP_Begin => 84,
        Keycodes::KP_Right => 85,
        Keycodes::KP_Add => 86,
        Keycodes::KP_End => 87,
        Keycodes::KP_Down => 88,
        Keycodes::KP_Next => 89,
        Keycodes::KP_Insert => 90,
        Keycodes::KP_Delete => 91,
        Keycodes::ISO_Level3_Shift => 92,
        Keycodes::less => 94,
        Keycodes::F11 => 95,
        Keycodes::F12 => 96,
        Keycodes::Katakana => 98,
        Keycodes::Hiragana => 99,
        Keycodes::Henkan_Mode => 100,
        Keycodes::Hiragana_Katakana => 101,
        Keycodes::Muhenkan => 102,
        Keycodes::KP_Enter => 104,
        Keycodes::Control_R => 105,
        Keycodes::KP_Divide => 106,
        Keycodes::Print => 107,
        Keycodes::Alt_R => 108,
        Keycodes::Linefeed => 109,
        Keycodes::Home => 110,
        Keycodes::Up => 111,
        Keycodes::Prior => 112,
        Keycodes::Left => 113,
        Keycodes::Right => 114,
        Keycodes::End => 115,
        Keycodes::Down => 116,
        Keycodes::Next => 117,
        Keycodes::Insert => 118,
        Keycodes::Delete => 119,
        Keycodes::XF86AudioMute => 121,
        Keycodes::XF86AudioLowerVolume => 122,
        Keycodes::XF86AudioRaiseVolume => 123,
        Keycodes::XF86PowerOff => 124,
        Keycodes::KP_Equal => 125,
        Keycodes::plusminus => 126,
        Keycodes::Pause => 127,
        Keycodes::XF86LaunchA => 128,
        Keycodes::KP_Decimal => 129,
        Keycodes::Hangul => 130,
        Keycodes::Hangul_Hanja => 131,
        Keycodes::Super_L => 133,
        Keycodes::Super_R => 134,
        Keycodes::Menu => 135,
        Keycodes::Cancel => 136,
        Keycodes::Redo => 137,
        Keycodes::SunProps => 138,
        Keycodes::Undo => 139,
        Keycodes::SunFront => 140,
        Keycodes::XF86Copy => 141,
        Keycodes::XF86Open => 142,
        Keycodes::XF86Paste => 143,
        Keycodes::Find => 144,
        Keycodes::XF86Cut => 145,
        Keycodes::Help => 146,
        Keycodes::XF86MenuKB => 147,
        Keycodes::XF86Calculator => 148,
        Keycodes::XF86Sleep => 150,
        Keycodes::XF86WakeUp => 151,
        Keycodes::XF86Explorer => 152,
        Keycodes::XF86Send => 153,
        Keycodes::XF86Xfer => 155,
        Keycodes::XF86Launch1 => 156,
        Keycodes::XF86Launch2 => 157,
        Keycodes::XF86WWW => 158,
        Keycodes::XF86DOS => 159,
        Keycodes::XF86ScreenSaver => 160,
        Keycodes::XF86RotateWindows => 161,
        Keycodes::XF86TaskPane => 162,
        Keycodes::XF86Mail => 163,
        Keycodes::XF86Favorites => 164,
        Keycodes::XF86MyComputer => 165,
        Keycodes::XF86Back => 166,
        Keycodes::XF86Forward => 167,
        Keycodes::XF86Eject => 169,
        Keycodes::XF86AudioNext => 171,
        Keycodes::XF86AudioPlay => 172,
        Keycodes::XF86AudioPrev => 173,
        Keycodes::XF86AudioStop => 174,
        Keycodes::XF86AudioRecord => 175,
        Keycodes::XF86AudioRewind => 176,
        Keycodes::XF86Phone => 177,
        Keycodes::XF86Tools => 179,
        Keycodes::XF86HomePage => 180,
        Keycodes::XF86Reload => 181,
        Keycodes::XF86Close => 182,
        Keycodes::XF86ScrollUp => 185,
        Keycodes::XF86ScrollDown => 186,
        Keycodes::parenleft => 187,
        Keycodes::parenright => 188,
        Keycodes::XF86New => 189,
        Keycodes::XF86Launch5 => 192,
        Keycodes::XF86Launch6 => 193,
        Keycodes::XF86Launch7 => 194,
        Keycodes::XF86Launch8 => 195,
        Keycodes::XF86Launch9 => 196,
        Keycodes::XF86AudioMicMute => 198,
        Keycodes::XF86TouchpadToggle => 199,
        Keycodes::XF86TouchpadOn => 200,
        Keycodes::XF86TouchpadOff => 201,
        Keycodes::ISO_Level5_Shift => 203,
        Keycodes::NoSymbol => 204,
        Keycodes::XF86AudioPause => 209,
        Keycodes::XF86Launch3 => 210,
        Keycodes::XF86Launch4 => 211,
        Keycodes::XF86LaunchB => 212,
        Keycodes::XF86Suspend => 213,
        Keycodes::XF86AudioForward => 216,
        Keycodes::XF86WebCam => 220,
        Keycodes::XF86AudioPreset => 221,
        Keycodes::XF86Messenger => 224,
        Keycodes::XF86Search => 225,
        Keycodes::XF86Go => 226,
        Keycodes::XF86Finance => 227,
        Keycodes::XF86Game => 228,
        Keycodes::XF86Shop => 229,
        Keycodes::XF86MonBrightnessDown => 232,
        Keycodes::XF86MonBrightnessUp => 233,
        Keycodes::XF86AudioMedia => 234,
        Keycodes::XF86Display => 235,
        Keycodes::XF86KbdLightOnOff => 236,
        Keycodes::XF86KbdBrightnessDown => 237,
        Keycodes::XF86KbdBrightnessUp => 238,
        Keycodes::XF86Reply => 240,
        Keycodes::XF86MailForward => 241,
        Keycodes::XF86Save => 242,
        Keycodes::XF86Documents => 243,
        Keycodes::XF86Battery => 244,
        Keycodes::XF86Bluetooth => 245,
        Keycodes::XF86WLAN => 246,
        Keycodes::XF86UWB => 247,
        Keycodes::XF86Next_VMode => 249,
        Keycodes::XF86Prev_VMode => 250,
        Keycodes::XF86MonBrightnessCycle => 251,
        Keycodes::XF86BrightnessAuto => 252,
        Keycodes::XF86DisplayOff => 253,
        Keycodes::XF86WWAN => 254,
        Keycodes::XF86RFKill => 255,
    }
}

/// The key a binding names with `name`.
pub open spec fn key_of_name(name: Seq<char>) -> Option<Keycodes> {
    if name == "Alt"@ {
        Some(Keycodes::Alt_L)
    } else if name == "Escape"@ {
        Some(Keycodes::Escape)
    } else if name == "1"@ {
        Some(Keycodes::_1)
    } else if name == "2"@ {
        Some(Keycodes::_2)
    } else if name == "3"@ {
        Some(Keycodes::_3)
    } else if name == "4"@ {
        Some(Keycodes::_4)
    } else if name == "5"@ {
        Some(Keycodes::_5)
    } else if name == "6"@ {
        Some(Keycodes::_6)
    } else if name == "7"@ {
        Some(Keycodes::_7)
    } else if name == "8"@ {
        Some(Keycodes::_8)
    } else if name == "9"@ {
        Some(Keycodes::_9)
    } else if name == "0"@ {
        Some(Keycodes::_0)
    } else if name == "minus"@ {
        Some(Keycodes::minus)
    } else if name == "equal"@ {
        Some(Keycodes::equal)
    } else if name == "BackSpace"@ {
        Some(Keycodes::BackSpace)
    } else if name == "Tab"@ {
        Some(Keycodes::Tab)
    } else if name == "q"@ {
        Some(Keycodes::q)
    } else if name == "w"@ {
        Some(Keycodes::w)
    } else if name == "e"@ {
        Some(Keycodes::e)
    } else if name == "r"@ {
        Some(Keycodes::r)
    } else if name == "t"@ {
        Some(Keycodes::t)
    } else if name == "y"@ {
        Some(Keycodes::y)
    } else if name == "u"@ {
        Some(Keycodes::u)
    } else if name == "i"@ {
        Some(Keycodes::i)
    } else if name == "o"@ {
        Some(Keycodes::o)
    } else if name == "p"@ {
        Some(Keycodes::p)
    } else if name == "Q"@ {
        Some(Keycodes::q)
    } else if name == "W"@ {
        Some(Keycodes::w)
    } else if name == "E"@ {
        Some(Keycodes::e)
    } else if name == "R"@ {
        Some(Keycodes::r)
    } else if name == "T"@ {
        Some(Keycodes::t)
    } else if name == "Y"@ {
        Some(Keycodes::y)
    } else if name == "U"@ {
        Some(Keycodes::u)
    } else if name == "I"@ {
        Some(Keycodes::i)
    } else if name == "O"@ {
        Some(Keycodes::o)
    } else if name == "P"@ {
        Some(Keycodes::p)
    } else if name == "bracketleft"@ {
        Some(Keycodes::bracketleft)
    } else if name == "bracketright"@ {
        Some(Keycodes::bracketright)
    } else if name == "Return"@ {
        Some(Keycodes::Return)
    } else if name == "Control_L"@ {
        Some(Keycodes::Control_L)
    } else if name == "Control"@ {
        Some(Keycodes::Control_L)
    } else if name == "a"@ {
        Some(Keycodes::a)
    } else if name == "s"@ {
        Some(Keycodes::s)
    } else if name == "d"@ {
        Some(Keycodes::d)
    } else if name == "f"@ {
        Some(Keycodes::f)
    } else if name == "g"@ {
        Some(Keycodes::g)
    } else if name == "h"@ {
        Some(Keycodes::h)
    } else if name == "j"@ {
        Some(Keycodes::j)
    } else if name == "k"@ {
        Some(Keycodes::k)
    } else if name == "l"@ {
        Some(Keycodes::l)
    } else if name == "A"@ {
        Some(Keycodes::a)
    } else if name == "S"@ {
        Some(Keycodes::s)
    } else if name == "D"@ {
        Some(Keycodes::d)
    } else if name == "F"@ {
        Some(Keycodes::f)
    } else if name == "G"@ {
        Some(Keycodes::g)
    } else if name == "H"@ {
        Some(Keycodes::h)
    } else if name == "J"@ {
        Some(Keycodes::j)
    } else if name == "K"@ {
        Some(Keycodes::k)
    } else if name == "L"@ {
        Some(Keycodes::l)
    } else if name == "semicolon"@ {
        Some(Keycodes::semicolon)
    } else if name == "apostrophe"@ {
        Some(Keycodes::apostrophe)
    } else if name == "grave"@ {
        Some(Keycodes::grave)
    } else if name == "Shift_L"@ {
        Some(Keycodes::Shift_L)
    } else if name == "Shift"@ {
        Some(Keycodes::Shift_L)
    } else if name == "backslash"@ {
        Some(Keycodes::backslash)
    } else if name == "z"@ {
        Some(Keycodes::z)
    } else if name == "x"@ {
        Some(Keycodes::x)
    } else if name == "c"@ {
        Some(Keycodes::c)
    } else if name == "v"@ {
        Some(Keycodes::v)
    } else if name == "b"@ {
        Some(Keycodes::b)
    } else if name == "n"@ {
        Some(Keycodes::n)
    } else if name == "m"@ {
        Some(Keycodes::m)
    } else if name == "Z"@ {
        Some(Keycodes::z)
    } else if name == "X"@ {
        Some(Keycodes::x)
    } else if name == "C"@ {
        Some(Keycodes::c)
    } else if name == "V"@ {
        Some(Keycodes::v)
    } else if name == "B"@ {
        Some(Keycodes::b)
    } else if name == "N"@ {
        Some(Keycodes::n)
    } else if name == "M"@ {
        Some(Keycodes::m)
    } else if name == "comma"@ {
        Some(Keycodes::comma)
    } else if name == "period"@ {
        Some(Keycodes::period)
    } else if name == "slash"@ {
        Some(Keycodes::slash)
    } else if name == "Shift_R"@ {
        Some(Keycodes::Shift_R)
    } else if name == "KP_Multiply"@ {
        Some(Keycodes::KP_Multiply)
    } else if name == "Alt_L"@ {
        Some(Keycodes::Alt_L)
    } else if name == "space"@ {
        Some(Keycodes::space)
    } else if name == "Caps_Lock"@ {
        Some(Keycodes::Caps_Lock)
    } else if name == "F1"@ {
        Some(Keycodes::F1)
    } else if name == "F2"@ {
        Some(Keycodes::F2)
    } else if name == "F3"@ {
        Some(Keycodes::F3)
    } else if name == "F4"@ {
        Some(Keycodes::F4)
    } else if name == "F5"@ {
        Some(Keycodes::F5)
    } else if name == "F6"@ {
        Some(Keycodes::F6)
    } else if name == "F7"@ {
        Some(Keycodes::F7)
    } else if name == "F8"@ {
        Some(Keycodes::F8)
    } else if name == "F9"@ {
        Some(Keycodes::F9)
    } else if name == "F10"@ {
        Some(Keycodes::F10)
    } else if name == "Num_Lock"@ {
        Some(Keycodes::Num_Lock)
    } else if name == "Scroll_Lock"@ {
        Some(Keycodes::Scroll_Lock)
    } else if name == "KP_Home"@ {
        Some(Keycodes::KP_Home)
    } else if name == "KP_Up"@ {
        Some(Keycodes::KP_Up)
    } else if name == "KP_Prior"@ {
        Some(Keycodes::KP_Prior)
    } else if name == "KP_Subtract"@ {
        Some(Keycodes::KP_Subtract)
    } else if name == "KP_Left"@ {
        Some(Keycodes::KP_Left)
    } else if name == "KP_Begin"@ {
        Some(Keycodes::KP_Begin)
    } else if name == "KP_Right"@ {
        Some(Keycodes::KP_Right)
    } else if name == "KP_Add"@ {
        Some(Keycodes::KP_Add)
    } else if name == "KP_End"@ {
        Some(Keycodes::KP_End)
    } else if name == "KP_Down"@ {
        Some(Keycodes::KP_Down)
    } else if name == "KP_Next"@ {
        Some(Keycodes::KP_Next)
    } else if name == "KP_Insert"@ {
        Some(Keycodes::KP_Insert)
    } else if name == "KP_Delete"@ {
        Some(Keycodes::KP_Delete)
    } else if name == "ISO_Level3_Shift"@ {
        Some(Keycodes::ISO_Level3_Shift)
    } else if name == "less"@ {
        Some(Keycodes::less)
    } else if name == "F11"@ {
        Some(Keycodes::F11)
    } else if name == "F12"@ {
        Some(Keycodes::F12)
    } else if name == "Katakana"@ {
        Some(Keycodes::Katakana)
    } else if name == "Hiragana"@ {
        Some(Keycodes::Hiragana)
    } else if name == "Henkan_Mode"@ {
        Some(Keycodes::Henkan_Mode)
    } else if name == "Hiragana_Katakana"@ {
        Some(Keycodes::Hiragana_Katakana)
    } else if name == "Muhenkan"@ {
        Some(Keycodes::Muhenkan)
    } else if name == "KP_Enter"@ {
        Some(Keycodes::KP_Enter)
    } else if name == "Control_R"@ {
        Some(Keycodes::Control_R)
    } else if name == "KP_Divide"@ {
        Some(Keycodes::KP_Divide)
    } else if name == "Print"@ {
        Some(Keycodes::Print)
    } else if name == "Alt_R"@ {
        Some(Keycodes::Alt_R)
    } else if name == "Linefeed"@ {
        Some(Keycodes::Linefeed)
    } else if name == "Home"@ {
        Some(Keycodes::Home)
    } else if name == "Up"@ {
        Some(Keycodes::Up)
    } else if name == "Prior"@ {
        Some(Keycodes::Prior)
    } else if name == "Left"@ {
        Some(Keycodes::Left)
    } else if name == "Right"@ {
        Some(Keycodes::Right)
    } else if name == "End"@ {
        Some(Keycodes::End)
    } else if name == "Down"@ {
        Some(Keycodes::Down)
    } else if name == "Next"@ {
        Some(Keycodes::Next)
    } else if name == "Insert"@ {
        Some(Keycodes::Insert)
    } else if name == "Delete"@ {
        Some(Keycodes::Delete)
    } else if name == "XF86AudioMute"@ {
        Some(Keycodes::XF86AudioMute)
    } else if name == "XF86AudioLowerVolume"@ {
        Some(Keycodes::XF86AudioLowerVolume)
    } else if name == "XF86AudioRaiseVolume"@ {
        Some(Keycodes::XF86AudioRaiseVolume)
    } else if name == "XF86PowerOff"@ {
        Some(Keycodes::XF86PowerOff)
    } else if name == "KP_Equal"@ {
        Some(Keycodes::KP_Equal)
    } else if name == "plusminus"@ {
        Some(Keycodes::plusminus)
    } else if name == "Pause"@ {
        Some(Keycodes::Pause)
    } else if name == "XF86LaunchA"@ {
        Some(Keycodes::XF86LaunchA)
    } else if name == "KP_Decimal"@ {
        Some(Keycodes::KP_Decimal)
    } else if name == "Hangul"@ {
        Some(Keycodes::Hangul)
    } else if name == "Hangul_Hanja"@ {
        Some(Keycodes::Hangul_Hanja)
    } else if name == "Super_L"@ {
        Some(Keycodes::Super_L)
    } else if name == "Super_R"@ {
        Some(Keycodes::Super_R)
    } else if name == "Menu"@ {
        Some(Keycodes::Menu)
    } else if name == "Cancel"@ {
        Some(Keycodes::Cancel)
    } else if name == "Redo"@ {
        Some(Keycodes::Redo)
    } else if name == "SunProps"@ {
        Some(Keycodes::SunProps)
    } else if name == "Undo"@ {
        Some(Keycodes::Undo)
    } else if name == "SunFront"@ {
        Some(Keycodes::SunFront)
    } else if name == "XF86Copy"@ {
        Some(Keycodes::XF86Copy)
    } else if name == "XF86Open"@ {
        Some(Keycodes::XF86Open)
    } else if name == "XF86Paste"@ {
        Some(Keycodes::XF86Paste)
    } else if name == "Find"@ {
        Some(Keycodes::Find)
    } else if name == "XF86Cut"@ {
        Some(Keycodes::XF86Cut)
    } else if name == "Help"@ {
        Some(Keycodes::Help)
    } else if name == "XF86MenuKB"@ {
        Some(Keycodes::XF86MenuKB)
    } else if name == "XF86Calculator"@ {
        Some(Keycodes::XF86Calculator)
    } else if name == "XF86Sleep"@ {
        Some(Keycodes::XF86Sleep)
    } else if name == "XF86WakeUp"@ {
        Some(Keycodes::XF86WakeUp)
    } else if name == "XF86Explorer"@ {
        Some(Keycodes::XF86Explorer)
    } else if name == "XF86Send"@ {
        Some(Keycodes::XF86Send)
    } else if name == "XF86Xfer"@ {
        Some(Keycodes::XF86Xfer)
    } else if name == "XF86Launch1"@ {
        Some(Keycodes::XF86Launch1)
    } else if name == "XF86Launch2"@ {
        Some(Keycodes::XF86Launch2)
    } else if name == "XF86WWW"@ {
        Some(Keycodes::XF86WWW)
    } else if name == "XF86DOS"@ {
        Some(Keycodes::XF86DOS)
    } else if name == "XF86ScreenSaver"@ {
        Some(Keycodes::XF86ScreenSaver)
    } else if name == "XF86RotateWindows"@ {
        Some(Keycodes::XF86RotateWindows)
    } else if name == "XF86TaskPane"@ {
        Some(Keycodes::XF86TaskPane)
    } else if name == "XF86Mail"@ {
        Some(Keycodes::XF86Mail)
    } else if name == "XF86Favorites"@ {
        Some(Keycodes::XF86Favorites)
    } else if name == "XF86MyComputer"@ {
        Some(Keycodes::XF86MyComputer)
    } else if name == "XF86Back"@ {
        Some(Keycodes::XF86Back)
    } else if name == "XF86Forward"@ {
        Some(Keycodes::XF86Forward)
    } else if name == "XF86Eject"@ {
        Some(Keycodes::XF86Eject)
    } else if name == "XF86AudioNext"@ {
        Some(Keycodes::XF86AudioNext)
    } else if name == "XF86AudioPlay"@ {
        Some(Keycodes::XF86AudioPlay)
    } else if name == "XF86AudioPrev"@ {
        Some(Keycodes::XF86AudioPrev)
    } else if name == "XF86AudioStop"@ {
        Some(Keycodes::XF86AudioStop)
    } else if name == "XF86AudioRecord"@ {
        Some(Keycodes::XF86AudioRecord)
    } else if name == "XF86AudioRewind"@ {
        Some(Keycodes::XF86AudioRewind)
    } else if name == "XF86Phone"@ {
        Some(Keycodes::XF86Phone)
    } else if name == "XF86Tools"@ {
        Some(Keycodes::XF86Tools)
    } else if name == "XF86HomePage"@ {
        Some(Keycodes::XF86HomePage)
    } else if name == "XF86Reload"@ {
        Some(Keycodes::XF86Reload)
    } else if name == "XF86Close"@ {
        Some(Keycodes::XF86Close)
    } else if name == "XF86ScrollUp"@ {
        Some(Keycodes::XF86ScrollUp)
    } else if name == "XF86ScrollDown"@ {
        Some(Keycodes::XF86ScrollDown)
    } else if name == "parenleft"@ {
        Some(Keycodes::parenleft)
    } else if name == "parenright"@ {
        Some(Keycodes::parenright)
    } else if name == "XF86New"@ {
        Some(Keycodes::XF86New)
    } else if name == "XF86Launch5"@ {
        Some(Keycodes::XF86Launch5)
    } else if name == "XF86Launch6"@ {
        Some(Keycodes::XF86Launch6)
    } else if name == "XF86Launch7"@ {
        Some(Keycodes::XF86Launch7)
    } else if name == "XF86Launch8"@ {
        Some(Keycodes::XF86Launch8)
    } else if name == "XF86Launch9"@ {
        Some(Keycodes::XF86Launch9)
    } else if name == "XF86AudioMicMute"@ {
        Some(Keycodes::XF86AudioMicMute)
    } else if name == "XF86TouchpadToggle"@ {
        Some(Keycodes::XF86TouchpadToggle)
    } else if name == "XF86TouchpadOn"@ {
        Some(Keycodes::XF86TouchpadOn)
    } else if name == "XF86TouchpadOff"@ {
        Some(Keycodes::XF86TouchpadOff)
    } else if name == "ISO_Level5_Shift"@ {
        Some(Keycodes::ISO_Level5_Shift)
    } else if name == "NoSymbol"@ {
        Some(Keycodes::NoSymbol)
    } else if name == "XF86AudioPause"@ {
        Some(Keycodes::XF86AudioPause)
    } else if name == "XF86Launch3"@ {
        Some(Keycodes::XF86Launch3)
    } else if name == "XF86Launch4"@ {
        Some(Keycodes::XF86Launch4)
    } else if name == "XF86LaunchB"@ {
        Some(Keycodes::XF86LaunchB)
    } else if name == "XF86Suspend"@ {
        Some(Keycodes::XF86Suspend)
    } else if name == "XF86AudioForward"@ {
        Some(Keycodes::XF86AudioForward)
    } else if name == "XF86WebCam"@ {
        Some(Keycodes::XF86WebCam)
    } else if name == "XF86AudioPreset"@ {
        Some(Keycodes::XF86AudioPreset)
    } else if name == "XF86Messenger"@ {
        Some(Keycodes::XF86Messenger)
    } else if name == "XF86Search"@ {
        Some(Keycodes::XF86Search)
    } else if name == "XF86Go"@ {
        Some(Keycodes::XF86Go)
    } else if name == "XF86Finance"@ {
        Some(Keycodes::XF86Finance)
    } else if name == "XF86Game"@ {
        Some(Keycodes::XF86Game)
    } else if name == "XF86Shop"@ {
        Some(Keycodes::XF86Shop)
    } else if name == "XF86MonBrightnessDown"@ {
        Some(Keycodes::XF86MonBrightnessDown)
    } else if name == "XF86MonBrightnessUp"@ {
        Some(Keycodes::XF86MonBrightnessUp)
    } else if name == "XF86AudioMedia"@ {
        Some(Keycodes::XF86AudioMedia)
    } else if name == "XF86Display"@ {
        Some(Keycodes::XF86Display)
    } else if name == "XF86KbdLightOnOff"@ {
        Some(Keycodes::XF86KbdLightOnOff)
    } else if name == "XF86KbdBrightnessDown"@ {
        Some(Keycodes::XF86KbdBrightnessDown)
    } else if name == "XF86KbdBrightnessUp"@ {
        Some(Keycodes::XF86KbdBrightnessUp)
    } else if name == "XF86Reply"@ {
        Some(Keycodes::XF86Reply)
    } else if name == "XF86MailForward"@ {
        Some(Keycodes::XF86MailForward)
    } else if name == "XF86Save"@ {
        Some(Keycodes::XF86Save)
    } else if name == "XF86Documents"@ {
        Some(Keycodes::XF86Documents)
    } else if name == "XF86Battery"@ {
        Some(Keycodes::XF86Battery)
    } else if name == "XF86Bluetooth"@ {
        Some(Keycodes::XF86Bluetooth)
    } else if name == "XF86WLAN"@ {
        Some(Keycodes::XF86WLAN)
    } else if name == "XF86UWB"@ {
        Some(Keycodes::XF86UWB)
    } else if name == "XF86Next_VMode"@ {
        Some(Keycodes::XF86Next_VMode)
    } else if name == "XF86Prev_VMode"@ {
        Some(Keycodes::XF86Prev_VMode)
    } else if name == "XF86MonBrightnessCycle"@ {
        Some(Keycodes::XF86MonBrightnessCycle)
    } else if name == "XF86BrightnessAuto"@ {
        Some(Keycodes::XF86BrightnessAuto)
    } else if name == "XF86DisplayOff"@ {
        Some(Keycodes::XF86DisplayOff)
    } else if name == "XF86WWAN"@ {
        Some(Keycodes::XF86WWAN)
    } else if name == "XF86RFKill"@ {
        Some(Keycodes::XF86RFKill)
    } else {
        None
    }
}

/// The message for a name no key has.
pub open spec fn unknown_key_message(name: Seq<char>) -> Seq<char> {
    "No matching keycode for '"@ + name + "'_ "@
}

/// The modifier mask of a modifier key.
pub open spec fn key_mod_mask(key: Keycodes) -> Option<u32> {
    match key {
        Keycodes::Shift_L | Keycodes::Shift_R => Some(XCB_MOD_MASK_SHIFT),
        Keycodes::Caps_Lock => Some(XCB_MOD_MASK_LOCK),
        Keycodes::Control_L | Keycodes::Control_R => Some(XCB_MOD_MASK_CONTROL),
        Keycodes::Alt_L => Some(XCB_MOD_MASK_1),
        Keycodes::Alt_R => Some(XCB_MOD_MASK_5),
        Keycodes::Num_Lock => Some(XCB_MOD_MASK_2),
        Keycodes::Super_L | Keycodes::Super_R => Some(XCB_MOD_MASK_4),
        _ => None,
    }
}

impl Keycodes {
    /// The key code.
    pub fn code(self) -> (res: u8)
        ensures
            res == key_code(self),
    {
        match self {
            Keycodes::NoKey => 0,
            Keycodes::Escape => 9,
            Keycodes::_1 => 10,
            Keycodes::_2 => 11,
            Keycodes::_3 => 12,
            Keycodes::_4 => 13,
            Keycodes::_5 => 14,
            Keycodes::_6 => 15,
            Keycodes::_7 => 16,
            Keycodes::_8 => 17,
            Keycodes::_9 => 18,
            Keycodes::_0 => 19,
            Keycodes::minus => 20,
            Keycodes::equal => 21,
            Keycodes::BackSpace => 22,
            Keycodes::Tab => 23,
            Keycodes::q => 24,
            Keycodes::w => 25,
            Keycodes::e => 26,
            Keycodes::r => 27,
            Keycodes::t => 28,
            Keycodes::y => 29,
            Keycodes::u => 30,
            Keycodes::i => 31,
            Keycodes::o => 32,
            Keycodes::p => 33,
            Keycodes::bracketleft => 34,
            Keycodes::bracketright => 35,
            Keycodes::Return => 36,
            Keycodes::Control_L => 37,
            Keycodes::a => 38,
            Keycodes::s => 39,
            Keycodes::d => 40,
            Keycodes::f => 41,
            Keycodes::g => 42,
            Keycodes::h => 43,
            Keycodes::j => 44,
            Keycodes::k => 45,
            Keycodes::l => 46,
            Keycodes::semicolon => 47,
            Keycodes::apostrophe => 48,
            Keycodes::grave => 49,
            Keycodes::Shift_L => 50,
            Keycodes::backslash => 51,
            Keycodes::z => 52,
            Keycodes::x => 53,
            Keycodes::c => 54,
            Keycodes::v => 55,
            Keycodes::b => 56,
            Keycodes::n => 57,
            Keycodes::m => 58,
            Keycodes::comma => 59,
            Keycodes::period => 60,
            Keycodes::slash => 61,
            Keycodes::Shift_R => 62,
            Keycodes::KP_Multiply => 63,
            Keycodes::Alt_L => 64,
            Keycodes::space => 65,
            Keycodes::Caps_Lock => 66,
            Keycodes::F1 => 67,
            Keycodes::F2 => 68,
            Keycodes::F3 => 69,
            Keycodes::F4 => 70,
            Keycodes::F5 => 71,
            Keycodes::F6 => 72,
            Keycodes::F7 => 73,
            Keycodes::F8 => 74,
            Keycodes::F9 => 75,
            Keycodes::F10 => 76,
            Keycodes::Num_Lock => 77,
            Keycodes::Scroll_Lock => 78,
            Keycodes::KP_Home => 79,
            Keycodes::KP_Up => 80,
            Keycodes::KP_Prior => 81,
            Keycodes::KP_Subtract => 82,
            Keycodes::KP_Left => 83,
            Keycodes::KP_Begin => 84,
            Keycodes::KP_Right => 85,
            Keycodes::KP_Add => 86,
            Keycodes::KP_End => 87,
            Keycodes::KP_Down => 88,
            Keycodes::KP_Next => 89,
            Keycodes::KP_Insert => 90,
            Keycodes::KP_Delete => 91,
            Keycodes::ISO_Level3_Shift => 92,
            Keycodes::less => 94,
            Keycodes::F11 => 95,
            Keycodes::F12 => 96,
            Keycodes::Katakana => 98,
            Keycodes::Hiragana => 99,
            Keycodes::Henkan_Mode => 100,
            Keycodes::Hiragana_Katakana => 101,
            Keycodes::Muhenkan => 102,
            Keycodes::KP_Enter => 104,
            Keycodes::Control_R => 105,
            Keycodes::KP_Divide => 106,
            Keycodes::Print => 107,
            Keycodes::Alt_R => 108,
            Keycodes::Linefeed => 109,
            Keycodes::Home => 110,
            Keycodes::Up => 111,
            Keycodes::Prior => 112,
            Keycodes::Left => 113,
            Keycodes::Right => 114,
            Keycodes::End => 115,
            Keycodes::Down => 116,
            Keycodes::Next => 117,
            Keycodes::Insert => 118,
            Keycodes::Delete => 119,
            Keycodes::XF86AudioMute => 121,
            Keycodes::XF86AudioLowerVolume => 122,
            Keycodes::XF86AudioRaiseVolume => 123,
            Keycodes::XF86PowerOff => 124,
            Keycodes::KP_Equal => 125,
            Keycodes::plusminus => 126,
            Keycodes::Pause => 127,
            Keycodes::XF86LaunchA => 128,
            Keycodes::KP_Decimal => 129,
            Keycodes::Hangul => 130,
            Keycodes::Hangul_Hanja => 131,
            Keycodes::Super_L => 133,
            Keycodes::Super_R => 134,
            Keycodes::Menu => 135,
            Keycodes::Cancel => 136,
            Keycodes::Redo => 137,
            Keycodes::SunProps => 138,
            Keycodes::Undo => 139,
            Keycodes::SunFront => 140,
            Keycodes::XF86Copy => 141,
            Keycodes::XF86Open => 142,
            Keycodes::XF86Paste => 143,
            Keycodes::Find => 144,
            Keycodes::XF86Cut => 145,
            Keycodes::Help => 146,
            Keycodes::XF86MenuKB => 147,
            Keycodes::XF86Calculator => 148,
            Keycodes::XF86Sleep => 150,
            Keycodes::XF86WakeUp => 151,
            Keycodes::XF86Explorer => 152,
            Keycodes::XF86Send => 153,
            Keycodes::XF86Xfer => 155,
            Keycodes::XF86Launch1 => 156,
            Keycodes::XF86Launch2 => 157,
            Keycodes::XF86WWW => 158,
            Keycodes::XF86DOS => 159,
            Keycodes::XF86ScreenSaver => 160,
            Keycodes::XF86RotateWindows => 161,
            Keycodes::XF86TaskPane => 162,
            Keycodes::XF86Mail => 163,
            Keycodes::XF86Favorites => 164,
            Keycodes::XF86MyComputer => 165,
            Keycodes::XF86Back => 166,
            Keycodes::XF86Forward => 167,
            Keycodes::XF86Eject => 169,
            Keycodes::XF86AudioNext => 171,
            Keycodes::XF86AudioPlay => 172,
            Keycodes::XF86AudioPrev => 173,
            Keycodes::XF86AudioStop => 174,
            Keycodes::XF86AudioRecord => 175,
            Keycodes::XF86AudioRewind => 176,
            Keycodes::XF86Phone => 177,
            Keycodes::XF86Tools => 179,
            Keycodes::XF86HomePage => 180,
            Keycodes::XF86Reload => 181,
            Keycodes::XF86Close => 182,
            Keycodes::XF86ScrollUp => 185,
            Keycodes::XF86ScrollDown => 186,
            Keycodes::parenleft => 187,
            Keycodes::parenright => 188,
            Keycodes::XF86New => 189,
            Keycodes::XF86Launch5 => 192,
            Keycodes::XF86Launch6 => 193,
            Keycodes::XF86Launch7 => 194,
            Keycodes::XF86Launch8 => 195,
            Keycodes::XF86Launch9 => 196,
            Keycodes::XF86AudioMicMute => 198,
            Keycodes::XF86TouchpadToggle => 199,
            Keycodes::XF86TouchpadOn => 200,
            Keycodes::XF86TouchpadOff => 201,
            Keycodes::ISO_Level5_Shift => 203,
            Keycodes::NoSymbol => 204,
            Keycodes::XF86AudioPause => 209,
            Keycodes::XF86Launch3 => 210,
            Keycodes::XF86Launch4 => 211,
            Keycodes::XF86LaunchB => 212,
            Keycodes::XF86Suspend => 213,
            Keycodes::XF86AudioForward => 216,
            Keycodes::XF86WebCam => 220,
            Keycodes::XF86AudioPreset => 221,
            Keycodes::XF86Messenger => 224,
            Keycodes::XF86Search => 225,
            Keycodes::XF86Go => 226,
            Keycodes::XF86Finance => 227,
            Keycodes::XF86Game => 228,
            Keycodes::XF86Shop => 229,
            Keycodes::XF86MonBrightnessDown => 232,
            Keycodes::XF86MonBrightnessUp => 233,
            Keycodes::XF86AudioMedia => 234,
            Keycodes::XF86Display => 235,
            Keycodes::XF86KbdLightOnOff => 236,
            Keycodes::XF86KbdBrightnessDown => 237,
            Keycodes::XF86KbdBrightnessUp => 238,
            Keycodes::XF86Reply => 240,
            Keycodes::XF86MailForward => 241,
            Keycodes::XF86Save => 242,
            Keycodes::XF86Documents => 243,
            Keycodes::XF86Battery => 244,
            Keycodes::XF86Bluetooth => 245,
            Keycodes::XF86WLAN => 246,
            Keycodes::XF86UWB => 247,
            Keycodes::XF86Next_VMode => 249,
            Keycodes::XF86Prev_VMode => 250,
            Keycodes::XF86MonBrightnessCycle => 251,
            Keycodes::XF86BrightnessAuto => 252,
            Keycodes::XF86DisplayOff => 253,
            Keycodes::XF86WWAN => 254,
            Keycodes::XF86RFKill => 255,
        }
    }

    /// The key a binding names with `s`.
    pub fn from_name(s: &str) -> (res: Result<Keycodes, String>)
        ensures
            key_of_name(s@) matches Some(found) ==> res == Ok::<Keycodes, String>(found),
            key_of_name(s@) is None ==> (res matches Err(msg) && msg@ == unknown_key_message(s@)),
    {
        if str_eq(s, "Alt") {
            Ok(Keycodes::Alt_L)
        } else if str_eq(s, "Escape") {
            Ok(Keycodes::Escape)
        } else if str_eq(s, "1") {
            Ok(Keycodes::_1)
        } else if str_eq(s, "2") {
            Ok(Keycodes::_2)
        } else if str_eq(s, "3") {
            Ok(Keycodes::_3)
        } else if str_eq(s, "4") {
            Ok(Keycodes::_4)
        } else if str_eq(s, "5") {
            Ok(Keycodes::_5)
        } else if str_eq(s, "6") {
            Ok(Keycodes::_6)
        } else if str_eq(s, "7") {
            Ok(Keycodes::_7)
        } else if str_eq(s, "8") {
            Ok(Keycodes::_8)
        } else if str_eq(s, "9") {
            Ok(Keycodes::_9)
        } else if str_eq(s, "0") {
            Ok(Keycodes::_0)
        } else if str_eq(s, "minus") {
            Ok(Keycodes::minus)
        } else if str_eq(s, "equal") {
            Ok(Keycodes::equal)
        } else if str_eq(s, "BackSpace") {
            Ok(Keycodes::BackSpace)
        } else if str_eq(s, "Tab") {
            Ok(Keycodes::Tab)
        } else if str_eq(s, "q") {
            Ok(Keycodes::q)
        } else if str_eq(s, "w") {
            Ok(Keycodes::w)
        } else if str_eq(s, "e") {
            Ok(Keycodes::e)
        } else if str_eq(s, "r") {
            Ok(Keycodes::r)
        } else if str_eq(s, "t") {
            Ok(Keycodes::t)
        } else if str_eq(s, "y") {
            Ok(Keycodes::y)
        } else if str_eq(s, "u") {
            Ok(Keycodes::u)
        } else if str_eq(s, "i") {
            Ok(Keycodes::i)
        } else if str_eq(s, "o") {
            Ok(Keycodes::o)
        } else if str_eq(s, "p") {
            Ok(Keycodes::p)
        } else if str_eq(s, "Q") {
            Ok(Keycodes::q)
        } else if str_eq(s, "W") {
            Ok(Keycodes::w)
        } else if str_eq(s, "E") {
            Ok(Keycodes::e)
        } else if str_eq(s, "R") {
            Ok(Keycodes::r)
        } else if str_eq(s, "T") {
            Ok(Keycodes::t)
        } else if str_eq(s, "Y") {
            Ok(Keycodes::y)
        } else if str_eq(s, "U") {
            Ok(Keycodes::u)
        } else if str_eq(s, "I") {
            Ok(Keycodes::i)
        } else if str_eq(s, "O") {
            Ok(Keycodes::o)
        } else if str_eq(s, "P") {
            Ok(Keycodes::p)
        } else if str_eq(s, "bracketleft") {
            Ok(Keycodes::bracketleft)
        } else if str_eq(s, "bracketright") {
            Ok(Keycodes::bracketright)
        } else if str_eq(s, "Return") {
            Ok(Keycodes::Return)
        } else if str_eq(s, "Control_L") {
            Ok(Keycodes::Control_L)
        } else if str_eq(s, "Control") {
            Ok(Keycodes::Control_L)
        } else if str_eq(s, "a") {
            Ok(Keycodes::a)
        } else if str_eq(s, "s") {
            Ok(Keycodes::s)
        } else if str_eq(s, "d") {
            Ok(Keycodes::d)
        } else if str_eq(s, "f") {
            Ok(Keycodes::f)
        } else if str_eq(s, "g") {
            Ok(Keycodes::g)
        } else if str_eq(s, "h") {
            Ok(Keycodes::h)
        } else if str_eq(s, "j") {
            Ok(Keycodes::j)
        } else if str_eq(s, "k") {
            Ok(Keycodes::k)
        } else if str_eq(s, "l") {
            Ok(Keycodes::l)
        } else if str_eq(s, "A") {
            Ok(Keycodes::a)
        } else if str_eq(s, "S") {
            Ok(Keycodes::s)
        } else if str_eq(s, "D") {
            Ok(Keycodes::d)
        } else if str_eq(s, "F") {
            Ok(Keycodes::f)
        } else if str_eq(s, "G") {
            Ok(Keycodes::g)
        } else if str_eq(s, "H") {
            Ok(Keycodes::h)
        } else if str_eq(s, "J") {
            Ok(Keycodes::j)
        } else if str_eq(s, "K") {
            Ok(Keycodes::k)
        } else if str_eq(s, "L") {
            Ok(Keycodes::l)
        } else if str_eq(s, "semicolon") {
            Ok(Keycodes::semicolon)
        } else if str_eq(s, "apostrophe") {
            Ok(Keycodes::apostrophe)
        } else if str_eq(s, "grave") {
            Ok(Keycodes::grave)
        } else if str_eq(s, "Shift_L") {
            Ok(Keycodes::Shift_L)
        } else if str_eq(s, "Shift") {
            Ok(Keycodes::Shift_L)
        } else if str_eq(s, "backslash") {
            Ok(Keycodes::backslash)
        } else if str_eq(s, "z") {
            Ok(Keycodes::z)
        } else if str_eq(s, "x") {
            Ok(Keycodes::x)
        } else if str_eq(s, "c") {
            Ok(Keycodes::c)
        } else if str_eq(s, "v") {
            Ok(Keycodes::v)
        } else if str_eq(s, "b") {
            Ok(Keycodes::b)
        } else if str_eq(s, "n") {
            Ok(Keycodes::n)
        } else if str_eq(s, "m") {
            Ok(Keycodes::m)
        } else if str_eq(s, "Z") {
            Ok(Keycodes::z)
        } else if str_eq(s, "X") {
            Ok(Keycodes::x)
        } else if str_eq(s, "C") {
            Ok(Keycodes::c)
        } else if str_eq(s, "V") {
            Ok(Keycodes::v)
        } else if str_eq(s, "B") {
            Ok(Keycodes::b)
        } else if str_eq(s, "N") {
            Ok(Keycodes::n)
        } else if str_eq(s, "M") {
            Ok(Keycodes::m)
        } else if str_eq(s, "comma") {
            Ok(Keycodes::comma)
        } else if str_eq(s, "period") {
            Ok(Keycodes::period)
        } else if str_eq(s, "slash") {
            Ok(Keycodes::slash)
        } else if str_eq(s, "Shift_R") {
            Ok(Keycodes::Shift_R)
        } else if str_eq(s, "KP_Multiply") {
            Ok(Keycodes::KP_Multiply)
        } else if str_eq(s, "Alt_L") {
            Ok(Keycodes::Alt_L)
        } else if str_eq(s, "space") {
            Ok(Keycodes::space)
        } else if str_eq(s, "Caps_Lock") {
            Ok(Keycodes::Caps_Lock)
        } else if str_eq(s, "F1") {
            Ok(Keycodes::F1)
        } else if str_eq(s, "F2") {
            Ok(Keycodes::F2)
        } else if str_eq(s, "F3") {
            Ok(Keycodes::F3)
        } else if str_eq(s, "F4") {
            Ok(Keycodes::F4)
        } else if str_eq(s, "F5") {
            Ok(Keycodes::F5)
        } else if str_eq(s, "F6") {
            Ok(Keycodes::F6)
        } else if str_eq(s, "F7") {
            Ok(Keycodes::F7)
        } else if str_eq(s, "F8") {
            Ok(Keycodes::F8)
        } else if str_eq(s, "F9") {
            Ok(Keycodes::F9)
        } else if str_eq(s, "F10") {
            Ok(Keycodes::F10)
        } else if str_eq(s, "Num_Lock") {
            Ok(Keycodes::Num_Lock)
        } else if str_eq(s, "Scroll_Lock") {
            Ok(Keycodes::Scroll_Lock)
        } else if str_eq(s, "KP_Home") {
            Ok(Keycodes::KP_Home)
        } else if str_eq(s, "KP_Up") {
            Ok(Keycodes::KP_Up)
        } else if str_eq(s, "KP_Prior") {
            Ok(Keycodes::KP_Prior)
        } else if str_eq(s, "KP_Subtract") {
            Ok(Keycodes::KP_Subtract)
        } else if str_eq(s, "KP_Left") {
            Ok(Keycodes::KP_Left)
        } else if str_eq(s, "KP_Begin") {
            Ok(Keycodes::KP_Begin)
        } else if str_eq(s, "KP_Right") {
            Ok(Keycodes::KP_Right)
        } else if str_eq(s, "KP_Add") {
            Ok(Keycodes::KP_Add)
        } else if str_eq(s, "KP_End") {
            Ok(Keycodes::KP_End)
        } else if str_eq(s, "KP_Down") {
            Ok(Keycodes::KP_Down)
        } else if str_eq(s, "KP_Next") {
            Ok(Keycodes::KP_Next)
        } else if str_eq(s, "KP_Insert") {
            Ok(Keycodes::KP_Insert)
        } else if str_eq(s, "KP_Delete") {
            Ok(Keycodes::KP_Delete)
        } else if str_eq(s, "ISO_Level3_Shift") {
            Ok(Keycodes::ISO_Level3_Shift)
        } else if str_eq(s, "less") {
            Ok(Keycodes::less)
        } else if str_eq(s, "F11") {
            Ok(Keycodes::F11)
        } else if str_eq(s, "F12") {
            Ok(Keycodes::F12)
        } else if str_eq(s, "Katakana") {
            Ok(Keycodes::Katakana)
        } else if str_eq(s, "Hiragana") {
            Ok(Keycodes::Hiragana)
        } else if str_eq(s, "Henkan_Mode") {
            Ok(Keycodes::Henkan_Mode)
        } else if str_eq(s, "Hiragana_Katakana") {
            Ok(Keycodes::Hiragana_Katakana)
        } else if str_eq(s, "Muhenkan") {
            Ok(Keycodes::Muhenkan)
        } else if str_eq(s, "KP_Enter") {
            Ok(Keycodes::KP_Enter)
        } else if str_eq(s, "Control_R") {
            Ok(Keycodes::Control_R)
        } else if str_eq(s, "KP_Divide") {
            Ok(Keycodes::KP_Divide)
        } else if str_eq(s, "Print") {
            Ok(Keycodes::Print)
        } else if str_eq(s, "Alt_R") {
            Ok(Keycodes::Alt_R)
        } else if str_eq(s, "Linefeed") {
            Ok(Keycodes::Linefeed)
        } else if str_eq(s, "Home") {
            Ok(Keycodes::Home)
        } else if str_eq(s, "Up") {
            Ok(Keycodes::Up)
        } else if str_eq(s, "Prior") {
            Ok(Keycodes::Prior)
        } else if str_eq(s, "Left") {
            Ok(Keycodes::Left)
        } else if str_eq(s, "Right") {
            Ok(Keycodes::Right)
        } else if str_eq(s, "End") {
            Ok(Keycodes::End)
        } else if str_eq(s, "Down") {
            Ok(Keycodes::Down)
        } else if str_eq(s, "Next") {
            Ok(Keycodes::Next)
        } else if str_eq(s, "Insert") {
            Ok(Keycodes::Insert)
        } else if str_eq(s, "Delete") {
            Ok(Keycodes::Delete)
        } else if str_eq(s, "XF86AudioMute") {
            Ok(Keycodes::XF86AudioMute)
        } else if str_eq(s, "XF86AudioLowerVolume") {
            Ok(Keycodes::XF86AudioLowerVolume)
        } else if str_eq(s, "XF86AudioRaiseVolume") {
            Ok(Keycodes::XF86AudioRaiseVolume)
        } else if str_eq(s, "XF86PowerOff") {
            Ok(Keycodes::XF86PowerOff)
        } else if str_eq(s, "KP_Equal") {
            Ok(Keycodes::KP_Equal)
        } else if str_eq(s, "plusminus") {
            Ok(Keycodes::plusminus)
        } else if str_eq(s, "Pause") {
            Ok(Keycodes::Pause)
        } else if str_eq(s, "XF86LaunchA") {
            Ok(Keycodes::XF86LaunchA)
        } else if str_eq(s, "KP_Decimal") {
            Ok(Keycodes::KP_Decimal)
        } else if str_eq(s, "Hangul") {
            Ok(Keycodes::Hangul)
        } else if str_eq(s, "Hangul_Hanja") {
            Ok(Keycodes::Hangul_Hanja)
        } else if str_eq(s, "Super_L") {
            Ok(Keycodes::Super_L)
        } else if str_eq(s, "Super_R") {
            Ok(Keycodes::Super_R)
        } else if str_eq(s, "Menu") {
            Ok(Keycodes::Menu)
        } else if str_eq(s, "Cancel") {
            Ok(Keycodes::Cancel)
        } else if str_eq(s, "Redo") {
            Ok(Keycodes::Redo)
        } else if str_eq(s, "SunProps") {
            Ok(Keycodes::SunProps)
        } else if str_eq(s, "Undo") {
            Ok(Keycodes::Undo)
        } else if str_eq(s, "SunFront") {
            Ok(Keycodes::SunFront)
        } else if str_eq(s, "XF86Copy") {
            Ok(Keycodes::XF86Copy)
        } else if str_eq(s, "XF86Open") {
            Ok(Keycodes::XF86Open)
        } else if str_eq(s, "XF86Paste") {
            Ok(Keycodes::XF86Paste)
        } else if str_eq(s, "Find") {
            Ok(Keycodes::Find)
        } else if str_eq(s, "XF86Cut") {
            Ok(Keycodes::XF86Cut)
        } else if str_eq(s, "Help") {
            Ok(Keycodes::Help)
        } else if str_eq(s, "XF86MenuKB") {
            Ok(Keycodes::XF86MenuKB)
        } else if str_eq(s, "XF86Calculator") {
            Ok(Keycodes::XF86Calculator)
        } else if str_eq(s, "XF86Sleep") {
            Ok(Keycodes::XF86Sleep)
        } else if str_eq(s, "XF86WakeUp") {
            Ok(Keycodes::XF86WakeUp)
        } else if str_eq(s, "XF86Explorer") {
            Ok(Keycodes::XF86Explorer)
        } else if str_eq(s, "XF86Send") {
            Ok(Keycodes::XF86Send)
        } else if str_eq(s, "XF86Xfer") {
            Ok(Keycodes::XF86Xfer)
        } else if str_eq(s, "XF86Launch1") {
            Ok(Keycodes::XF86Launch1)
        } else if str_eq(s, "XF86Launch2") {
            Ok(Keycodes::XF86Launch2)
        } else if str_eq(s, "XF86WWW") {
            Ok(Keycodes::XF86WWW)
        } else if str_eq(s, "XF86DOS") {
            Ok(Keycodes::XF86DOS)
        } else if str_eq(s, "XF86ScreenSaver") {
            Ok(Keycodes::XF86ScreenSaver)
        } else if str_eq(s, "XF86RotateWindows") {
            Ok(Keycodes::XF86RotateWindows)
        } else if str_eq(s, "XF86TaskPane") {
            Ok(Keycodes::XF86TaskPane)
        } else if str_eq(s, "XF86Mail") {
            Ok(Keycodes::XF86Mail)
        } else if str_eq(s, "XF86Favorites") {
            Ok(Keycodes::XF86Favorites)
        } else if str_eq(s, "XF86MyComputer") {
            Ok(Keycodes::XF86MyComputer)
        } else if str_eq(s, "XF86Back") {
            Ok(Keycodes::XF86Back)
        } else if str_eq(s, "XF86Forward") {
            Ok(Keycodes::XF86Forward)
        } else if str_eq(s, "XF86Eject") {
            Ok(Keycodes::XF86Eject)
        } else if str_eq(s, "XF86AudioNext") {
            Ok(Keycodes::XF86AudioNext)
        } else if str_eq(s, "XF86AudioPlay") {
            Ok(Keycodes::XF86AudioPlay)
        } else if str_eq(s, "XF86AudioPrev") {
            Ok(Keycodes::XF86AudioPrev)
        } else if str_eq(s, "XF86AudioStop") {
            Ok(Keycodes::XF86AudioStop)
        } else if str_eq(s, "XF86AudioRecord") {
            Ok(Keycodes::XF86AudioRecord)
        } else if str_eq(s, "XF86AudioRewind") {
            Ok(Keycodes::XF86AudioRewind)
        } else if str_eq(s, "XF86Phone") {
            Ok(Keycodes::XF86Phone)
        } else if str_eq(s, "XF86Tools") {
            Ok(Keycodes::XF86Tools)
        } else if str_eq(s, "XF86HomePage") {
            Ok(Keycodes::XF86HomePage)
        } else if str_eq(s, "XF86Reload") {
            Ok(Keycodes::XF86Reload)
        } else if str_eq(s, "XF86Close") {
            Ok(Keycodes::XF86Close)
        } else if str_eq(s, "XF86ScrollUp") {
            Ok(Keycodes::XF86ScrollUp)
        } else if str_eq(s, "XF86ScrollDown") {
            Ok(Keycodes::XF86ScrollDown)
        } else if str_eq(s, "parenleft") {
            Ok(Keycodes::parenleft)
        } else if str_eq(s, "parenright") {
            Ok(Keycodes::parenright)
        } else if str_eq(s, "XF86New") {
            Ok(Keycodes::XF86New)
        } else if str_eq(s, "XF86Launch5") {
            Ok(Keycodes::XF86Launch5)
        } else if str_eq(s, "XF86Launch6") {
            Ok(Keycodes::XF86Launch6)
        } else if str_eq(s, "XF86Launch7") {
            Ok(Keycodes::XF86Launch7)
        } else if str_eq(s, "XF86Launch8") {
            Ok(Keycodes::XF86Launch8)
        } else if str_eq(s, "XF86Launch9") {
            Ok(Keycodes::XF86Launch9)
        } else if str_eq(s, "XF86AudioMicMute") {
            Ok(Keycodes::XF86AudioMicMute)
        } else if str_eq(s, "XF86TouchpadToggle") {
            Ok(Keycodes::XF86TouchpadToggle)
        } else if str_eq(s, "XF86TouchpadOn") {
            Ok(Keycodes::XF86TouchpadOn)
        } else if str_eq(s, "XF86TouchpadOff") {
            Ok(Keycodes::XF86TouchpadOff)
        } else if str_eq(s, "ISO_Level5_Shift") {
            Ok(Keycodes::ISO_Level5_Shift)
        } else if str_eq(s, "NoSymbol") {
            Ok(Keycodes::NoSymbol)
        } else if str_eq(s, "XF86AudioPause") {
            Ok(Keycodes::XF86AudioPause)
        } else if str_eq(s, "XF86Launch3") {
            Ok(Keycodes::XF86Launch3)
        } else if str_eq(s, "XF86Launch4") {
            Ok(Keycodes::XF86Launch4)
        } else if str_eq(s, "XF86LaunchB") {
            Ok(Keycodes::XF86LaunchB)
        } else if str_eq(s, "XF86Suspend") {
            Ok(Keycodes::XF86Suspend)
        } else if str_eq(s, "XF86AudioForward") {
            Ok(Keycodes::XF86AudioForward)
        } else if str_eq(s, "XF86WebCam") {
            Ok(Keycodes::XF86WebCam)
        } else if str_eq(s, "XF86AudioPreset") {
            Ok(Keycodes::XF86AudioPreset)
        } else if str_eq(s, "XF86Messenger") {
            Ok(Keycodes::XF86Messenger)
        } else if str_eq(s, "XF86Search") {
            Ok(Keycodes::XF86Search)
        } else if str_eq(s, "XF86Go") {
            Ok(Keycodes::XF86Go)
        } else if str_eq(s, "XF86Finance") {
            Ok(Keycodes::XF86Finance)
        } else if str_eq(s, "XF86Game") {
            Ok(Keycodes::XF86Game)
        } else if str_eq(s, "XF86Shop") {
            Ok(Keycodes::XF86Shop)
        } else if str_eq(s, "XF86MonBrightnessDown") {
            Ok(Keycodes::XF86MonBrightnessDown)
        } else if str_eq(s, "XF86MonBrightnessUp") {
            Ok(Keycodes::XF86MonBrightnessUp)
        } else if str_eq(s, "XF86AudioMedia") {
            Ok(Keycodes::XF86AudioMedia)
        } else if str_eq(s, "XF86Display") {
            Ok(Keycodes::XF86Display)
        } else if str_eq(s, "XF86KbdLightOnOff") {
            Ok(Keycodes::XF86KbdLightOnOff)
        } else if str_eq(s, "XF86KbdBrightnessDown") {
            Ok(Keycodes::XF86KbdBrightnessDown)
        } else if str_eq(s, "XF86KbdBrightnessUp") {
            Ok(Keycodes::XF86KbdBrightnessUp)
        } else if str_eq(s, "XF86Reply") {
            Ok(Keycodes::XF86Reply)
        } else if str_eq(s, "XF86MailForward") {
            Ok(Keycodes::XF86MailForward)
        } else if str_eq(s, "XF86Save") {
            Ok(Keycodes::XF86Save)
        } else if str_eq(s, "XF86Documents") {
            Ok(Keycodes::XF86Documents)
        } else if str_eq(s, "XF86Battery") {
            Ok(Keycodes::XF86Battery)
        } else if str_eq(s, "XF86Bluetooth") {
            Ok(Keycodes::XF86Bluetooth)
        } else if str_eq(s, "XF86WLAN") {
            Ok(Keycodes::XF86WLAN)
        } else if str_eq(s, "XF86UWB") {
            Ok(Keycodes::XF86UWB)
        } else if str_eq(s, "XF86Next_VMode") {
            Ok(Keycodes::XF86Next_VMode)
        } else if str_eq(s, "XF86Prev_VMode") {
            Ok(Keycodes::XF86Prev_VMode)
        } else if str_eq(s, "XF86MonBrightnessCycle") {
            Ok(Keycodes::XF86MonBrightnessCycle)
        } else if str_eq(s, "XF86BrightnessAuto") {
            Ok(Keycodes::XF86BrightnessAuto)
        } else if str_eq(s, "XF86DisplayOff") {
            Ok(Keycodes::XF86DisplayOff)
        } else if str_eq(s, "XF86WWAN") {
            Ok(Keycodes::XF86WWAN)
        } else if str_eq(s, "XF86RFKill") {
            Ok(Keycodes::XF86RFKill)
        } else {
            let parts: [&str; 3] = ["No matching keycode for '", s, "'_ "];
            let msg = join_strs(&parts, "");
            proof {
                reveal_strlit("No matching keycode for '");
                reveal_strlit("'_ ");
                reveal_strlit("");
                let v = views(parts@);
                assert(v.drop_last().drop_last() =~= seq!["No matching keycode for '"@]);
                assert(v.drop_last().last() == s@);
                assert(v.last() == "'_ "@);
                assert(v.len() == 3);
                assert(join(v.drop_last().drop_last(), ""@) == "No matching keycode for '"@);
                assert(join(v.drop_last(), ""@) =~= "No matching keycode for '"@ + s@);
                assert(join(v, ""@) =~= "No matching keycode for '"@ + s@ + "'_ "@);
                assert(msg@ =~= unknown_key_message(s@));
            }
            Err(msg)
        }
    }
}

impl core::str::FromStr for Keycodes {
    type Err = String;

    fn from_str(s: &str) -> (res: Result<Self, Self::Err>)
        ensures
            key_of_name(s@) matches Some(found) ==> res == Ok::<Keycodes, String>(found),
            key_of_name(s@) is None ==> (res matches Err(msg) && msg@ == unknown_key_message(s@)),
    {
        Keycodes::from_name(s)
    }
}

impl From<Keycodes> for Option<u32> {
    fn from(key: Keycodes) -> (res: Option<u32>) {
        match key {
            Keycodes::Shift_L => Some(XCB_MOD_MASK_SHIFT),
            Keycodes::Shift_R => Some(XCB_MOD_MASK_SHIFT),
            Keycodes::Caps_Lock => Some(XCB_MOD_MASK_LOCK),
            Keycodes::Control_L => Some(XCB_MOD_MASK_CONTROL),
            Keycodes::Control_R => Some(XCB_MOD_MASK_CONTROL),
            Keycodes::Alt_L => Some(XCB_MOD_MASK_1),
            Keycodes::Alt_R => Some(XCB_MOD_MASK_5),
            Keycodes::Num_Lock => Some(XCB_MOD_MASK_2),
            Keycodes::Super_L => Some(XCB_MOD_MASK_4),
            Keycodes::Super_R => Some(XCB_MOD_MASK_4),
            _ => None,
        }
    }
}

impl FromSpecImpl<Keycodes> for Option<u32> {
    open spec fn obeys_from_spec() -> bool {
        true
    }

    open spec fn from_spec(key: Keycodes) -> Option<u32> {
        key_mod_mask(key)
    }
}

impl Default for Keycodes {
    fn default() -> (res: Self)
        ensures
            res == Keycodes::NoKey,
    {
        Keycodes::NoKey
    }
}

/// The modifier mask of a key-and-button state: its modifier bits (Shift,
/// Lock, Control and Mod1 to Mod5), without the pointer-button bits.
pub fn key_into_mod_mask(key_mask: u32) -> (res: u32)
    ensures
        res == key_mask & 0xff,
{
    let mut mod_mask: u32 = 0;
    let ghost m0 = mod_mask;
    if key_mask & XCB_MOD_MASK_SHIFT == XCB_MOD_MASK_SHIFT {
        mod_mask = mod_mask | XCB_MOD_MASK_SHIFT;
    }
    let ghost m1 = mod_mask;
    assert(m1 == if key_mask & 1u32 == 1u32 { m0 | 1u32 } else { m0 });
    if key_mask & XCB_MOD_MASK_LOCK == XCB_MOD_MASK_LOCK {
        mod_mask = mod_mask | XCB_MOD_MASK_LOCK;
    }
    let ghost m2 = mod_mask;
    assert(m2 == if key_mask & 2u32 == 2u32 { m1 | 2u32 } else { m1 });
    if key_mask & XCB_MOD_MASK_CONTROL == XCB_MOD_MASK_CONTROL {
        mod_mask = mod_mask | XCB_MOD_MASK_CONTROL;
    }
    let ghost m3 = mod_mask;
    assert(m3 == if key_mask & 4u32 == 4u32 { m2 | 4u32 } else { m2 });
    if key_mask & XCB_MOD_MASK_1 == XCB_MOD_MASK_1 {
        mod_mask = mod_mask | XCB_MOD_MASK_1;
    }
    let ghost m4 = mod_mask;
    assert(m4 == if key_mask & 8u32 == 8u32 { m3 | 8u32 } else { m3 });
    if key_mask & XCB_MOD_MASK_2 == XCB_MOD_MASK_2 {
        mod_mask = mod_mask | XCB_MOD_MASK_2;
    }
    let ghost m5 = mod_mask;
    assert(m5 == if key_mask & 16u32 == 16u32 { m4 | 16u32 } else { m4 });
    if key_mask & 32 == 32 {
        mod_mask = mod_mask | 32;
    }
    let ghost m6 = mod_mask;
    assert(m6 == if key_mask & 32u32 == 32u32 { m5 | 32u32 } else { m5 });
    if key_mask & XCB_MOD_MASK_4 == XCB_MOD_MASK_4 {
        mod_mask = mod_mask | XCB_MOD_MASK_4;
    }
    let ghost m7 = mod_mask;
    assert(m7 == if key_mask & 64u32 == 64u32 { m6 | 64u32 } else { m6 });
    if key_mask & XCB_MOD_MASK_5 == XCB_MOD_MASK_5 {
        mod_mask = mod_mask | XCB_MOD_MASK_5;
    }
    let ghost m8 = mod_mask;
    assert(m8 == if key_mask & 128u32 == 128u32 { m7 | 128u32 } else { m7 });
    assert(m8 == key_mask & 0xff) by (bit_vector)
        requires
            m0 == 0u32,
            m1 == if key_mask & 1u32 == 1u32 { m0 | 1u32 } else { m0 },
            m2 == if key_mask & 2u32 == 2u32 { m1 | 2u32 } else { m1 },
            m3 == if key_mask & 4u32 == 4u32 { m2 | 4u32 } else { m2 },
            m4 == if key_mask & 8u32 == 8u32 { m3 | 8u32 } else { m3 },
            m5 == if key_mask & 16u32 == 16u32 { m4 | 16u32 } else { m4 },
            m6 == if key_mask & 32u32 == 32u32 { m5 | 32u32 } else { m5 },
            m7 == if key_mask & 64u32 == 64u32 { m6 | 64u32 } else { m6 },
            m8 == if key_mask & 128u32 == 128u32 { m7 | 128u32 } else { m7 },
    ;
    mod_mask
}

} // verus!
