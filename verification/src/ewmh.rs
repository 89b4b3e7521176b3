//! What the window manager reads from the EWMH and ICCCM properties of a
//! window: its type, the space a docked window reserves, its desktop.
use vstd::prelude::*;
use vstd::slice::slice_subrange;
use crate::arith::{in_i32, signed, to_i32};
use crate::rect::{mk_rect, Rect};

verus! {

/// The kinds of windows a workspace keeps apart.
#[derive(Debug, PartialEq, Eq, Clone, Copy, Structural)]
pub enum WindowType {
    Normal,
    Floating,
    Docked,
}

/// The `_NET_WM_STRUT_PARTIAL` property of a window.
#[derive(Debug, Clone, Copy, PartialEq, Eq, Structural)]
pub struct StrutPartial {
    pub left: u32,
    pub right: u32,
    pub top: u32,
    pub bottom: u32,
    pub left_start_y: u32,
    pub left_end_y: u32,
    pub right_start_y: u32,
    pub right_end_y: u32,
    pub top_start_x: u32,
    pub top_end_x: u32,
    pub bottom_start_x: u32,
    pub bottom_end_x: u32,
}

impl StrutPartial {
    /// The property from the first twelve values of its reply.
    pub fn from_values(values: &[u32]) -> (res: StrutPartial)
        requires
            values@.len() >= 12,
        ensures
            res.left == values@[0] && res.right == values@[1] && res.top == values@[2]
                && res.bottom == values@[3],
            res.left_start_y == values@[4] && res.left_end_y == values@[5],
            res.right_start_y == values@[6] && res.right_end_y == values@[7],
            res.top_start_x == values@[8] && res.top_end_x == values@[9],
            res.bottom_start_x == values@[10] && res.bottom_end_x == values@[11],
    {
        StrutPartial {
            left: values[0],
            right: values[1],
            top: values[2],
            bottom: values[3],
            left_start_y: values[4],
            left_end_y: values[5],
            right_start_y: values[6],
            right_end_y: values[7],
            top_start_x: values[8],
            top_end_x: values[9],
            bottom_start_x: values[10],
            bottom_end_x: values[11],
        }
    }
}

/// The rectangle a docked window reserves on a monitor, from the side its
/// strut names first: left, right, top, else bottom.
pub open spec fn strut_rect(strut: StrutPartial, monitor: Rect) -> Rect {
    if strut.left > 0 {
        mk_rect(0, 0, strut.left as int, monitor.height as int)
    } else if strut.right > 0 {
        mk_rect(signed(monitor.width) - signed(strut.right), 0, strut.right as int, monitor.height as int)
    } else if strut.top > 0 {
        mk_rect(signed(strut.top_start_x), 0, strut.top_end_x - strut.top_start_x + 1, strut.bottom as int)
    } else {
        mk_rect(
            signed(strut.bottom_start_x),
            signed(monitor.height) - signed(strut.bottom),
            strut.bottom_end_x - strut.bottom_start_x + 1,
            strut.bottom as int,
        )
    }
}

pub open spec fn strut_rect_ok(strut: StrutPartial, monitor: Rect) -> bool {
    if strut.left > 0 {
        true
    } else if strut.right > 0 {
        in_i32(signed(monitor.width) - signed(strut.right))
    } else if strut.top > 0 {
        strut.top_start_x <= strut.top_end_x < u32::MAX
    } else {
        &&& in_i32(signed(monitor.height) - signed(strut.bottom))
        &&& strut.bottom_start_x <= strut.bottom_end_x < u32::MAX
    }
}

/// The area reserved for a strut lies against the side the strut names,
/// as thick as the strut asks: a left strut from the monitor's left edge, a
/// right strut up to its right edge, a top strut from its top edge, and a
/// bottom strut down to its bottom edge; left and right struts span the
/// monitor's height, top and bottom ones their start to end columns.
pub proof fn law_strut_against_its_side(strut: StrutPartial, monitor: Rect)
    requires
        strut_rect_ok(strut, monitor),
        monitor.width <= i32::MAX,
        monitor.height <= i32::MAX,
        strut.right <= i32::MAX,
        strut.bottom <= i32::MAX,
    ensures
        ({
            let r = strut_rect(strut, monitor);
            if strut.left > 0 {
                &&& r.x == 0 && r.y == 0
                &&& r.width == strut.left && r.height == monitor.height
            } else if strut.right > 0 {
                &&& r.x + r.width == monitor.width && r.y == 0
                &&& r.width == strut.right && r.height == monitor.height
            } else if strut.top > 0 {
                &&& r.y == 0 && r.x == signed(strut.top_start_x)
                &&& r.width == strut.top_end_x - strut.top_start_x + 1
                &&& r.height == strut.bottom
            } else {
                &&& r.y + r.height == monitor.height && r.x == signed(strut.bottom_start_x)
                &&& r.width == strut.bottom_end_x - strut.bottom_start_x + 1
                &&& r.height == strut.bottom
            }
        }),
{
}

/// The rectangle a docked window with this strut reserves on the monitor.
pub fn strut_rect_on(strut: &StrutPartial, monitor_rect: &Rect) -> (res: Rect)
    requires
        strut_rect_ok(*strut, *monitor_rect),
    ensures
        res == strut_rect(*strut, *monitor_rect),
{
    if strut.left > 0 {
        return Rect { x: 0, y: 0, width: strut.left, height: monitor_rect.height };
    }
    if strut.right > 0 {
        return Rect {
            x: to_i32(monitor_rect.width) - to_i32(strut.right),
            y: 0,
            width: strut.right,
            height: monitor_rect.height,
        };
    }
    if strut.top > 0 {
        return Rect {
            x: to_i32(strut.top_start_x),
            y: 0,
            width: strut.top_end_x - strut.top_start_x + 1,
            height: strut.bottom,
        };
    }
    Rect {
        x: to_i32(strut.bottom_start_x),
        y: to_i32(monitor_rect.height) - to_i32(strut.bottom),
        width: strut.bottom_end_x - strut.bottom_start_x + 1,
        height: strut.bottom,
    }
}

/// The ids of the atoms that name window types.
#[derive(Debug, Clone, Copy)]
pub struct WindowTypeAtoms {
    pub normal: u32,
    pub dock: u32,
    pub desktop: u32,
    pub notification: u32,
    pub dialog: u32,
    pub splash: u32,
    pub utility: u32,
    pub toolbar: u32,
    pub menu: u32,
}

/// The kind an atom of `_NET_WM_WINDOW_TYPE` asks for, if it is one the
/// window manager tells apart.
pub open spec fn type_of_atom(atoms: WindowTypeAtoms, atom: u32) -> Option<WindowType> {
    if atom == atoms.normal {
        Some(WindowType::Normal)
    } else if atom == atoms.dock {
        Some(WindowType::Docked)
    } else if atom == atoms.dialog || atom == atoms.utility || atom == atoms.toolbar || atom
        == atoms.splash || atom == atoms.menu {
        Some(WindowType::Floating)
    } else {
        None
    }
}

/// The kind of window that the first recognised type of its list asks for;
/// normal where the list names none.
pub open spec fn window_type_of(atoms: WindowTypeAtoms, types: Seq<u32>) -> WindowType
    decreases types.len(),
{
    if types.len() == 0 {
        WindowType::Normal
    } else {
        match type_of_atom(atoms, types[0]) {
            Some(t) => t,
            None => window_type_of(atoms, types.drop_first()),
        }
    }
}

/// The kind of a window from the atoms of its `_NET_WM_WINDOW_TYPE`.
pub fn window_type_from_atoms(atoms: &WindowTypeAtoms, types: &[u32]) -> (res: WindowType)
    ensures
        res == window_type_of(*atoms, types@),
{
    let mut i: usize = 0;
    assert(types@.skip(0) =~= types@);
    while i < types.len()
        invariant
            0 <= i <= types@.len(),
            window_type_of(*atoms, types@) == window_type_of(*atoms, types@.skip(i as int)),
        decreases types@.len() - i,
    {
        let atom = types[i];
        assert(types@.skip(i as int)[0] == atom);
        if atom == atoms.normal {
            return WindowType::Normal;
        }
        if atom == atoms.dock {
            return WindowType::Docked;
        }
        if atom == atoms.dialog || atom == atoms.utility || atom == atoms.toolbar || atom
            == atoms.splash || atom == atoms.menu {
            return WindowType::Floating;
        }
        assert(types@.skip(i as int).drop_first() =~= types@.skip(i + 1));
        i = i + 1;
    }
    WindowType::Normal
}

/// The kind a window asks for by the type in its `_NET_WM_WINDOW_TYPE`
/// reply, where only the first type is read.
pub open spec fn reply_window_type(atoms: WindowTypeAtoms, wm_type: u32) -> WindowType {
    if wm_type == atoms.dock {
        WindowType::Docked
    } else if wm_type == atoms.desktop || wm_type == atoms.notification || wm_type == atoms.dialog
        || wm_type == atoms.splash || wm_type == atoms.utility || wm_type == atoms.toolbar {
        WindowType::Floating
    } else {
        WindowType::Normal
    }
}

/// The EWMH atoms the window manager uses.
pub struct Ewmh {
    pub atoms: WindowTypeAtoms,
}

impl Ewmh {
    /// The kind of a window from the type of its `_NET_WM_WINDOW_TYPE` reply.
    pub fn get_window_type(&self, wm_type: u32) -> (res: WindowType)
        ensures
            res == reply_window_type(self.atoms, wm_type),
    {
        if wm_type == self.atoms.dock {
            WindowType::Docked
        } else if wm_type == self.atoms.desktop || wm_type == self.atoms.notification || wm_type
            == self.atoms.dialog || wm_type == self.atoms.splash || wm_type == self.atoms.utility
            || wm_type == self.atoms.toolbar {
            WindowType::Floating
        } else {
            WindowType::Normal
        }
    }
}

/// The little-endian value of up to four bytes, missing bytes read as zero.
pub open spec fn le_u32_padded(bytes: Seq<u8>) -> u32 {
    let b = |i: int| if i < bytes.len() { bytes[i] as int } else { 0 };
    (b(0) + b(1) * 0x100 + b(2) * 0x1_0000 + b(3) * 0x100_0000) as u32
}

/// The desktop index a `_NET_WM_DESKTOP` reply holds, read from its first four
/// bytes.
pub fn bytes_to_u32(bytes: &[u8]) -> (res: Option<u32>)
    ensures
        res == Some(le_u32_padded(bytes@)),
{
    let len = if bytes.len() < 4 {
        bytes.len()
    } else {
        4
    };
    let b0: u32 = if len > 0 { bytes[0] as u32 } else { 0 };
    let b1: u32 = if len > 1 { bytes[1] as u32 } else { 0 };
    let b2: u32 = if len > 2 { bytes[2] as u32 } else { 0 };
    let b3: u32 = if len > 3 { bytes[3] as u32 } else { 0 };
    Some(b0 + b1 * 0x100 + b2 * 0x1_0000 + b3 * 0x100_0000)
}

/// The position of the first zero byte of `data` at or after `start`, or the
/// length of `data` where there is none.
pub open spec fn zero_from(data: Seq<u8>, start: int) -> int
    decreases data.len() - start,
{
    if start < 0 || start >= data.len() {
        data.len() as int
    } else if data[start] == 0 {
        start
    } else {
        zero_from(data, start + 1)
    }
}

/// The class and instance names of a `WM_CLASS` value: the bytes before its
/// first zero byte, and those after it up to the next zero byte or the end;
/// none where the value holds no zero byte.
pub open spec fn class_instance_bytes(data: Seq<u8>) -> Option<(Seq<u8>, Seq<u8>)> {
    let i = zero_from(data, 0);
    if i == data.len() {
        None
    } else {
        Some((data.subrange(0, i), data.subrange(i + 1, zero_from(data, i + 1))))
    }
}

proof fn lemma_zero_from(data: Seq<u8>, start: int)
    requires
        0 <= start <= data.len(),
    ensures
        start <= zero_from(data, start) <= data.len(),
        zero_from(data, start) < data.len() ==> data[zero_from(data, start)] == 0,
        forall|k: int| start <= k < zero_from(data, start) ==> data[k] != 0,
    decreases data.len() - start,
{
    if start < data.len() && data[start] != 0 {
        lemma_zero_from(data, start + 1);
    }
}

/// The first zero byte of `data` at or after `start`, or the length of
/// `data`.
fn find_zero(data: &[u8], start: usize) -> (res: usize)
    requires
        start <= data@.len(),
    ensures
        res == zero_from(data@, start as int),
{
    let mut i = start;
    while i < data.len() && data[i] != 0
        invariant
            start <= i <= data@.len(),
            zero_from(data@, i as int) == zero_from(data@, start as int),
        decreases data@.len() - i,
    {
        i = i + 1;
    }
    i
}

/// The class and instance names in the bytes of a `WM_CLASS` value, as
/// `class_instance_bytes` says.
pub fn class_instance_parts(data: &[u8]) -> (res: Option<(&[u8], &[u8])>)
    ensures
        match class_instance_bytes(data@) {
            Some((class, instance)) => res matches Some((c, i)) && c@ == class && i@ == instance,
            None => res is None,
        },
{
    let i = find_zero(data, 0);
    if i == data.len() {
        return None;
    }
    proof {
        lemma_zero_from(data@, 0);
        lemma_zero_from(data@, i + 1);
    }
    let j = find_zero(data, i + 1);
    Some((slice_subrange(data, 0, i), slice_subrange(data, i + 1, j)))
}

/// The text that `String::from_utf8_lossy` makes of the bytes `b`.
pub uninterp spec fn utf8_lossy(b: Seq<u8>) -> Seq<char>;

/// Calls `String::from_utf8_lossy` and takes the text it returns. What that
/// text is (valid UTF-8 decoded, each invalid sequence replaced by U+FFFD) is
/// left to the name `utf8_lossy`; the contract claims only that the result is
/// that name applied to the bytes.
#[verifier::external_body]
fn from_utf8_lossy(b: &[u8]) -> (res: String)
    ensures
        res@ == utf8_lossy(b@),
{
    String::from_utf8_lossy(b).into_owned()
}

/// The class and instance names of a window, read from its `WM_CLASS` value
/// as text.
pub fn class_instance_names(data: &[u8]) -> (res: Option<(String, String)>)
    ensures
        match class_instance_bytes(data@) {
            Some((class, instance)) => res matches Some((c, i)) && c@ == utf8_lossy(class) && i@
                == utf8_lossy(instance),
            None => res is None,
        },
{
    match class_instance_parts(data) {
        Some((class, instance)) => Some((from_utf8_lossy(class), from_utf8_lossy(instance))),
        None => None,
    }
}

/// The workspace a window asks for in `_NET_WM_DESKTOP`, if it is one of the
/// ten the window manager has.
pub fn requested_workspace(index: u32) -> (res: Option<u32>)
    ensures
        res == (if index < 10 {
            Some(index)
        } else {
            None::<u32>
        }),
{
    if index < 10 {
        Some(index)
    } else {
        None
    }
}

/// Helper for ICCCM properties.
pub struct Icccm;

impl Icccm {
    pub fn new() -> (res: Self) {
        Self {}
    }
}

} // verus!
