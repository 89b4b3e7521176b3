//! A workspace: its tiled, floating and docked windows, which one has the
//! focus, and how each event changes them.
//!
//! The X server is not called from here. Each handler appends to `requests`
//! the requests the window manager sends, in order; the program around the
//! library sends them.
use vstd::prelude::*;
use crate::arith::{abs_i32, clamp, clamp_i32, half, in_i32, signed, to_i32, to_u32, unsigned};
use crate::config::Config;
use crate::ewmh::WindowType;
use crate::rect::{available_after, available_after_all, available_after_all_ok, available_after_ok, magnified, magnified_ok, mk_rect, Placement, Rect};
use crate::keycodes::XCB_MOD_MASK_1;
use crate::sorting::{is_stable_order, lemma_stable_order_covers, reorder};
use crate::window::{Bound, Window, WindowsCollection, x_keys, xcb_window_t, y_keys};

verus! {

/// `XCB_CW_BORDER_PIXEL`: the attribute that holds the border colour.
pub const XCB_CW_BORDER_PIXEL: u32 = 8;

/// `XCB_CW_EVENT_MASK`: the attribute that holds the events a window reports.
pub const XCB_CW_EVENT_MASK: u32 = 2048;

pub const XCB_EVENT_MASK_BUTTON_RELEASE: u32 = 8;

pub const XCB_EVENT_MASK_ENTER_WINDOW: u32 = 16;

pub const XCB_EVENT_MASK_LEAVE_WINDOW: u32 = 32;

pub const XCB_EVENT_MASK_POINTER_MOTION: u32 = 64;

pub const XCB_EVENT_MASK_BUTTON_MOTION: u32 = 8192;

pub const XCB_EVENT_MASK_FOCUS_CHANGE: u32 = 2097152;

/// `XCB_BUTTON_MASK_1`: the left button is held.
pub const XCB_BUTTON_MASK_1: u32 = 256;

/// A request to the X server.
#[derive(Debug, Clone, Copy, PartialEq, Eq, Structural)]
pub enum XRequest {
    /// Place a window and set its border width.
    Configure { window: xcb_window_t, rect: Rect, border: u32 },
    MapWindow(xcb_window_t),
    UnmapWindow(xcb_window_t),
    /// Set one attribute of a window.
    ChangeAttrs { window: xcb_window_t, mask: u32, value: u32 },
    SetInputFocus(xcb_window_t),
    Raise(xcb_window_t),
    /// Grab the pointer for the window, letting the events of `mask` through.
    GrabPointer { mask: u32, window: xcb_window_t },
    UngrabPointer,
    /// Ask the window to close, through `WM_DELETE_WINDOW` where it takes
    /// part in that protocol, else kill its client.
    DestroyGracefully(xcb_window_t),
    /// Destroy the window.
    Destroy(xcb_window_t),
    /// Grab the key with the modifiers on the root window.
    GrabKey { modifiers: u32, key: u8 },
    /// Release that grab.
    UngrabKey { modifiers: u32, key: u8 },
    Flush,
}

/// A floating window being dragged with the pointer.
#[derive(Debug, Clone, Copy, PartialEq, Eq, Structural)]
pub struct DraggedWindow {
    pub window: xcb_window_t,
    pub x: i32,
    pub y: i32,
}

#[derive(Debug)]
pub struct Workspace {
    pub id: u32,
    normal: WindowsCollection,
    floating: WindowsCollection,
    docked: WindowsCollection,
    focused_idx: usize,
    focused_type: WindowType,
    is_visible: bool,
    focused_via_keyboard: bool,
    motion_start_pos: (i32, i32),
    dragged_window: Option<DraggedWindow>,
}

/// A workspace as the contracts speak of it.
pub struct WorkspaceView {
    pub id: u32,
    pub normal: Seq<Window>,
    pub floating: Seq<Window>,
    pub docked: Seq<Window>,
    pub focused_idx: nat,
    pub focused_type: WindowType,
    pub is_visible: bool,
    pub focused_via_keyboard: bool,
    pub motion_start_pos: (i32, i32),
    pub dragged_window: Option<DraggedWindow>,
}

impl WorkspaceView {
    /// The windows of one kind.
    pub open spec fn of_type(self, t: WindowType) -> Seq<Window> {
        match t {
            WindowType::Normal => self.normal,
            WindowType::Floating => self.floating,
            WindowType::Docked => self.docked,
        }
    }
}

/// A workspace with no windows.
pub open spec fn fresh_workspace(id: u32, is_visible: bool) -> WorkspaceView {
    WorkspaceView {
        id,
        normal: seq![],
        floating: seq![],
        docked: seq![],
        focused_idx: 0,
        focused_type: WindowType::Normal,
        is_visible,
        focused_via_keyboard: false,
        motion_start_pos: (0, 0),
        dragged_window: None,
    }
}

/// `Configure` of each window, in order.
pub open spec fn configure_requests(ws: Seq<Window>, border: u32) -> Seq<XRequest>
    decreases ws.len(),
{
    if ws.len() == 0 {
        seq![]
    } else {
        configure_requests(ws.drop_last(), border).push(
            XRequest::Configure { window: ws.last().window, rect: ws.last().rect, border },
        )
    }
}

/// Each rectangle's far edges fit in `i32`.
pub open spec fn rects_fit(ws: Seq<Window>) -> bool {
    forall|i: int|
        0 <= i < ws.len() ==> in_i32(#[trigger] ws[i].rect.right()) && in_i32(ws[i].rect.bottom())
}

/// The windows, each visible exactly when it shares an area with `area`.
pub open spec fn with_visibility(ws: Seq<Window>, area: Rect) -> Seq<Window> {
    Seq::new(ws.len(), |i: int| Window { visible: ws[i].rect.spec_intersects(area), ..ws[i] })
}

/// The requests that map the windows that come into `area` and unmap those
/// that leave it.
pub open spec fn visibility_requests(ws: Seq<Window>, area: Rect) -> Seq<XRequest>
    decreases ws.len(),
{
    if ws.len() == 0 {
        seq![]
    } else {
        let w = ws.last();
        let shows = w.rect.spec_intersects(area);
        visibility_requests(ws.drop_last(), area) + if shows != w.visible {
            if shows {
                seq![XRequest::MapWindow(w.window)]
            } else {
                seq![XRequest::UnmapWindow(w.window)]
            }
        } else {
            seq![]
        }
    }
}

/// The requests that give `window` the focus.
pub open spec fn focus_requests(window: xcb_window_t, window_type: WindowType, visible: bool, active_color: u32) -> Seq<XRequest> {
    seq![XRequest::ChangeAttrs { window, mask: XCB_CW_BORDER_PIXEL, value: active_color }] + if visible {
        seq![XRequest::SetInputFocus(window)] + if window_type == WindowType::Floating {
            seq![XRequest::Raise(window)]
        } else {
            seq![]
        }
    } else {
        seq![]
    }
}

/// The request that ends a drag, if one is going on.
pub open spec fn ungrab_requests(dragged: Option<DraggedWindow>) -> Seq<XRequest> {
    if dragged is Some {
        seq![XRequest::UngrabPointer]
    } else {
        seq![]
    }
}

impl Workspace {
    pub closed spec fn view(&self) -> WorkspaceView {
        WorkspaceView {
            id: self.id,
            normal: self.normal.entries(),
            floating: self.floating.entries(),
            docked: self.docked.entries(),
            focused_idx: self.focused_idx as nat,
            focused_type: self.focused_type,
            is_visible: self.is_visible,
            focused_via_keyboard: self.focused_via_keyboard,
            motion_start_pos: self.motion_start_pos,
            dragged_window: self.dragged_window,
        }
    }

    /// Each collection keeps one entry per window.
    pub closed spec fn wf(&self) -> bool {
        &&& self.normal.wf()
        &&& self.floating.wf()
        &&& self.docked.wf()
    }

    pub fn new(id: u32, is_visible: bool) -> (res: Self)
        ensures
            res.wf(),
            res.view() == fresh_workspace(id, is_visible),
    {
        let res = Self {
            id,
            normal: WindowsCollection::new(5),
            floating: WindowsCollection::new(3),
            docked: WindowsCollection::new(0),
            focused_idx: 0,
            focused_type: WindowType::Normal,
            is_visible,
            focused_via_keyboard: false,
            motion_start_pos: (0, 0),
            dragged_window: None,
        };
        assert(res.view().normal =~= seq![]);
        assert(res.view().floating =~= seq![]);
        assert(res.view().docked =~= seq![]);
        res
    }

    /// The workspace's id.
    pub fn id(&self) -> (res: u32)
        ensures
            res == self.view().id,
    {
        self.id
    }

    /// Ends a drag, if one is going on.
    fn reset_dragged_window_state(&mut self, requests: &mut Vec<XRequest>)
        requires
            old(self).wf(),
        ensures
            final(self).wf(),
            final(self).view() == (WorkspaceView { dragged_window: None, ..old(self).view() }),
            final(requests)@ == old(requests)@ + ungrab_requests(old(self).view().dragged_window),
    {
        if self.dragged_window.is_some() {
            requests.push(XRequest::UngrabPointer);
            self.dragged_window = None;
        } else {
            assert(requests@ =~= old(requests)@ + seq![]);
        }
    }

    /// Gives the focus to `window`, the `index`-th of its kind.
    fn set_focused_by_index_window(
        &mut self,
        index: usize,
        window: xcb_window_t,
        window_type: WindowType,
        config: &Config,
        requests: &mut Vec<XRequest>,
    )
        requires
            old(self).wf(),
            config.border_color_active_int is Some,
        ensures
            final(self).wf(),
            final(self).view() == (WorkspaceView {
                focused_idx: index as nat,
                focused_type: window_type,
                ..old(self).view()
            }),
            final(requests)@ == old(requests)@ + focus_requests(
                window,
                window_type,
                old(self).view().is_visible,
                config.border_color_active_int->0,
            ),
    {
        let ghost start = requests@;
        self.focused_idx = index;
        self.focused_type = window_type;
        let color = match config.border_color_active_int {
            Some(c) => c,
            None => 0,
        };
        requests.push(XRequest::ChangeAttrs { window, mask: XCB_CW_BORDER_PIXEL, value: color });
        if self.is_visible {
            requests.push(XRequest::SetInputFocus(window));
            if window_type == WindowType::Floating {
                requests.push(XRequest::Raise(window));
            }
        }
        assert(requests@ =~= start + focus_requests(window, window_type, self.is_visible, color));
    }

    /// The collection of one kind.
    fn collection(&self, window_type: WindowType) -> (res: &WindowsCollection)
        requires
            self.wf(),
        ensures
            res.wf(),
            res.entries() == self.view().of_type(window_type),
    {
        match window_type {
            WindowType::Normal => &self.normal,
            WindowType::Floating => &self.floating,
            WindowType::Docked => &self.docked,
        }
    }

    /// Gives the focus to the `index`-th window of its kind, if there is one.
    fn set_focused_by_index(
        &mut self,
        index: usize,
        window_type: WindowType,
        config: &Config,
        requests: &mut Vec<XRequest>,
    )
        requires
            old(self).wf(),
            index < old(self).view().of_type(window_type).len() ==> config.border_color_active_int is Some,
        ensures
            final(self).wf(),
            index < old(self).view().of_type(window_type).len() ==> {
                &&& final(self).view() == (WorkspaceView {
                    focused_idx: index as nat,
                    focused_type: window_type,
                    ..old(self).view()
                })
                &&& final(requests)@ == old(requests)@ + focus_requests(
                    old(self).view().of_type(window_type)[index as int].window,
                    window_type,
                    old(self).view().is_visible,
                    config.border_color_active_int->0,
                )
            },
            index >= old(self).view().of_type(window_type).len() ==> final(self).view() == old(
                self,
            ).view() && final(requests)@ == old(requests)@,
    {
        if let Some(window) = self.collection(window_type).at_window(index) {
            self.set_focused_by_index_window(index, window, window_type, config, requests);
        }
    }

    /// Position of `window` among the windows of its kind.
    fn position_of(&self, window: xcb_window_t, window_type: WindowType) -> (index: usize)
        requires
            self.wf(),
            has_window(self.view().of_type(window_type), window),
        ensures
            index == first_index_of(self.view().of_type(window_type), window),
            index < self.view().of_type(window_type).len(),
    {
        let ghost ws = self.view().of_type(window_type);
        let c = self.collection(window_type);
        let found = c.index_of(window);
        proof {
            let j = choose|j: int| 0 <= j < ws.len() && #[trigger] ws[j].window == window;
            assert(ws[j].window == c.windows_seq()[j]);
            assert(c.windows_seq().contains(window));
        }
        let index = match found {
            Some(i) => i,
            None => 0,
        };
        proof {
            assert forall|k: int| 0 <= k < index implies ws[k].window != window by {
                assert(ws[k].window == c.windows_seq()[k]);
            }
            lemma_first_index_of(ws, window, index as int);
        }
        index
    }

    /// Gives the focus to `window`, which must be among the windows of its kind.
    fn set_focused(
        &mut self,
        window: xcb_window_t,
        window_type: WindowType,
        config: &Config,
        requests: &mut Vec<XRequest>,
    )
        requires
            old(self).wf(),
            config.border_color_active_int is Some,
            has_window(old(self).view().of_type(window_type), window),
        ensures
            final(self).wf(),
            final(self).view() == (WorkspaceView {
                focused_idx: first_index_of(old(self).view().of_type(window_type), window) as nat,
                focused_type: window_type,
                ..old(self).view()
            }),
            final(requests)@ == old(requests)@ + focus_requests(
                window,
                window_type,
                old(self).view().is_visible,
                config.border_color_active_int->0,
            ),
    {
        let index = self.position_of(window, window_type);
        self.set_focused_by_index_window(index, window, window_type, config, requests);
    }
}

/// One of the windows has the id `window`.
pub open spec fn has_window(ws: Seq<Window>, window: xcb_window_t) -> bool {
    exists|j: int| 0 <= j < ws.len() && #[trigger] ws[j].window == window
}

/// Position of the first window with the id `window`.
pub open spec fn first_index_of(ws: Seq<Window>, window: xcb_window_t) -> int {
    choose|i: int| 0 <= i < ws.len() && #[trigger] ws[i].window == window && forall|j: int| 0 <= j < i ==> ws[j].window != window
}

proof fn lemma_first_index_of(ws: Seq<Window>, window: xcb_window_t, i: int)
    requires
        0 <= i < ws.len(),
        ws[i].window == window,
        forall|j: int| 0 <= j < i ==> ws[j].window != window,
    ensures
        first_index_of(ws, window) == i,
{
    let c = first_index_of(ws, window);
    assert(0 <= c < ws.len() && ws[c].window == window && forall|j: int| 0 <= j < c ==> ws[j].window != window);
    if c < i {
        assert(ws[c].window != window);
    } else if c > i {
        assert(ws[i].window != window);
    }
}

spec fn old_visibles(ws: Seq<Window>, k: int) -> bool {
    ws[k].visible
}

/// Appends `Configure` for each window of the collection.
pub fn configure_all(windows: &WindowsCollection, border: u32, requests: &mut Vec<XRequest>)
    requires
        windows.wf(),
    ensures
        final(requests)@ == old(requests)@ + configure_requests(windows.entries(), border),
{
    let ghost start = requests@;
    let ghost ws = windows.entries();
    let mut i: usize = 0;
    while i < windows.len()
        invariant
            windows.wf(),
            ws == windows.entries(),
            0 <= i <= ws.len(),
            requests@ == start + configure_requests(ws.take(i as int), border),
        decreases ws.len() - i,
    {
        let (window, rect) = windows.index(i);
        requests.push(XRequest::Configure { window, rect: *rect, border });
        assert(ws.take(i + 1).drop_last() =~= ws.take(i as int));
        i = i + 1;
    }
    assert(ws.take(i as int) =~= ws);
}

/// Maps the windows of the collection that come into `area` and unmaps those
/// that leave it, keeping their flags up to date.
pub fn fix_visibility(windows: &mut WindowsCollection, area: &Rect, requests: &mut Vec<XRequest>)
    requires
        old(windows).wf(),
        rects_fit(old(windows).entries()),
        in_i32(area.right()),
        in_i32(area.bottom()),
    ensures
        final(windows).wf(),
        final(windows).entries() == with_visibility(old(windows).entries(), *area),
        final(requests)@ == old(requests)@ + visibility_requests(old(windows).entries(), *area),
{
    let ghost start = requests@;
    let ghost ws = windows.entries();
    let mut i: usize = 0;
    while i < windows.len()
        invariant
            windows.wf(),
            ws.len() == windows.spec_len(),
            rects_fit(ws),
            in_i32(area.right()),
            in_i32(area.bottom()),
            0 <= i <= ws.len(),
            windows.entries().len() == ws.len(),
            forall|k: int| 0 <= k < i ==> #[trigger] windows.entries()[k] == with_visibility(ws, *area)[k],
            forall|k: int| i <= k < ws.len() ==> #[trigger] windows.entries()[k] == ws[k],
            requests@ == start + visibility_requests(ws.take(i as int), *area),
        decreases ws.len() - i,
    {
        let ghost before = windows.entries();
        assert(before[i as int] == ws[i as int]);
        let (window, rect) = windows.index(i);
        let rect = *rect;
        let visible = match windows.at_visible(i) {
            Some(v) => v,
            None => false,
        };
        assert(before[i as int] == Window { window, rect, visible });
        assert(in_i32(ws[i as int].rect.right()) && in_i32(ws[i as int].rect.bottom()));
        let intersects = rect.intersects_with(area);
        if intersects != visible {
            windows.set_visible_at(i, intersects);
            assert forall|k: int| 0 <= k < windows.spec_len() && k != i implies #[trigger] windows.entries()[k] == before[k] by {
                assert(windows.visibles_seq()[k] == old_visibles(before, k));
            }
            if intersects {
                requests.push(XRequest::MapWindow(window));
            } else {
                requests.push(XRequest::UnmapWindow(window));
            }
        }
        assert(windows.entries()[i as int] == with_visibility(ws, *area)[i as int]);
        assert(ws.take(i + 1).drop_last() =~= ws.take(i as int));
        assert(ws.take(i + 1).last() == ws[i as int]);
        i = i + 1;
    }
    assert(ws.take(i as int) =~= ws);
    assert(windows.entries() =~= with_visibility(ws, *area));
}

/// The windows with the rectangles at positions `lo..hi` moved right by `dx`.
pub open spec fn moved_x(ws: Seq<Window>, lo: int, hi: int, dx: int) -> Seq<Window> {
    Seq::new(
        ws.len(),
        |i: int|
            if lo <= i < hi {
                Window { rect: Rect { x: (ws[i].rect.x + dx) as i32, ..ws[i].rect }, ..ws[i] }
            } else {
                ws[i]
            },
    )
}

/// Each move of `moved_x` stays within `i32`.
pub open spec fn moves_fit_x(ws: Seq<Window>, lo: int, hi: int, dx: int) -> bool {
    forall|i: int| lo <= i < hi && 0 <= i < ws.len() ==> in_i32(#[trigger] ws[i].rect.x + dx)
}

/// The windows with every rectangle moved down by `dy`.
pub open spec fn moved_y(ws: Seq<Window>, dy: int) -> Seq<Window> {
    Seq::new(
        ws.len(),
        |i: int| Window { rect: Rect { y: (ws[i].rect.y + dy) as i32, ..ws[i].rect }, ..ws[i] },
    )
}

/// Each move of `moved_y` stays within `i32`.
pub open spec fn moves_fit_y(ws: Seq<Window>, dy: int) -> bool {
    forall|i: int| 0 <= i < ws.len() ==> in_i32(#[trigger] ws[i].rect.y + dy)
}

/// The rectangles of the windows.
pub open spec fn rects_of(ws: Seq<Window>) -> Seq<Rect> {
    Seq::new(ws.len(), |i: int| ws[i].rect)
}

/// The part of the monitor inside the outer gaps.
pub open spec fn gapped_area(monitor: Rect, gap_h: u32, gap_v: u32) -> Rect {
    mk_rect(
        monitor.x + signed(gap_h),
        monitor.y + signed(gap_v),
        monitor.width - 2 * gap_h,
        monitor.height - 2 * gap_v,
    )
}

pub open spec fn gapped_area_ok(monitor: Rect, gap_h: u32, gap_v: u32) -> bool {
    &&& in_i32(monitor.x + signed(gap_h))
    &&& in_i32(monitor.y + signed(gap_v))
    &&& 2 * gap_h <= monitor.width
    &&& 2 * gap_v <= monitor.height
}

/// The area left to tiled windows: the monitor inside its outer gaps, less
/// the space each docked window takes, in order.
pub open spec fn work_area(docked: Seq<Window>, monitor: Rect, gap_h: u32, gap_v: u32) -> Rect {
    available_after_all(gapped_area(monitor, gap_h, gap_v), rects_of(docked))
}

pub open spec fn work_area_ok(docked: Seq<Window>, monitor: Rect, gap_h: u32, gap_v: u32) -> bool {
    gapped_area_ok(monitor, gap_h, gap_v) && available_after_all_ok(
        gapped_area(monitor, gap_h, gap_v),
        rects_of(docked),
    )
}

/// The requests of `f` for each window, in order.
pub open spec fn per_window(ws: Seq<Window>, f: spec_fn(Window) -> Seq<XRequest>) -> Seq<XRequest>
    decreases ws.len(),
{
    if ws.len() == 0 {
        seq![]
    } else {
        per_window(ws.drop_last(), f) + f(ws.last())
    }
}

/// `Configure` of the window, then, if it is shown, `map` or `unmap` of it.
pub open spec fn configure_then(border: u32, map: bool) -> spec_fn(Window) -> Seq<XRequest> {
    |w: Window|
        seq![XRequest::Configure { window: w.window, rect: w.rect, border }] + if w.visible {
            if map {
                seq![XRequest::MapWindow(w.window)]
            } else {
                seq![XRequest::UnmapWindow(w.window)]
            }
        } else {
            seq![]
        }
}

/// `Configure` of the window, then `MapWindow` (`map`) or `UnmapWindow` of it.
pub open spec fn configure_toggle(border: u32, map: bool) -> spec_fn(Window) -> Seq<XRequest> {
    |w: Window|
        seq![
            XRequest::Configure { window: w.window, rect: w.rect, border },
            if map {
                XRequest::MapWindow(w.window)
            } else {
                XRequest::UnmapWindow(w.window)
            },
        ]
}

/// The events a tiled window reports.
pub open spec fn normal_event_mask() -> u32 {
    XCB_EVENT_MASK_FOCUS_CHANGE | XCB_EVENT_MASK_ENTER_WINDOW | XCB_EVENT_MASK_LEAVE_WINDOW
}

/// The events a floating window reports.
pub open spec fn floating_event_mask() -> u32 {
    XCB_EVENT_MASK_FOCUS_CHANGE | XCB_EVENT_MASK_ENTER_WINDOW | XCB_EVENT_MASK_LEAVE_WINDOW
        | XCB_EVENT_MASK_BUTTON_MOTION
}

/// The rectangles at positions `lo..hi` move right by `dx`.
pub fn shift_x(windows: &mut WindowsCollection, lo: usize, hi: usize, dx: i32)
    requires
        old(windows).wf(),
        lo <= hi <= old(windows).spec_len(),
        moves_fit_x(old(windows).entries(), lo as int, hi as int, dx as int),
    ensures
        final(windows).wf(),
        final(windows).entries() == moved_x(old(windows).entries(), lo as int, hi as int, dx as int),
{
    let ghost ws = windows.entries();
    let mut i: usize = lo;
    while i < hi
        invariant
            windows.wf(),
            lo <= i <= hi <= ws.len(),
            windows.spec_len() == ws.len(),
            moves_fit_x(ws, lo as int, hi as int, dx as int),
            forall|k: int| 0 <= k < ws.len() ==> #[trigger] windows.entries()[k] == if lo <= k < i {
                moved_x(ws, lo as int, hi as int, dx as int)[k]
            } else {
                ws[k]
            },
        decreases hi - i,
    {
        let ghost before = windows.entries();
        assert(before[i as int] == ws[i as int]);
        assert(in_i32(ws[i as int].rect.x + dx));
        let r = windows.index_rect_mut(i);
        r.x = r.x + dx;
        assert forall|k: int| 0 <= k < ws.len() implies #[trigger] windows.entries()[k] == if lo <= k < i + 1 {
            moved_x(ws, lo as int, hi as int, dx as int)[k]
        } else {
            ws[k]
        } by {
            if k != i {
                assert(windows.entries()[k] == before[k]);
            }
        }
        i = i + 1;
    }
    assert(windows.entries() =~= moved_x(ws, lo as int, hi as int, dx as int));
}

/// Moves every rectangle down by `dy`, configures each window and, for each
/// shown one, maps it (`map`) or unmaps it.
pub fn shift_y_configure(
    windows: &mut WindowsCollection,
    dy: i32,
    border: u32,
    map: bool,
    requests: &mut Vec<XRequest>,
)
    requires
        old(windows).wf(),
        moves_fit_y(old(windows).entries(), dy as int),
    ensures
        final(windows).wf(),
        final(windows).entries() == moved_y(old(windows).entries(), dy as int),
        final(requests)@ == old(requests)@ + per_window(
            moved_y(old(windows).entries(), dy as int),
            configure_then(border, map),
        ),
{
    let ghost ws = windows.entries();
    let ghost target = moved_y(ws, dy as int);
    let ghost start = requests@;
    let mut i: usize = 0;
    while i < windows.len()
        invariant
            windows.wf(),
            0 <= i <= ws.len(),
            windows.spec_len() == ws.len(),
            target == moved_y(ws, dy as int),
            moves_fit_y(ws, dy as int),
            forall|k: int| 0 <= k < ws.len() ==> #[trigger] windows.entries()[k] == if k < i {
                target[k]
            } else {
                ws[k]
            },
            requests@ == start + per_window(target.take(i as int), configure_then(border, map)),
        decreases ws.len() - i,
    {
        let ghost before = windows.entries();
        assert(before[i as int] == ws[i as int]);
        assert(in_i32(ws[i as int].rect.y + dy));
        let window = windows.index_window(i);
        let visible = match windows.at_visible(i) {
            Some(v) => v,
            None => false,
        };
        let r = windows.index_rect_mut(i);
        r.y = r.y + dy;
        let rect = *r;
        assert forall|k: int| 0 <= k < ws.len() implies #[trigger] windows.entries()[k] == if k < i + 1 {
            target[k]
        } else {
            ws[k]
        } by {
            if k != i {
                assert(windows.entries()[k] == before[k]);
            }
        }
        requests.push(XRequest::Configure { window, rect, border });
        if visible {
            if map {
                requests.push(XRequest::MapWindow(window));
            } else {
                requests.push(XRequest::UnmapWindow(window));
            }
        }
        assert(target.take(i + 1).drop_last() =~= target.take(i as int));
        assert(target.take(i + 1).last() == target[i as int]);
        assert(requests@ =~= start + per_window(target.take(i + 1), configure_then(border, map)));
        i = i + 1;
    }
    assert(windows.entries() =~= target);
    assert(target.take(i as int) =~= target);
}

/// Configures each window of the collection and maps (`map`) or unmaps it.
pub fn configure_toggle_all(windows: &WindowsCollection, border: u32, map: bool, requests: &mut Vec<XRequest>)
    requires
        windows.wf(),
    ensures
        final(requests)@ == old(requests)@ + per_window(windows.entries(), configure_toggle(border, map)),
{
    let ghost start = requests@;
    let ghost ws = windows.entries();
    let mut i: usize = 0;
    while i < windows.len()
        invariant
            windows.wf(),
            ws == windows.entries(),
            0 <= i <= ws.len(),
            requests@ == start + per_window(ws.take(i as int), configure_toggle(border, map)),
        decreases ws.len() - i,
    {
        let (window, rect) = windows.index(i);
        requests.push(XRequest::Configure { window, rect: *rect, border });
        if map {
            requests.push(XRequest::MapWindow(window));
        } else {
            requests.push(XRequest::UnmapWindow(window));
        }
        assert(ws.take(i + 1).drop_last() =~= ws.take(i as int));
        assert(ws.take(i + 1).last() == ws[i as int]);
        assert(requests@ =~= start + per_window(ws.take(i + 1), configure_toggle(border, map)));
        i = i + 1;
    }
    assert(ws.take(i as int) =~= ws);
}

/// How far a hidden workspace's windows move: a monitor's height down or up.
pub open spec fn hide_shift(height: u32, below: bool) -> int {
    if below {
        signed(height)
    } else {
        -signed(height)
    }
}

/// The modifier bits of `state` include all of `mask`.
pub open spec fn has_mask(state: u32, mask: u32) -> bool {
    state & mask == mask
}

/// The rectangles move down by `dy`.
pub fn shift_y(windows: &mut WindowsCollection, dy: i32)
    requires
        old(windows).wf(),
        moves_fit_y(old(windows).entries(), dy as int),
    ensures
        final(windows).wf(),
        final(windows).entries() == moved_y(old(windows).entries(), dy as int),
{
    let ghost ws = windows.entries();
    let mut i: usize = 0;
    while i < windows.len()
        invariant
            windows.wf(),
            0 <= i <= ws.len(),
            windows.spec_len() == ws.len(),
            moves_fit_y(ws, dy as int),
            forall|k: int| 0 <= k < ws.len() ==> #[trigger] windows.entries()[k] == if k < i {
                moved_y(ws, dy as int)[k]
            } else {
                ws[k]
            },
        decreases ws.len() - i,
    {
        let ghost before = windows.entries();
        assert(before[i as int] == ws[i as int]);
        assert(in_i32(ws[i as int].rect.y + dy));
        let r = windows.index_rect_mut(i);
        r.y = r.y + dy;
        assert forall|k: int| 0 <= k < ws.len() implies #[trigger] windows.entries()[k] == if k < i + 1 {
            moved_y(ws, dy as int)[k]
        } else {
            ws[k]
        } by {
            if k != i {
                assert(windows.entries()[k] == before[k]);
            }
        }
        i = i + 1;
    }
    assert(windows.entries() =~= moved_y(ws, dy as int));
}

impl Workspace {
    /// The area left to tiled windows on `monitor_rect`: inside the outer gaps,
    /// less what the docked windows take.
    pub fn available_rectangle(&self, monitor_rect: &Rect, config: &Config) -> (res: Rect)
        requires
            self.wf(),
            work_area_ok(self.view().docked, *monitor_rect, config.outer_gap_horiz, config.outer_gap_vert),
        ensures
            res == work_area(self.view().docked, *monitor_rect, config.outer_gap_horiz, config.outer_gap_vert),
    {
        let avail_rect = Rect {
            x: monitor_rect.x + to_i32(config.outer_gap_horiz),
            y: monitor_rect.y + to_i32(config.outer_gap_vert),
            width: monitor_rect.width - config.outer_gap_horiz * 2,
            height: monitor_rect.height - config.outer_gap_vert * 2,
        };
        let rects = self.docked.rects();
        proof {
            assert(rects@ =~= rects_of(self.view().docked));
            assert(avail_rect == gapped_area(*monitor_rect, config.outer_gap_horiz, config.outer_gap_vert));
        }
        avail_rect.available_rect_after_adding_rects(rects.as_slice())
    }

    /// A docked window arrives: it takes the side of the monitor its strut
    /// names, and is shown.
    pub fn handle_new_docked_window(
        &mut self,
        window: xcb_window_t,
        partial_strut: &Rect,
        monitor_rect: &Rect,
        requests: &mut Vec<XRequest>,
    )
        requires
            old(self).wf(),
            new_docked_pre(old(self).view(), window, *partial_strut, *monitor_rect),
        ensures
            final(self).wf(),
            new_docked_post(old(self).view(), final(self).view(), old(requests)@, final(requests)@, window, *partial_strut, *monitor_rect),
    {
        let magnified_rect = monitor_rect.new_rect_magnified(partial_strut);
        requests.push(XRequest::Configure { window, rect: magnified_rect, border: 0 });
        requests.push(XRequest::MapWindow(window));
        let ghost mid = requests@;
        self.docked.add(window, magnified_rect, true);
        assert(self.docked.entries() =~= old(self).view().docked.push(
            Window { window, rect: magnified_rect, visible: true },
        ));
        self.reset_dragged_window_state(requests);
        assert(requests@ =~= old(requests)@ + seq![
            XRequest::Configure { window, rect: magnified_rect, border: 0 },
            XRequest::MapWindow(window),
        ] + ungrab_requests(old(self).view().dragged_window));
    }

    /// A window got the focus: its border takes the active colour.
    pub fn handle_focus_in(&self, window: xcb_window_t, config: &Config, requests: &mut Vec<XRequest>)
        requires
            config.border_color_active_int is Some,
        ensures
            final(requests)@ == old(requests)@.push(
                XRequest::ChangeAttrs {
                    window,
                    mask: XCB_CW_BORDER_PIXEL,
                    value: config.border_color_active_int->0,
                },
            ),
    {
        let color = match config.border_color_active_int {
            Some(c) => c,
            None => 0,
        };
        requests.push(XRequest::ChangeAttrs { window, mask: XCB_CW_BORDER_PIXEL, value: color });
    }

    /// The workspace is switched away from: its windows move a monitor's
    /// height down (`hide_below`) or up, and are unmapped.
    #[verifier::spinoff_prover]
    pub fn hide_all_windows(
        &mut self,
        monitor_rect: &Rect,
        config: &Config,
        hide_below: bool,
        requests: &mut Vec<XRequest>,
    )
        requires
            old(self).wf(),
            hide_all_pre(old(self).view(), *monitor_rect, *config, hide_below),
        ensures
            final(self).wf(),
            hide_all_post(old(self).view(), final(self).view(), old(requests)@, final(requests)@, *monitor_rect, *config, hide_below),
    {
        if !self.is_visible {
            return;
        }
        let ghost v = self.view();
        self.is_visible = false;
        let height = to_i32(monitor_rect.height);
        let move_y = if hide_below {
            height
        } else {
            -height
        };
        shift_y_configure(&mut self.normal, move_y, config.border_size, false, requests);
        shift_y_configure(&mut self.floating, move_y, config.border_size, false, requests);
        shift_y(&mut self.docked, move_y);
        configure_toggle_all(&self.docked, config.border_size, false, requests);
        self.reset_dragged_window_state(requests);
    }

    /// The pointer button was released: a drag ends.
    pub fn handle_button_release(&mut self, requests: &mut Vec<XRequest>)
        requires
            old(self).wf(),
        ensures
            final(self).wf(),
            final(self).view() == (WorkspaceView { dragged_window: None, ..old(self).view() }),
            final(requests)@ == old(requests)@ + ungrab_requests(old(self).view().dragged_window).push(
                XRequest::Flush,
            ),
    {
        self.reset_dragged_window_state(requests);
        requests.push(XRequest::Flush);
    }

    /// The pointer moved: unless Alt and the left button are both held, a
    /// drag ends.
    pub fn handle_motion_notify(
        &mut self,
        x: i32,
        y: i32,
        window: xcb_window_t,
        state: u32,
        requests: &mut Vec<XRequest>,
    )
        requires
            old(self).wf(),
        ensures
            final(self).wf(),
            motion_notify_post(old(self).view(), final(self).view(), old(requests)@, final(requests)@, state),
    {
        let is_alt_pressed = (state & XCB_MOD_MASK_1) == XCB_MOD_MASK_1;
        let is_left_button_pressed = (state & XCB_BUTTON_MASK_1) == XCB_BUTTON_MASK_1;
        if !is_alt_pressed || !is_left_button_pressed {
            self.reset_dragged_window_state(requests);
            requests.push(XRequest::Flush);
        }
    }

    /// A pointer button was pressed on `window`. With Alt held on a tiled
    /// window this is where a drag would start; the tiled and floating kinds
    /// are told apart the other way round here, so that press has no effect
    /// on a floating window and is not a valid input on a tiled one.
    pub fn handle_button_press(
        &mut self,
        x: i32,
        y: i32,
        window: xcb_window_t,
        state: u16,
        config: &Config,
        requests: &mut Vec<XRequest>,
    ) -> (grab: Option<xcb_window_t>)
        requires
            old(self).wf(),
            !(has_mask(state as u32, XCB_MOD_MASK_1) && !has_window(old(self).view().floating, window)
                && has_window(old(self).view().normal, window)),
        ensures
            final(self).wf(),
            final(self).view() == old(self).view(),
            final(requests)@ == old(requests)@,
            grab is None,
    {
        let is_alt_pressed = (state as u32 & XCB_MOD_MASK_1) == XCB_MOD_MASK_1;
        if is_alt_pressed {
            let in_floating = self.floating.index_of(window).is_some();
            let in_normal = self.normal.index_of(window).is_some();
            proof {
                if !in_floating && in_normal {
                    let i = choose|i: int| 0 <= i < self.normal.windows_seq().len() && self.normal.windows_seq()[i] == window;
                    assert(self.view().normal[i].window == window);
                    if has_window(self.view().floating, window) {
                        let j = choose|j: int| 0 <= j < self.view().floating.len() && #[trigger] self.view().floating[j].window == window;
                        assert(self.floating.windows_seq()[j] == window);
                    }
                }
            }
            let window_type = if in_floating {
                Some(WindowType::Normal)
            } else if in_normal {
                Some(WindowType::Floating)
            } else {
                None
            };
            if window_type == Some(WindowType::Floating) {
                let focused_here = match self.floating.at_window(self.focused_idx) {
                    Some(w) => w == window,
                    None => false,
                };
                if self.focused_type != WindowType::Floating || !focused_here {
                    self.set_focused(window, WindowType::Floating, config, requests);
                }
                return Some(window);
            }
        }
        None
    }
}

/// The tiled windows moved right by `dx` (left, if negative), then each shown
/// exactly when it meets `area`.
pub open spec fn scrolled(ws: Seq<Window>, dx: int, area: Rect) -> Seq<Window> {
    with_visibility(moved_x(ws, 0, ws.len() as int, dx), area)
}

/// The requests of `scrolled`: each window configured, then mapped or
/// unmapped where its visibility changes.
pub open spec fn scroll_requests(ws: Seq<Window>, dx: int, area: Rect, border: u32) -> Seq<XRequest> {
    let moved = moved_x(ws, 0, ws.len() as int, dx);
    configure_requests(moved, border) + visibility_requests(moved, area)
}

/// `scrolled` computes without overflow.
pub open spec fn scroll_ok(ws: Seq<Window>, dx: int, area: Rect) -> bool {
    &&& moves_fit_x(ws, 0, ws.len() as int, dx)
    &&& rects_fit(moved_x(ws, 0, ws.len() as int, dx))
    &&& in_i32(area.right())
    &&& in_i32(area.bottom())
}

/// The `i`-th window is `window`.
pub open spec fn window_at(ws: Seq<Window>, i: int, window: xcb_window_t) -> bool {
    0 <= i < ws.len() && ws[i].window == window
}

impl WorkspaceView {
    /// The state once `window`, one of the windows of kind `t`, has the focus.
    pub open spec fn focused_on(self, t: WindowType, window: xcb_window_t) -> WorkspaceView {
        WorkspaceView { focused_idx: first_index_of(self.of_type(t), window) as nat, focused_type: t, ..self }
    }

    /// How far the tiled windows move right so that the `i`-th starts inside
    /// `avail`.
    pub open spec fn reveal_left_shift(self, i: int, avail: Rect) -> int {
        shift_to_show_start(self.normal[i].rect, avail)
    }

    /// How far the tiled windows move left so that the `i`-th ends inside
    /// `avail`.
    pub open spec fn reveal_right_shift(self, i: int, avail: Rect) -> int {
        shift_to_show_end(self.normal[i].rect, avail)
    }
}

/// How far `r` moves right to start inside `avail`.
pub open spec fn shift_to_show_start(r: Rect, avail: Rect) -> int {
    if r.x < avail.x {
        avail.x - r.x
    } else {
        0
    }
}

/// How far `r` moves left to end inside `avail`.
pub open spec fn shift_to_show_end(r: Rect, avail: Rect) -> int {
    if r.right() > avail.right() {
        r.right() - avail.right()
    } else {
        0
    }
}

impl Workspace {
    /// Moves the tiled windows right by `dx`, configures them and fixes which
    /// of them are shown on `area`.
    fn scroll_normal(&mut self, dx: i32, area: &Rect, border: u32, requests: &mut Vec<XRequest>)
        requires
            old(self).wf(),
            scroll_ok(old(self).view().normal, dx as int, *area),
        ensures
            final(self).wf(),
            final(self).view() == (WorkspaceView {
                normal: scrolled(old(self).view().normal, dx as int, *area),
                ..old(self).view()
            }),
            final(requests)@ == old(requests)@ + scroll_requests(old(self).view().normal, dx as int, *area, border),
    {
        let len = self.normal.len();
        shift_x(&mut self.normal, 0, len, dx);
        configure_all(&self.normal, border, requests);
        fix_visibility(&mut self.normal, area, requests);
        assert(requests@ =~= old(requests)@ + scroll_requests(old(self).view().normal, dx as int, *area, border));
    }

    /// The pointer entered `window`. After a focus change by keyboard the
    /// first such event on the focused window is only taken note of;
    /// otherwise the window entered gets the focus.
    #[verifier::spinoff_prover]
    pub fn handle_enter_notify(&mut self, window: xcb_window_t, config: &Config, requests: &mut Vec<XRequest>)
        requires
            old(self).wf(),
            enter_notify_pre(old(self).view(), window, *config),
        ensures
            final(self).wf(),
            enter_notify_post(old(self).view(), final(self).view(), old(requests)@, final(requests)@, window, *config),
    {
        let ghost v = self.view();
        if self.focused_via_keyboard {
            let current = self.collection(self.focused_type).at_window(self.focused_idx);
            if let Some(currently_focused) = current {
                if currently_focused == window {
                    self.focused_via_keyboard = false;
                }
            }
            return;
        }
        if self.focus_entered(window, WindowType::Floating, config, requests) {
            return;
        }
        if self.focus_entered(window, WindowType::Normal, config, requests) {
            return;
        }
        self.focus_entered(window, WindowType::Docked, config, requests);
    }

    /// If `window` is one of the windows of kind `t`, it gets the focus
    /// unless the focused position of this kind already holds it.
    #[verifier::spinoff_prover]
    fn focus_entered(
        &mut self,
        window: xcb_window_t,
        t: WindowType,
        config: &Config,
        requests: &mut Vec<XRequest>,
    ) -> (found: bool)
        requires
            old(self).wf(),
            has_window(old(self).view().of_type(t), window) && !window_at(
                old(self).view().of_type(t),
                old(self).view().focused_idx as int,
                window,
            ) ==> config.border_color_active_int is Some,
        ensures
            final(self).wf(),
            found == has_window(old(self).view().of_type(t), window),
            ({
                let v = old(self).view();
                if found && !window_at(v.of_type(t), v.focused_idx as int, window) {
                    &&& final(self).view() == v.focused_on(t, window)
                    &&& final(requests)@ == old(requests)@ + focus_requests(
                        window,
                        t,
                        v.is_visible,
                        config.border_color_active_int->0,
                    )
                } else {
                    final(self).view() == v && final(requests)@ == old(requests)@
                }
            }),
    {
        let ghost v = self.view();
        let c = self.collection(t);
        if c.index_of(window).is_some() {
            proof {
                let i = choose|i: int| 0 <= i < c.windows_seq().len() && c.windows_seq()[i] == window;
                assert(v.of_type(t)[i].window == window);
            }
            let here = match c.at_window(self.focused_idx) {
                Some(w) => w == window,
                None => false,
            };
            if !here {
                self.set_focused(window, t, config, requests);
            }
            true
        } else {
            proof {
                if has_window(v.of_type(t), window) {
                    let j = choose|j: int| 0 <= j < v.of_type(t).len() && #[trigger] v.of_type(t)[j].window == window;
                    assert(c.windows_seq()[j] == window);
                }
            }
            false
        }
    }
}

impl Workspace {
    /// Focus moves to the tiled window left of the focused one, scrolling the
    /// tiled windows right if that window starts left of the available area.
    #[verifier::spinoff_prover]
    pub fn handle_change_focus_window_left(
        &mut self,
        config: &Config,
        monitor_rect: &Rect,
        requests: &mut Vec<XRequest>,
    )
        requires
            old(self).wf(),
            focus_left_pre(old(self).view(), *config, *monitor_rect),
        ensures
            final(self).wf(),
            focus_left_post(old(self).view(), final(self).view(), old(requests)@, final(requests)@, *config, *monitor_rect),
    {
        let ghost v = self.view();
        if self.focused_type == WindowType::Normal && self.focused_idx < self.normal.len() {
            if self.focused_idx > 0 {
                let new_focused_idx = self.focused_idx - 1;
                let avail_rect = self.available_rectangle(monitor_rect, config);
                let focused_x = self.normal.index_rect(new_focused_idx).x;
                let move_right_x = if focused_x < avail_rect.x {
                    avail_rect.x - focused_x
                } else {
                    0
                };
                let ghost r0 = requests@;
                if move_right_x > 0 {
                    self.scroll_normal(move_right_x, monitor_rect, config.border_size, requests);
                }
                let ghost r1 = requests@;
                assert(self.view().normal[new_focused_idx as int].window == v.normal[new_focused_idx as int].window);
                self.set_focused_by_index(new_focused_idx, WindowType::Normal, config, requests);
                let ghost r2 = requests@;
                self.focused_via_keyboard = true;
                self.reset_dragged_window_state(requests);
                assert(r0 == old(requests)@);
                assert(requests@ =~= old(requests)@ + (r1.subrange(r0.len() as int, r1.len() as int)) + r2.subrange(r1.len() as int, r2.len() as int) + ungrab_requests(v.dragged_window));
            }
        }
    }

    /// Focus moves to the tiled window right of the focused one, scrolling the
    /// tiled windows left if that window ends right of the available area.
    #[verifier::spinoff_prover]
    pub fn handle_change_focus_window_right(
        &mut self,
        config: &Config,
        monitor_rect: &Rect,
        requests: &mut Vec<XRequest>,
    )
        requires
            old(self).wf(),
            focus_right_pre(old(self).view(), *config, *monitor_rect),
        ensures
            final(self).wf(),
            focus_right_post(old(self).view(), final(self).view(), old(requests)@, final(requests)@, *config, *monitor_rect),
    {
        let ghost v = self.view();
        if self.focused_type == WindowType::Normal && self.focused_idx < self.normal.len() {
            if self.focused_idx < self.normal.len() - 1 {
                let new_focused_idx = self.focused_idx + 1;
                let avail_rect = self.available_rectangle(monitor_rect, config);
                let r = *self.normal.index_rect(new_focused_idx);
                let move_left_x = if r.x + to_i32(r.width) > avail_rect.x + to_i32(avail_rect.width) {
                    r.x + to_i32(r.width) - avail_rect.x - to_i32(avail_rect.width)
                } else {
                    0
                };
                let ghost r0 = requests@;
                if move_left_x > 0 {
                    self.scroll_normal(-move_left_x, monitor_rect, config.border_size, requests);
                }
                let ghost r1 = requests@;
                assert(self.view().normal[new_focused_idx as int].window == v.normal[new_focused_idx as int].window);
                self.set_focused_by_index(new_focused_idx, WindowType::Normal, config, requests);
                let ghost r2 = requests@;
                self.focused_via_keyboard = true;
                self.reset_dragged_window_state(requests);
                assert(requests@ =~= old(requests)@ + (r1.subrange(r0.len() as int, r1.len() as int)) + r2.subrange(r1.len() as int, r2.len() as int) + ungrab_requests(v.dragged_window));
            }
        }
    }
}

/// The tiled windows at `l` and `l + 1` trade places. Each keeps its width;
/// the left slot keeps its x and the right slot moves by the difference of
/// the widths, so the gap between them stays.
pub open spec fn traded(ws: Seq<Window>, l: int) -> Seq<Window> {
    let a = ws[l];
    let b = ws[l + 1];
    let lw = a.rect.width;
    let rw = b.rect.width;
    ws.update(l, Window { window: b.window, visible: b.visible, rect: Rect { width: rw, ..a.rect } }).update(
        l + 1,
        Window {
            window: a.window,
            visible: a.visible,
            rect: Rect {
                x: if rw != lw {
                    (b.rect.x + signed(rw) - signed(lw)) as i32
                } else {
                    b.rect.x
                },
                width: lw,
                ..b.rect
            },
        },
    )
}

/// `traded` computes without overflow.
pub open spec fn traded_ok(ws: Seq<Window>, l: int) -> bool {
    let lw = ws[l].rect.width;
    let rw = ws[l + 1].rect.width;
    &&& 0 <= l
    &&& l + 1 < ws.len()
    &&& in_i32(signed(rw) - signed(lw))
    &&& (rw != lw ==> in_i32(ws[l + 1].rect.x + signed(rw) - signed(lw)))
}

/// The `Configure` request of the `i`-th window.
pub open spec fn configure_at(ws: Seq<Window>, i: int, border: u32) -> XRequest {
    XRequest::Configure { window: ws[i].window, rect: ws[i].rect, border }
}

/// The windows at `l` and `l + 1` trade places, as `traded` says.
fn trade(windows: &mut WindowsCollection, l: usize)
    requires
        old(windows).wf(),
        traded_ok(old(windows).entries(), l as int),
    ensures
        final(windows).wf(),
        final(windows).entries() == traded(old(windows).entries(), l as int),
{
    let ghost ws = windows.entries();
    let n = windows.len();
    assert(l + 1 < n);
    let r = l + 1;
    windows.swap_windows(l, r);
    windows.swap_visibles(l, r);
    let lw = windows.index_rect(l).width;
    let rw = windows.index_rect(r).width;
    windows.index_rect_mut(l).width = rw;
    windows.index_rect_mut(r).width = lw;
    if lw != rw {
        let d = to_i32(rw) - to_i32(lw);
        let rr = windows.index_rect_mut(r);
        rr.x = rr.x + d;
    }
    assert(windows.entries() =~= traded(ws, l as int));
}

impl Workspace {
    /// The focused tiled window trades places with the one on its left; the
    /// tiled windows scroll right if it then starts left of the available area.
    #[verifier::spinoff_prover]
    pub fn handle_move_window_left(&mut self, config: &Config, monitor_rect: &Rect, requests: &mut Vec<XRequest>)
        requires
            old(self).wf(),
            move_left_pre(old(self).view(), *config, *monitor_rect),
        ensures
            final(self).wf(),
            move_left_post(old(self).view(), final(self).view(), old(requests)@, final(requests)@, *config, *monitor_rect),
    {
        let ghost v = self.view();
        if self.focused_type == WindowType::Normal && self.focused_idx < self.normal.len() {
            if self.focused_idx > 0 {
                let currently_focused_idx = self.focused_idx;
                let target_idx = self.focused_idx - 1;
                let avail_rect = self.available_rectangle(monitor_rect, config);
                trade(&mut self.normal, target_idx);
                self.focused_idx = target_idx;
                let ghost t = self.view().normal;
                let (win_newly_focused, rect_newly_focused) = self.normal.index(target_idx);
                let rect_newly_focused = *rect_newly_focused;
                let (win_prev_focused, rect_prev_focused) = self.normal.index(currently_focused_idx);
                let rect_prev_focused = *rect_prev_focused;
                let move_right_x = if rect_newly_focused.x < avail_rect.x {
                    avail_rect.x - rect_newly_focused.x
                } else {
                    0
                };
                let ghost r0 = requests@;
                if move_right_x != 0 {
                    self.scroll_normal(move_right_x, monitor_rect, config.border_size, requests);
                } else {
                    requests.push(XRequest::Configure { window: win_newly_focused, rect: rect_newly_focused, border: config.border_size });
                    requests.push(XRequest::Configure { window: win_prev_focused, rect: rect_prev_focused, border: config.border_size });
                }
                let ghost r1 = requests@;
                self.focused_via_keyboard = true;
                self.reset_dragged_window_state(requests);
                assert(requests@ =~= old(requests)@ + r1.subrange(r0.len() as int, r1.len() as int) + ungrab_requests(v.dragged_window));
                assert(self.view().focused_type == v.focused_type);
            }
        }
    }

    /// The focused tiled window trades places with the one on its right; the
    /// tiled windows scroll left if it then ends right of the available area.
    #[verifier::spinoff_prover]
    pub fn handle_move_window_right(&mut self, config: &Config, monitor_rect: &Rect, requests: &mut Vec<XRequest>)
        requires
            old(self).wf(),
            move_right_pre(old(self).view(), *config, *monitor_rect),
        ensures
            final(self).wf(),
            move_right_post(old(self).view(), final(self).view(), old(requests)@, final(requests)@, *config, *monitor_rect),
    {
        let ghost v = self.view();
        if self.focused_type == WindowType::Normal && self.focused_idx < self.normal.len() {
            if self.focused_idx < self.normal.len() - 1 {
                let currently_focused_idx = self.focused_idx;
                let target_idx = self.focused_idx + 1;
                let avail_rect = self.available_rectangle(monitor_rect, config);
                trade(&mut self.normal, currently_focused_idx);
                self.focused_idx = target_idx;
                let (win_newly_focused, rect_newly_focused) = self.normal.index(target_idx);
                let rect_newly_focused = *rect_newly_focused;
                let (win_prev_focused, rect_prev_focused) = self.normal.index(currently_focused_idx);
                let rect_prev_focused = *rect_prev_focused;
                let move_left_x = if rect_newly_focused.x + to_i32(rect_newly_focused.width) > avail_rect.x + to_i32(avail_rect.width) {
                    rect_newly_focused.x + to_i32(rect_newly_focused.width) - avail_rect.x - to_i32(avail_rect.width)
                } else {
                    0
                };
                let ghost r0 = requests@;
                if move_left_x > 0 {
                    self.scroll_normal(-move_left_x, monitor_rect, config.border_size, requests);
                } else {
                    requests.push(XRequest::Configure { window: win_newly_focused, rect: rect_newly_focused, border: config.border_size });
                    requests.push(XRequest::Configure { window: win_prev_focused, rect: rect_prev_focused, border: config.border_size });
                }
                let ghost r1 = requests@;
                self.focused_via_keyboard = true;
                self.reset_dragged_window_state(requests);
                assert(requests@ =~= old(requests)@ + r1.subrange(r0.len() as int, r1.len() as int) + ungrab_requests(v.dragged_window));
                assert(self.view().focused_type == v.focused_type);
            }
        }
    }
}

/// The focused tiled window `f` resized by `change` pixels, within the
/// minimum width and the available width, and kept centred where it can be;
/// the windows on its left move with its left edge and those on its right
/// with its right edge.
pub open spec fn resized(ws: Seq<Window>, f: int, change: int, min_width: u32, avail: Rect) -> Seq<Window> {
    let r = ws[f].rect;
    let nw = clamp(signed(r.width) + change, signed(min_width), signed(avail.width));
    let nx = clamp(r.x - half(change), avail.x as int, avail.right());
    let move_left = nx - r.x;
    let move_right = move_left + nw - signed(r.width);
    let ws1 = ws.update(f, Window { rect: mk_rect(nx, r.y as int, unsigned(nw), r.height as int), ..ws[f] });
    let ws2 = if move_left != 0 { moved_x(ws1, 0, f, move_left) } else { ws1 };
    if move_right != 0 { moved_x(ws2, f + 1, ws.len() as int, move_right) } else { ws2 }
}

/// `resized` computes without panicking or overflowing.
pub open spec fn resized_ok(ws: Seq<Window>, f: int, change: int, min_width: u32, avail: Rect) -> bool {
    let r = ws[f].rect;
    let nw = clamp(signed(r.width) + change, signed(min_width), signed(avail.width));
    let nx = clamp(r.x - half(change), avail.x as int, avail.right());
    let move_left = nx - r.x;
    let move_right = move_left + nw - signed(r.width);
    let ws1 = ws.update(f, Window { rect: mk_rect(nx, r.y as int, unsigned(nw), r.height as int), ..ws[f] });
    let ws2 = if move_left != 0 { moved_x(ws1, 0, f, move_left) } else { ws1 };
    &&& in_i32(signed(r.width) + change)
    &&& signed(min_width) <= signed(avail.width)
    &&& in_i32(r.x - half(change))
    &&& in_i32(avail.right())
    &&& avail.x <= avail.right()
    &&& in_i32(move_left)
    &&& in_i32(move_left + nw)
    &&& in_i32(move_right)
    &&& (move_left != 0 ==> moves_fit_x(ws1, 0, f, move_left))
    &&& (move_right != 0 ==> moves_fit_x(ws2, f + 1, ws.len() as int, move_right))
}

/// Resizing the focused tiled window `f` carries its neighbours with its
/// edges: every window on its left moves as far as its left edge moved, and
/// every window on its right as far as its right edge moved, so the gaps on
/// both sides of it are kept; no other window changes its size, its row or
/// its id.
pub proof fn law_resize_keeps_gaps(ws: Seq<Window>, f: int, change: int, min_width: u32, avail: Rect)
    requires
        0 <= f < ws.len(),
        resized_ok(ws, f, change, min_width, avail),
    ensures
        ({
            let ws2 = resized(ws, f, change, min_width, avail);
            let dl = ws2[f].rect.x - ws[f].rect.x;
            let dr = ws2[f].rect.right() - ws[f].rect.right();
            &&& ws2.len() == ws.len()
            &&& ws2[f].window == ws[f].window
            &&& ws2[f].rect.y == ws[f].rect.y
            &&& ws2[f].rect.height == ws[f].rect.height
            &&& forall|i: int| 0 <= i < ws.len() && i != f ==> {
                &&& (#[trigger] ws2[i]).window == ws[i].window
                &&& ws2[i].rect.y == ws[i].rect.y
                &&& ws2[i].rect.width == ws[i].rect.width
                &&& ws2[i].rect.height == ws[i].rect.height
                &&& ws2[i].visible == ws[i].visible
                &&& (i < f ==> ws2[i].rect.x == ws[i].rect.x + dl)
                &&& (i > f ==> ws2[i].rect.x == ws[i].rect.x + dr)
            }
            &&& f + 1 < ws.len() ==> ws2[f + 1].rect.x - ws2[f].rect.right() == ws[f + 1].rect.x - ws[f].rect.right()
            &&& f > 0 ==> ws2[f].rect.x - ws2[f - 1].rect.right() == ws[f].rect.x - ws[f - 1].rect.right()
        }),
{
    let r = ws[f].rect;
    let nw = clamp(signed(r.width) + change, signed(min_width), signed(avail.width));
    let nx = clamp(r.x - half(change), avail.x as int, avail.right());
    let move_left = nx - r.x;
    let move_right = move_left + nw - signed(r.width);
    let ws1 = ws.update(f, Window { rect: mk_rect(nx, r.y as int, unsigned(nw), r.height as int), ..ws[f] });
    let ws2 = if move_left != 0 { moved_x(ws1, 0, f, move_left) } else { ws1 };
    let ws3 = resized(ws, f, change, min_width, avail);
    assert(in_i32(nx));
    assert(in_i32(nw));
    assert(signed(unsigned(nw) as u32) == nw);
    assert(ws3[f] == ws1[f]);
    assert(ws3[f].rect.x == nx);
    assert(ws3[f].rect.right() == nx + nw);
    assert forall|i: int| 0 <= i < ws.len() && i != f implies {
        &&& (#[trigger] ws3[i]).window == ws[i].window
        &&& ws3[i].rect.y == ws[i].rect.y
        &&& ws3[i].rect.width == ws[i].rect.width
        &&& ws3[i].rect.height == ws[i].rect.height
        &&& ws3[i].visible == ws[i].visible
        &&& (i < f ==> ws3[i].rect.x == ws[i].rect.x + move_left)
        &&& (i > f ==> ws3[i].rect.x == ws[i].rect.x + move_right)
    } by {
        assert(ws1[i] == ws[i]);
        if i < f {
            assert(ws3[i] == ws2[i]);
            if move_left != 0 {
                assert(in_i32(ws1[i].rect.x + move_left));
            }
        } else {
            assert(ws2[i] == ws1[i]);
            if move_right != 0 {
                assert(in_i32(ws2[i].rect.x + move_right));
            }
        }
    }
}

impl Workspace {
    /// The focused tiled window grows (or shrinks) by `size_change_pixels`.
    #[verifier::spinoff_prover]
    pub fn handle_resize_window_horizontal(
        &mut self,
        config: &Config,
        monitor_rect: &Rect,
        size_change_pixels: i32,
        requests: &mut Vec<XRequest>,
    )
        requires
            old(self).wf(),
            resize_horizontal_pre(old(self).view(), *config, *monitor_rect, size_change_pixels),
        ensures
            final(self).wf(),
            resize_horizontal_post(old(self).view(), final(self).view(), old(requests)@, final(requests)@, *config, *monitor_rect, size_change_pixels),
    {
        let ghost v = self.view();
        let avail_rect = self.available_rectangle(monitor_rect, config);
        if self.focused_type == WindowType::Normal && self.focused_idx < self.normal.len() {
            let f = self.focused_idx;
            let focused_rect = *self.normal.index_rect(f);
            let new_width = clamp_i32(
                to_i32(focused_rect.width) + size_change_pixels,
                to_i32(config.minimum_width_tiling),
                to_i32(avail_rect.width),
            );
            let new_x = clamp_i32(
                focused_rect.x - size_change_pixels / 2,
                avail_rect.x,
                avail_rect.x + to_i32(avail_rect.width),
            );
            self.normal.update_rect_at(
                f,
                Rect { x: new_x, y: focused_rect.y, width: to_u32(new_width), height: focused_rect.height },
            );
            let ghost ws1 = self.normal.entries();
            assert(ws1 =~= v.normal.update(f as int, Window {
                rect: mk_rect(new_x as int, focused_rect.y as int, unsigned(new_width as int), focused_rect.height as int),
                ..v.normal[f as int]
            }));
            let move_x_from_left = new_x - focused_rect.x;
            let move_x_from_right = move_x_from_left + new_width - to_i32(focused_rect.width);
            if move_x_from_left != 0 {
                shift_x(&mut self.normal, 0, f, move_x_from_left);
            }
            if move_x_from_right != 0 {
                let len = self.normal.len();
                shift_x(&mut self.normal, f + 1, len, move_x_from_right);
            }
            configure_all(&self.normal, config.border_size, requests);
            fix_visibility(&mut self.normal, monitor_rect, requests);
            self.focused_via_keyboard = true;
            self.reset_dragged_window_state(requests);
        }
    }
}

/// Where a floating window without a position of its own goes: centred on
/// the point halfway to the monitor's far corner, with the size it asks for,
/// or 800 by 600 when it asks for none.
pub open spec fn floating_base(hints: Rect, monitor: Rect) -> Rect {
    let cx = half(monitor.right());
    let cy = half(monitor.bottom());
    if hints.width != 0 && hints.height != 0 {
        mk_rect(cx - hints.width / 2, cy - hints.height / 2, hints.width as int, hints.height as int)
    } else {
        mk_rect(cx - 400, cy - 300, 800, 600)
    }
}

pub open spec fn floating_base_ok(hints: Rect, monitor: Rect) -> bool {
    let cx = half(monitor.right());
    let cy = half(monitor.bottom());
    &&& in_i32(monitor.right())
    &&& in_i32(monitor.bottom())
    &&& if hints.width != 0 && hints.height != 0 {
        in_i32(cx - hints.width / 2) && in_i32(cy - hints.height / 2)
    } else {
        in_i32(cx - 400) && in_i32(cy - 300)
    }
}

/// `r` moved 10 pixels right and 10 down.
pub open spec fn nudged(r: Rect) -> Rect {
    Rect { x: (r.x + 10) as i32, y: (r.y + 10) as i32, ..r }
}

/// With its border and the outer gap, `r` reaches the right or bottom edge of
/// the monitor.
pub open spec fn reaches_edge(r: Rect, monitor: Rect, border: u32, gap_h: u32, gap_v: u32) -> bool {
    ||| r.x + signed((r.width + border + gap_h) as u32) >= monitor.right()
    ||| r.y + signed((r.height + border + gap_v) as u32) >= monitor.bottom()
}

/// Nudging `r` and testing it against the edges computes without overflow.
pub open spec fn nudge_ok(r: Rect, monitor: Rect, border: u32, gap_h: u32, gap_v: u32) -> bool {
    let n = nudged(r);
    &&& in_i32(r.x + 10)
    &&& in_i32(r.y + 10)
    &&& r.width + border + gap_h <= u32::MAX
    &&& in_i32(n.x + signed((n.width + border + gap_h) as u32))
    &&& (n.x + signed((n.width + border + gap_h) as u32) < monitor.right() ==> {
        &&& r.height + border + gap_v <= u32::MAX
        &&& in_i32(n.y + signed((n.height + border + gap_v) as u32))
    })
}

/// Walking the floating windows in order, the new window's corner is nudged
/// for each one that sits at `base`'s corner, until it would reach an edge;
/// then it goes back to `base` and stays there. The state after `rs`: the
/// corner so far, and whether the walk has stopped.
pub open spec fn cascade(rs: Seq<Rect>, base: Rect, monitor: Rect, border: u32, gap_h: u32, gap_v: u32) -> (Rect, bool)
    decreases rs.len(),
{
    if rs.len() == 0 {
        (base, false)
    } else {
        let (a, stopped) = cascade(rs.drop_last(), base, monitor, border, gap_h, gap_v);
        let o = rs.last();
        if !stopped && o.x == base.x && o.y == base.y {
            if reaches_edge(nudged(a), monitor, border, gap_h, gap_v) {
                (base, true)
            } else {
                (nudged(a), false)
            }
        } else {
            (a, stopped)
        }
    }
}

/// Each nudge of `cascade` computes without overflow.
pub open spec fn cascade_ok(rs: Seq<Rect>, base: Rect, monitor: Rect, border: u32, gap_h: u32, gap_v: u32) -> bool {
    forall|i: int|
        0 <= i < rs.len() ==> {
            let (a, stopped) = #[trigger] cascade(rs.take(i), base, monitor, border, gap_h, gap_v);
            !stopped && rs[i].x == base.x && rs[i].y == base.y ==> nudge_ok(a, monitor, border, gap_h, gap_v)
        }
}

/// The floating windows sorted by y, ties by x, ties in their order: the
/// result of a stable sort by x and then a stable sort by y.
pub open spec fn sorted_corners(ws: Seq<Window>, o1: Seq<usize>, o2: Seq<usize>) -> bool {
    &&& is_stable_order(o1, x_keys(rects_of(ws)))
    &&& is_stable_order(o2, y_keys(rects_of(reorder(ws, o1))))
}

/// The requests that place a new floating window at `r` and give it the focus.
pub open spec fn new_floating_requests(
    window: xcb_window_t,
    r: Rect,
    border: u32,
    visible: bool,
    color: u32,
    dragged: Option<DraggedWindow>,
) -> Seq<XRequest> {
    seq![
        XRequest::Configure { window, rect: r, border },
        XRequest::ChangeAttrs { window, mask: XCB_CW_EVENT_MASK, value: floating_event_mask() },
        XRequest::MapWindow(window),
    ] + focus_requests(window, WindowType::Floating, visible, color) + ungrab_requests(dragged)
}

impl WorkspaceView {
    /// The state once the floating windows are `floating` followed by
    /// `window` at `r`, which has the focus.
    pub open spec fn with_new_floating(self, floating: Seq<Window>, window: xcb_window_t, r: Rect) -> WorkspaceView {
        let f = floating.push(Window { window, rect: r, visible: true });
        WorkspaceView {
            floating: f,
            focused_idx: first_index_of(f, window) as nat,
            focused_type: WindowType::Floating,
            focused_via_keyboard: true,
            dragged_window: None,
            ..self
        }
    }
}

impl Workspace {
    /// A floating window arrives. It takes the position it asks for; without
    /// one it is centred and cascaded off the floating windows at the same
    /// corner (which are sorted by position on the way). It is shown and
    /// gets the focus.
    #[verifier::spinoff_prover]
    pub fn handle_new_floating_window(
        &mut self,
        window: xcb_window_t,
        rect_hints: Rect,
        monitor_rect: &Rect,
        config: &Config,
        requests: &mut Vec<XRequest>,
    )
        requires
            old(self).wf(),
            new_floating_pre(old(self).view(), window, rect_hints, *monitor_rect, *config),
        ensures
            final(self).wf(),
            new_floating_post(old(self).view(), final(self).view(), old(requests)@, final(requests)@, window, rect_hints, *monitor_rect, *config),
    {
        if rect_hints.x != 0 || rect_hints.y != 0 {
            self.place_floating(window, rect_hints, config, requests);
        } else {
            let ghost v = self.view();
            let window_rect = self.cascaded_position(rect_hints, monitor_rect, config);
            let ghost (o1, o2) = choose|o1: Seq<usize>, o2: Seq<usize>|
                #[trigger] sorted_corners(v.floating, o1, o2) && {
                    let sorted = reorder(reorder(v.floating, o1), o2);
                    &&& self.view() == (WorkspaceView { floating: sorted, ..v })
                    &&& window_rect == cascade(
                        rects_of(sorted),
                        floating_base(rect_hints, *monitor_rect),
                        *monitor_rect,
                        config.border_size,
                        config.outer_gap_horiz,
                        config.outer_gap_vert,
                    ).0
                };
            self.place_floating(window, window_rect, config, requests);
            assert(sorted_corners(v.floating, o1, o2));
        }
    }

    /// Places the new floating `window` at `window_rect`, shows it and gives
    /// it the focus.
    #[verifier::spinoff_prover]
    #[verifier::rlimit(30)]
    fn place_floating(&mut self, window: xcb_window_t, window_rect: Rect, config: &Config, requests: &mut Vec<XRequest>)
        requires
            old(self).wf(),
            config.border_color_active_int is Some,
        ensures
            final(self).wf(),
            final(self).view() == old(self).view().with_new_floating(old(self).view().floating, window, window_rect),
            final(requests)@ == old(requests)@ + new_floating_requests(
                window,
                window_rect,
                config.border_size,
                old(self).view().is_visible,
                config.border_color_active_int->0,
                old(self).view().dragged_window,
            ),
    {
        let ghost v = self.view();
        let ghost start = requests@;
        requests.push(XRequest::Configure { window, rect: window_rect, border: config.border_size });
        requests.push(
            XRequest::ChangeAttrs {
                window,
                mask: XCB_CW_EVENT_MASK,
                value: XCB_EVENT_MASK_FOCUS_CHANGE | XCB_EVENT_MASK_ENTER_WINDOW | XCB_EVENT_MASK_LEAVE_WINDOW
                    | XCB_EVENT_MASK_BUTTON_MOTION,
            },
        );
        requests.push(XRequest::MapWindow(window));
        self.floating.add(window, window_rect, true);
        assert(self.view().floating =~= v.floating.push(Window { window, rect: window_rect, visible: true }));
        proof {
            let f = v.floating.push(Window { window, rect: window_rect, visible: true });
            assert(f[v.floating.len() as int].window == window);
        }
        self.set_focused(window, WindowType::Floating, config, requests);
        self.focused_via_keyboard = true;
        self.reset_dragged_window_state(requests);
        assert(requests@ =~= start + new_floating_requests(
            window, window_rect, config.border_size, v.is_visible, config.border_color_active_int->0, v.dragged_window));
    }

    /// Sorts the floating windows by position and returns where a new one
    /// without a position of its own goes.
    #[verifier::spinoff_prover]
    fn cascaded_position(&mut self, rect_hints: Rect, monitor_rect: &Rect, config: &Config) -> (r: Rect)
        requires
            old(self).wf(),
            ({
                let v = old(self).view();
                &&& floating_base_ok(rect_hints, *monitor_rect)
                &&& forall|o1: Seq<usize>, o2: Seq<usize>|
                    #[trigger] sorted_corners(v.floating, o1, o2) ==> cascade_ok(
                        rects_of(reorder(reorder(v.floating, o1), o2)),
                        floating_base(rect_hints, *monitor_rect),
                        *monitor_rect,
                        config.border_size,
                        config.outer_gap_horiz,
                        config.outer_gap_vert,
                    )
            }),
        ensures
            final(self).wf(),
            ({
                let v = old(self).view();
                exists|o1: Seq<usize>, o2: Seq<usize>|
                    #[trigger] sorted_corners(v.floating, o1, o2) && {
                        let sorted = reorder(reorder(v.floating, o1), o2);
                        &&& final(self).view() == (WorkspaceView { floating: sorted, ..v })
                        &&& r == cascade(
                            rects_of(sorted),
                            floating_base(rect_hints, *monitor_rect),
                            *monitor_rect,
                            config.border_size,
                            config.outer_gap_horiz,
                            config.outer_gap_vert,
                        ).0
                    }
            }),
    {
        let ghost v = self.view();
        let center_x = (monitor_rect.x + to_i32(monitor_rect.width)) / 2;
        let center_y = (monitor_rect.y + to_i32(monitor_rect.height)) / 2;
        let rect = if rect_hints.width != 0 && rect_hints.height != 0 {
            Rect {
                x: center_x - to_i32(rect_hints.width / 2),
                y: center_y - to_i32(rect_hints.height / 2),
                width: rect_hints.width,
                height: rect_hints.height,
            }
        } else {
            let width: u32 = 800;
            let height: u32 = 600;
            Rect { x: center_x - to_i32(width / 2), y: center_y - to_i32(height / 2), width, height }
        };
        assert(rect == floating_base(rect_hints, *monitor_rect));
        let ghost before_x = self.floating.entries();
        let ghost rs_x = self.floating.rects_seq();
        self.floating.sort_by_rect_x_asc();
        let ghost o1 = choose|order: Seq<usize>| is_stable_order(order, x_keys(rs_x))
            && #[trigger] self.floating.entries() == reorder(before_x, order);
        let ghost before_y = self.floating.entries();
        let ghost rs_y = self.floating.rects_seq();
        self.floating.sort_by_rect_y_asc();
        let ghost o2 = choose|order: Seq<usize>| is_stable_order(order, y_keys(rs_y))
            && #[trigger] self.floating.entries() == reorder(before_y, order);
        let ghost sorted = self.floating.entries();
        proof {
            assert(rects_of(before_x) =~= rs_x);
            assert(rects_of(before_y) =~= rs_y);
            assert(sorted_corners(v.floating, o1, o2));
        }
        let rects = self.floating.rect_iter();
        assert(rects@ =~= rects_of(sorted));
        let r = cascade_rect(
            rects,
            rect,
            monitor_rect,
            config.border_size,
            config.outer_gap_horiz,
            config.outer_gap_vert,
        );
        assert(self.view() == (WorkspaceView { floating: sorted, ..v }));
        r
    }
}

/// Where a new floating window at `base` ends up among the floating windows
/// of `rects`, as `cascade` says.
fn cascade_rect(rects: &[Rect], base: Rect, monitor_rect: &Rect, border: u32, gap_h: u32, gap_v: u32) -> (r: Rect)
    requires
        in_i32(monitor_rect.right()),
        in_i32(monitor_rect.bottom()),
        cascade_ok(rects@, base, *monitor_rect, border, gap_h, gap_v),
    ensures
        r == cascade(rects@, base, *monitor_rect, border, gap_h, gap_v).0,
{
    let ghost rs = rects@;
    let mut adjusted_rect = base;
    let mut stopped = false;
    let mut i: usize = 0;
    while i < rects.len()
        invariant
            0 <= i <= rs.len(),
            rs == rects@,
            cascade_ok(rs, base, *monitor_rect, border, gap_h, gap_v),
            in_i32(monitor_rect.right()),
            in_i32(monitor_rect.bottom()),
            (adjusted_rect, stopped) == cascade(rs.take(i as int), base, *monitor_rect, border, gap_h, gap_v),
        decreases rs.len() - i,
    {
        let other = rects[i];
        assert(rs.take(i + 1).drop_last() =~= rs.take(i as int));
        assert(rs.take(i + 1).last() == other);
        if !stopped && other.x == base.x && other.y == base.y {
            assert(nudge_ok(adjusted_rect, *monitor_rect, border, gap_h, gap_v)) by {
                let _ = cascade(rs.take(i as int), base, *monitor_rect, border, gap_h, gap_v);
            }
            adjusted_rect.x = adjusted_rect.x + 10;
            adjusted_rect.y = adjusted_rect.y + 10;
            if adjusted_rect.x + to_i32(adjusted_rect.width + border + gap_h) >= monitor_rect.x + to_i32(monitor_rect.width)
                || adjusted_rect.y + to_i32(adjusted_rect.height + border + gap_v) >= monitor_rect.y + to_i32(monitor_rect.height) {
                adjusted_rect = base;
                stopped = true;
            }
        }
        i = i + 1;
    }
    assert(rs.take(i as int) =~= rs);
    adjusted_rect
}

impl WorkspaceView {
    /// The focused tiled window's position, if a tiled window has the focus.
    pub open spec fn tiled_focus(self) -> Option<usize> {
        if self.focused_type == WindowType::Normal && self.focused_idx < self.normal.len() {
            Some(self.focused_idx as usize)
        } else {
            None
        }
    }

    /// Where a new tiled window of the given size goes in `avail`: after the
    /// focused tiled window, or after the last visible one.
    pub open spec fn tiled_placement(self, avail: Rect, width: u32, height: u32, gap: u32) -> Placement {
        Placement {
            parent: avail,
            default_width: width,
            default_height: height,
            focused_idx: self.tiled_focus(),
            rects: rects_of(self.normal),
            inner_gap: gap,
        }
    }
}

/// The tiled windows moved to make room: those up to the focused one (all of
/// them, when none has the focus) by `move_left`, those after it by
/// `move_right`.
pub open spec fn make_room(ws: Seq<Window>, focus: Option<usize>, move_left: int, move_right: int) -> Seq<Window> {
    let ws1 = if move_left != 0 {
        match focus {
            Some(f) => moved_x(ws, 0, f + 1, move_left),
            None => moved_x(ws, 0, ws.len() as int, move_left),
        }
    } else {
        ws
    };
    if move_right != 0 {
        match focus {
            Some(f) => moved_x(ws1, f + 1, ws.len() as int, move_right),
            None => ws1,
        }
    } else {
        ws1
    }
}

/// `make_room` computes without overflow.
pub open spec fn make_room_ok(ws: Seq<Window>, focus: Option<usize>, move_left: int, move_right: int) -> bool {
    let ws1 = if move_left != 0 {
        match focus {
            Some(f) => moved_x(ws, 0, f + 1, move_left),
            None => moved_x(ws, 0, ws.len() as int, move_left),
        }
    } else {
        ws
    };
    &&& (move_left != 0 ==> match focus {
        Some(f) => moves_fit_x(ws, 0, f + 1, move_left),
        None => moves_fit_x(ws, 0, ws.len() as int, move_left),
    })
    &&& (move_right != 0 ==> match focus {
        Some(f) => moves_fit_x(ws1, f + 1, ws.len() as int, move_right),
        None => true,
    })
}

/// What `calc_new_rect_added_after_focused` gives for `pl`.
#[verifier::opaque]
pub open spec fn placed(pl: Placement) -> (Rect, int, int) {
    pl.result()
}

/// `calc_new_rect_added_after_focused` computes `pl` without overflow.
#[verifier::opaque]
pub open spec fn placement_ok(pl: Placement) -> bool {
    pl.ok()
}

proof fn lemma_placement_revealed(pl: Placement)
    ensures
        placed(pl) == pl.result(),
        placement_ok(pl) == pl.ok(),
{
    reveal(placed);
    reveal(placement_ok);
}

/// The tiled windows with room made for the new one, followed by it.
pub open spec fn with_new_tiled(v: WorkspaceView, pl: Placement, window: xcb_window_t, visible: bool) -> Seq<Window> {
    let (r, ml, mr) = placed(pl);
    make_room(v.normal, v.tiled_focus(), ml, mr).push(Window { window, rect: r, visible })
}

/// Placing a new tiled window per `pl` computes without overflow.
pub open spec fn new_tiled_ok(v: WorkspaceView, pl: Placement) -> bool {
    let (r, ml, mr) = placed(pl);
    &&& placement_ok(pl)
    &&& make_room_ok(v.normal, v.tiled_focus(), ml, mr)
}

impl Workspace {
    /// Makes room among the tiled windows for a new one per `pl`, adds it and
    /// sorts the tiled windows by x.
    #[verifier::spinoff_prover]
    fn insert_tiled(
        &mut self,
        window: xcb_window_t,
        avail: &Rect,
        width: u32,
        height: u32,
        gap: u32,
        visible: bool,
    ) -> (r: Rect)
        requires
            old(self).wf(),
            new_tiled_ok(old(self).view(), old(self).view().tiled_placement(*avail, width, height, gap)),
        ensures
            final(self).wf(),
            r == placed(old(self).view().tiled_placement(*avail, width, height, gap)).0,
            ({
                let v = old(self).view();
                let made = with_new_tiled(v, v.tiled_placement(*avail, width, height, gap), window, visible);
                exists|order: Seq<usize>|
                    #[trigger] is_stable_order(order, x_keys(rects_of(made))) && {
                        &&& final(self).view() == (WorkspaceView { normal: reorder(made, order), ..v })
                        &&& has_window(reorder(made, order), window)
                    }
            }),
    {
        let ghost v = self.view();
        let ghost pl = v.tiled_placement(*avail, width, height, gap);
        let window_rect = self.tiled_room(avail, width, height, gap);
        self.normal.add(window, window_rect, visible);
        let ghost made = self.normal.entries();
        assert(made =~= with_new_tiled(v, pl, window, visible));
        let ghost made_rects = self.normal.rects_seq();
        self.normal.sort_by_rect_x_asc();
        proof {
            assert(rects_of(made) =~= made_rects);
            let order = choose|order: Seq<usize>| is_stable_order(order, x_keys(made_rects))
                && #[trigger] self.normal.entries() == reorder(made, order);
            let n = made.len() - 1;
            lemma_stable_order_covers(order, x_keys(made_rects), n);
            let i = choose|i: int| 0 <= i < order.len() && order[i] == n;
            assert(reorder(made, order)[i].window == window);
            assert(is_stable_order(order, x_keys(rects_of(made))));
        }
        window_rect
    }

    /// Computes where a new tiled window goes per `pl` and moves the tiled
    /// windows to make room for it.
    #[verifier::spinoff_prover]
    #[verifier::rlimit(30)]
    fn tiled_room(&mut self, avail: &Rect, width: u32, height: u32, gap: u32) -> (r: Rect)
        requires
            old(self).wf(),
            new_tiled_ok(old(self).view(), old(self).view().tiled_placement(*avail, width, height, gap)),
        ensures
            final(self).wf(),
            ({
                let v = old(self).view();
                let pl = v.tiled_placement(*avail, width, height, gap);
                &&& r == placed(pl).0
                &&& final(self).view() == (WorkspaceView {
                    normal: make_room(v.normal, v.tiled_focus(), placed(pl).1, placed(pl).2),
                    ..v
                })
            }),
    {
        let ghost v = self.view();
        let ghost pl = v.tiled_placement(*avail, width, height, gap);
        let focused_idx = if self.focused_type == WindowType::Normal && self.focused_idx < self.normal.len() {
            Some(self.focused_idx)
        } else {
            None
        };
        let rects = self.normal.rects();
        assert(rects@ =~= rects_of(v.normal));
        assert(focused_idx == v.tiled_focus());
        proof {
            lemma_placement_revealed(pl);
        }
        let (window_rect, move_left_rects_by, move_right_rects_by) = avail.calc_new_rect_added_after_focused(
            width,
            height,
            focused_idx,
            rects.as_slice(),
            gap,
        );
        assert(placed(pl) == (window_rect, move_left_rects_by as int, move_right_rects_by as int));
        make_room_for(&mut self.normal, focused_idx, move_left_rects_by, move_right_rects_by);
        window_rect
    }
}

/// Moves the rectangles as `make_room` says.
fn make_room_for(windows: &mut WindowsCollection, focus: Option<usize>, move_left: i32, move_right: i32)
    requires
        old(windows).wf(),
        focus matches Some(f) ==> f < old(windows).spec_len(),
        make_room_ok(old(windows).entries(), focus, move_left as int, move_right as int),
    ensures
        final(windows).wf(),
        final(windows).entries() == make_room(old(windows).entries(), focus, move_left as int, move_right as int),
{
    let len = windows.len();
    if move_left != 0 {
        match focus {
            Some(f) => {
                shift_x(windows, 0, f + 1, move_left);
            },
            None => {
                shift_x(windows, 0, len, move_left);
            },
        }
    }
    assert(windows.entries().len() == len);
    if move_right != 0 {
        if let Some(f) = focus {
            shift_x(windows, f + 1, len, move_right);
        }
    }
}

/// Each window of `reorder(ws, order)` is one of `ws`, so rectangles that fit
/// still fit.
proof fn lemma_reorder_fits(ws: Seq<Window>, order: Seq<usize>)
    requires
        rects_fit(ws),
        forall|i: int| 0 <= i < order.len() ==> #[trigger] order[i] < ws.len(),
    ensures
        rects_fit(reorder(ws, order)),
{
    assert forall|i: int| 0 <= i < reorder(ws, order).len() implies in_i32(
        #[trigger] reorder(ws, order)[i].rect.right(),
    ) && in_i32(reorder(ws, order)[i].rect.bottom()) by {
        let k = order[i] as int;
        assert(reorder(ws, order)[i] == ws[k]);
        assert(in_i32(ws[k].rect.right()) && in_i32(ws[k].rect.bottom()));
    }
}

/// The tiled windows once they are shown or hidden by whether they meet
/// `area`; with no area they stay as they are.
pub open spec fn shown_on(ws: Seq<Window>, area: Option<Rect>) -> Seq<Window> {
    match area {
        Some(a) => with_visibility(ws, a),
        None => ws,
    }
}

/// The state once the tiled windows are `ws`, shown on `area`, and `window`
/// among them has the focus.
#[verifier::opaque]
pub open spec fn tiled_focused(v: WorkspaceView, ws: Seq<Window>, window: xcb_window_t, area: Option<Rect>) -> WorkspaceView {
    let shown = shown_on(ws, area);
    WorkspaceView {
        normal: shown,
        focused_idx: first_index_of(shown, window) as nat,
        focused_type: WindowType::Normal,
        focused_via_keyboard: true,
        dragged_window: None,
        ..v
    }
}

/// The requests of `tiled_focused`: each tiled window configured, then
/// mapped or unmapped as it meets `area` (with no area, `window` unmapped),
/// then the focus given to `window`.
#[verifier::opaque]
pub open spec fn tiled_focused_requests(
    v: WorkspaceView,
    ws: Seq<Window>,
    window: xcb_window_t,
    area: Option<Rect>,
    border: u32,
    color: u32,
) -> Seq<XRequest> {
    configure_requests(ws, border) + (match area {
        Some(a) => visibility_requests(ws, a),
        None => seq![XRequest::UnmapWindow(window)],
    }) + focus_requests(window, WindowType::Normal, v.is_visible, color) + ungrab_requests(v.dragged_window)
}

/// The tiled windows `made` were sorted stably by x, and the state and the
/// requests are those of `tiled_focused` on the result.
pub open spec fn existing_placed(
    v: WorkspaceView,
    made: Seq<Window>,
    window: xcb_window_t,
    area: Option<Rect>,
    border: u32,
    color: u32,
    after: WorkspaceView,
    requests_before: Seq<XRequest>,
    requests_after: Seq<XRequest>,
) -> bool {
    exists|order: Seq<usize>|
        #[trigger] is_stable_order(order, x_keys(rects_of(made))) && {
            let sorted = reorder(made, order);
            &&& after == tiled_focused(v, sorted, window, area)
            &&& requests_after == requests_before + tiled_focused_requests(v, sorted, window, area, border, color)
        }
}

impl Workspace {
    /// A new tiled window arrives. It goes after the focused tiled window (or
    /// the last visible one), `tiling_width` wide less its borders and as high
    /// as the available area less its borders; the tiled windows make room,
    /// are sorted by x, configured and shown or hidden; it gets the focus.
    /// `tiling_width` is the share of the available width the settings give
    /// a new tiled window.
    #[verifier::spinoff_prover]
    pub fn handle_new_normal_window(
        &mut self,
        window: xcb_window_t,
        monitor_rect: &Rect,
        tiling_width: u32,
        config: &Config,
        requests: &mut Vec<XRequest>,
    )
        requires
            old(self).wf(),
            new_normal_pre(old(self).view(), window, *monitor_rect, tiling_width, *config),
        ensures
            final(self).wf(),
            new_normal_post(old(self).view(), final(self).view(), old(requests)@, final(requests)@, window, *monitor_rect, tiling_width, *config),
    {
        let ghost v = self.view();
        let avail_rect = self.available_rectangle(monitor_rect, config);
        let window_width = tiling_width - config.border_size * 2;
        let window_height = avail_rect.height - config.border_size * 2;
        let gap = config.inner_gap + config.border_size * 2;
        let ghost pl = v.tiled_placement(avail_rect, window_width, window_height, gap);
        let ghost start = requests@;
        requests.push(
            XRequest::ChangeAttrs {
                window,
                mask: XCB_CW_EVENT_MASK,
                value: XCB_EVENT_MASK_FOCUS_CHANGE | XCB_EVENT_MASK_ENTER_WINDOW | XCB_EVENT_MASK_LEAVE_WINDOW,
            },
        );
        let ghost r1 = requests@;
        self.insert_tiled(window, &avail_rect, window_width, window_height, gap, false);
        let ghost made = with_new_tiled(v, pl, window, false);
        let ghost order = choose|order: Seq<usize>|
            #[trigger] is_stable_order(order, x_keys(rects_of(made))) && {
                &&& self.view() == (WorkspaceView { normal: reorder(made, order), ..v })
                &&& has_window(reorder(made, order), window)
            };
        proof {
            lemma_reorder_fits(made, order);
        }
        let ghost v1 = self.view();
        self.finish_tiled(window, Some(avail_rect), config, requests);
        proof {
            let sorted = reorder(made, order);
            assert(tiled_focused(v1, sorted, window, Some(avail_rect)) == tiled_focused(v, sorted, window, Some(avail_rect))) by {
                reveal(tiled_focused);
            }
            assert(tiled_focused_requests(v1, sorted, window, Some(avail_rect), config.border_size, config.border_color_active_int->0)
                == tiled_focused_requests(v, sorted, window, Some(avail_rect), config.border_size, config.border_color_active_int->0)) by {
                reveal(tiled_focused_requests);
            }
            assert(requests@ =~= start
                + seq![XRequest::ChangeAttrs { window, mask: XCB_CW_EVENT_MASK, value: normal_event_mask() }]
                + tiled_focused_requests(v, sorted, window, Some(avail_rect), config.border_size, config.border_color_active_int->0));
        }
        assert(is_stable_order(order, x_keys(rects_of(made))));
    }

    /// A tiled window comes over from another workspace with its size. It is
    /// placed as a new tiled window is; on a hidden workspace it is unmapped.
    #[verifier::spinoff_prover]
    pub fn handle_existing_normal_window(
        &mut self,
        window: xcb_window_t,
        window_rect: Rect,
        monitor_rect: &Rect,
        config: &Config,
        requests: &mut Vec<XRequest>,
    )
        requires
            old(self).wf(),
            existing_normal_pre(old(self).view(), window, window_rect, *monitor_rect, *config),
        ensures
            final(self).wf(),
            existing_normal_post(old(self).view(), final(self).view(), old(requests)@, final(requests)@, window, window_rect, *monitor_rect, *config),
    {
        let ghost v = self.view();
        let avail_rect = self.available_rectangle(monitor_rect, config);
        let gap = config.inner_gap + config.border_size * 2;
        let ghost pl = v.tiled_placement(avail_rect, window_rect.width, window_rect.height, gap);
        let hidden = !self.is_visible;
        self.insert_tiled(window, &avail_rect, window_rect.width, window_rect.height, gap, hidden);
        let ghost made = with_new_tiled(v, pl, window, hidden);
        let ghost order = choose|order: Seq<usize>|
            #[trigger] is_stable_order(order, x_keys(rects_of(made))) && {
                &&& self.view() == (WorkspaceView { normal: reorder(made, order), ..v })
                &&& has_window(reorder(made, order), window)
            };
        let ghost v1 = self.view();
        let ghost start = requests@;
        let ghost sorted = reorder(made, order);
        let ghost color = config.border_color_active_int->0;
        if self.is_visible {
            proof {
                lemma_reorder_fits(made, order);
            }
            self.finish_tiled(window, Some(*monitor_rect), config, requests);
            proof {
                let area = Some(*monitor_rect);
                assert(tiled_focused(v1, sorted, window, area) == tiled_focused(v, sorted, window, area)) by {
                    reveal(tiled_focused);
                }
                assert(tiled_focused_requests(v1, sorted, window, area, config.border_size, color)
                    == tiled_focused_requests(v, sorted, window, area, config.border_size, color)) by {
                    reveal(tiled_focused_requests);
                }
            }
        } else {
            self.finish_tiled(window, None, config, requests);
            proof {
                let area = None;
                assert(tiled_focused(v1, sorted, window, area) == tiled_focused(v, sorted, window, area)) by {
                    reveal(tiled_focused);
                }
                assert(tiled_focused_requests(v1, sorted, window, area, config.border_size, color)
                    == tiled_focused_requests(v, sorted, window, area, config.border_size, color)) by {
                    reveal(tiled_focused_requests);
                }
            }
        }
        proof {
            let area = if v.is_visible { Some(*monitor_rect) } else { None };
            assert(gap == (config.inner_gap + 2 * config.border_size) as u32);
            assert(made == with_new_tiled(v, v.tiled_placement(
                work_area(v.docked, *monitor_rect, config.outer_gap_horiz, config.outer_gap_vert),
                window_rect.width,
                window_rect.height,
                (config.inner_gap + 2 * config.border_size) as u32,
            ), window, !v.is_visible));
            assert(self.view() == tiled_focused(v, sorted, window, area));
            assert(requests@ == start + tiled_focused_requests(v, sorted, window, area, config.border_size, color));
            assert(start == old(requests)@);
            assert(is_stable_order(order, x_keys(rects_of(made))));
            assert(existing_placed(v, made, window, area, config.border_size, color, self.view(), old(requests)@, requests@));
        }
    }

    /// Configures the tiled windows, shows or hides them by whether they meet
    /// `area` (or, with no area, unmaps `window`), and gives `window` the focus.
    #[verifier::rlimit(40)]
    #[verifier::spinoff_prover]
    fn finish_tiled(&mut self, window: xcb_window_t, area: Option<Rect>, config: &Config, requests: &mut Vec<XRequest>)
        requires
            old(self).wf(),
            config.border_color_active_int is Some,
            has_window(old(self).view().normal, window),
            area matches Some(a) ==> {
                &&& rects_fit(old(self).view().normal)
                &&& in_i32(a.right())
                &&& in_i32(a.bottom())
            },
        ensures
            final(self).wf(),
            final(self).view() == tiled_focused(old(self).view(), old(self).view().normal, window, area),
            final(requests)@ == old(requests)@ + tiled_focused_requests(
                old(self).view(),
                old(self).view().normal,
                window,
                area,
                config.border_size,
                config.border_color_active_int->0,
            ),
    {
        let ghost v = self.view();
        let ghost start = requests@;
        self.show_tiled(window, area, config.border_size, requests);
        let ghost r1 = requests@;
        self.set_focused(window, WindowType::Normal, config, requests);
        self.focused_via_keyboard = true;
        self.reset_dragged_window_state(requests);
        proof {
            reveal(tiled_focused);
            reveal(tiled_focused_requests);
            assert(requests@ =~= start + tiled_focused_requests(v, v.normal, window, area, config.border_size, config.border_color_active_int->0));
        }
    }

    /// Configures the tiled windows, then shows or hides them by whether they
    /// meet `area`, or, with no area, unmaps `window`.
    #[verifier::spinoff_prover]
    fn show_tiled(&mut self, window: xcb_window_t, area: Option<Rect>, border: u32, requests: &mut Vec<XRequest>)
        requires
            old(self).wf(),
            has_window(old(self).view().normal, window),
            area matches Some(a) ==> {
                &&& rects_fit(old(self).view().normal)
                &&& in_i32(a.right())
                &&& in_i32(a.bottom())
            },
        ensures
            final(self).wf(),
            final(self).view() == (WorkspaceView { normal: shown_on(old(self).view().normal, area), ..old(self).view() }),
            has_window(final(self).view().normal, window),
            final(requests)@ == old(requests)@ + configure_requests(old(self).view().normal, border) + (match area {
                Some(a) => visibility_requests(old(self).view().normal, a),
                None => seq![XRequest::UnmapWindow(window)],
            }),
    {
        let ghost v = self.view();
        configure_all(&self.normal, border, requests);
        match area {
            Some(a) => {
                fix_visibility(&mut self.normal, &a, requests);
                proof {
                    let shown = with_visibility(v.normal, a);
                    let j = choose|j: int| 0 <= j < v.normal.len() && #[trigger] v.normal[j].window == window;
                    assert(shown[j].window == window);
                }
            },
            None => {
                requests.push(XRequest::UnmapWindow(window));
            },
        }
    }
}

/// The placement that lays out the `i`-th tiled window after the ones
/// before it, at its own size.
pub open spec fn relayout_placement(prev: Seq<Window>, avail: Rect, gap: u32, i: int) -> Placement {
    Placement {
        parent: avail,
        default_width: prev[i].rect.width,
        default_height: prev[i].rect.height,
        focused_idx: None,
        rects: rects_of(prev).take(i),
        inner_gap: gap,
    }
}

/// The tiled windows after the first `k` of them have been laid out again in
/// turn: each goes after the ones before it, which move as the placement
/// says.
pub open spec fn relaid(ws: Seq<Window>, avail: Rect, gap: u32, k: nat) -> Seq<Window>
    decreases k,
{
    if k == 0 {
        ws
    } else {
        let i = k - 1;
        let prev = relaid(ws, avail, gap, i as nat);
        let (r, move_left, _) = placed(relayout_placement(prev, avail, gap, i));
        moved_x(prev.update(i, Window { rect: r, ..prev[i] }), 0, i, move_left)
    }
}

/// Each step of `relaid` computes without overflow.
pub open spec fn relaid_ok(ws: Seq<Window>, avail: Rect, gap: u32) -> bool {
    forall|k: nat|
        k < ws.len() ==> {
            let prev = #[trigger] relaid(ws, avail, gap, k);
            let pl = relayout_placement(prev, avail, gap, k as int);
            &&& placement_ok(pl)
            &&& moves_fit_x(prev.update(k as int, Window { rect: placed(pl).0, ..prev[k as int] }), 0, k as int, placed(pl).1)
        }
}

/// The tiled windows laid out again and, on a shown workspace, shown or
/// hidden by whether they meet `avail`; no tiled windows, no change.
#[verifier::opaque]
pub open spec fn relaid_shown(ws: Seq<Window>, avail: Rect, gap: u32, visible: bool) -> Seq<Window> {
    let laid = relaid(ws, avail, gap, ws.len());
    if ws.len() == 0 {
        ws
    } else if visible {
        with_visibility(laid, avail)
    } else {
        laid
    }
}

/// The requests of `relaid_shown`.
#[verifier::opaque]
pub open spec fn relaid_requests(ws: Seq<Window>, avail: Rect, gap: u32, visible: bool, border: u32) -> Seq<XRequest> {
    let laid = relaid(ws, avail, gap, ws.len());
    if ws.len() == 0 {
        seq![]
    } else {
        configure_requests(laid, border) + if visible {
            visibility_requests(laid, avail)
        } else {
            seq![]
        }
    }
}

/// `relaid_shown` computes without overflow.
#[verifier::opaque]
pub open spec fn relaid_shown_ok(ws: Seq<Window>, avail: Rect, gap: u32, visible: bool) -> bool {
    &&& relaid_ok(ws, avail, gap)
    &&& visible && ws.len() > 0 ==> {
        &&& rects_fit(relaid(ws, avail, gap, ws.len()))
        &&& in_i32(avail.right())
        &&& in_i32(avail.bottom())
    }
}

/// Lays the windows out again from the left, as `relaid` says.
fn relayout(windows: &mut WindowsCollection, avail: &Rect, gap: u32)
    requires
        old(windows).wf(),
        relaid_ok(old(windows).entries(), *avail, gap),
    ensures
        final(windows).wf(),
        final(windows).entries() == relaid(old(windows).entries(), *avail, gap, old(windows).spec_len()),
{
    let ghost ws = windows.entries();
    let len = windows.len();
    let mut idx: usize = 0;
    while idx < len
        invariant
            windows.wf(),
            windows.spec_len() == len,
            len == ws.len(),
            0 <= idx <= len,
            relaid_ok(ws, *avail, gap),
            windows.entries() == relaid(ws, *avail, gap, idx as nat),
        decreases len - idx,
    {
        proof {
            let k = idx as nat;
            let _ = relaid(ws, *avail, gap, k);
        }
        relayout_step(windows, avail, gap, idx);
        assert(windows.entries().len() == len);
        idx = idx + 1;
    }
}

/// Lays out the `idx`-th window again after the ones before it.
fn relayout_step(windows: &mut WindowsCollection, avail: &Rect, gap: u32, idx: usize)
    requires
        old(windows).wf(),
        idx < old(windows).spec_len(),
        ({
            let prev = old(windows).entries();
            let pl = relayout_placement(prev, *avail, gap, idx as int);
            &&& placement_ok(pl)
            &&& moves_fit_x(prev.update(idx as int, Window { rect: placed(pl).0, ..prev[idx as int] }), 0, idx as int, placed(pl).1)
        }),
    ensures
        final(windows).wf(),
        ({
            let prev = old(windows).entries();
            let (r, move_left, _) = placed(relayout_placement(prev, *avail, gap, idx as int));
            final(windows).entries() == moved_x(prev.update(idx as int, Window { rect: r, ..prev[idx as int] }), 0, idx as int, move_left)
        }),
{
    let ghost prev = windows.entries();
    let current_rect = *windows.index_rect(idx);
    let before = windows.rects_slice(Bound::Included(0), Bound::Excluded(idx));
    assert(before@ =~= rects_of(prev).take(idx as int));
    proof {
        reveal(placed);
        reveal(placement_ok);
    }
    let (expected_rect, move_lhs_by, _) = avail.calc_new_rect_added_after_focused(
        current_rect.width,
        current_rect.height,
        None,
        before,
        gap,
    );
    windows.update_rect_at(idx, expected_rect);
    assert(windows.entries() =~= prev.update(idx as int, Window { rect: expected_rect, ..prev[idx as int] }));
    shift_x(windows, 0, idx, move_lhs_by);
}

impl Workspace {
    /// Lays the tiled windows out again from the left of `avail_rect`,
    /// configures them and, on a shown workspace, shows or hides each by
    /// whether it meets `avail_rect`.
    #[verifier::spinoff_prover]
    fn fix_existing_normal_windows(&mut self, avail_rect: &Rect, config: &Config, requests: &mut Vec<XRequest>)
        requires
            old(self).wf(),
            config.inner_gap + 2 * config.border_size <= u32::MAX,
            relaid_shown_ok(
                old(self).view().normal,
                *avail_rect,
                (config.inner_gap + 2 * config.border_size) as u32,
                old(self).view().is_visible,
            ),
        ensures
            final(self).wf(),
            final(self).view() == (WorkspaceView {
                normal: relaid_shown(old(self).view().normal, *avail_rect, (config.inner_gap + 2 * config.border_size) as u32, old(self).view().is_visible),
                ..old(self).view()
            }),
            final(requests)@ == old(requests)@ + relaid_requests(
                old(self).view().normal,
                *avail_rect,
                (config.inner_gap + 2 * config.border_size) as u32,
                old(self).view().is_visible,
                config.border_size,
            ),
    {
        proof {
            reveal(relaid_shown);
            reveal(relaid_requests);
            reveal(relaid_shown_ok);
        }
        if self.normal.is_empty() {
            assert(self.normal.entries() =~= seq![]);
            return;
        }
        let gap = config.inner_gap + config.border_size * 2;
        relayout(&mut self.normal, avail_rect, gap);
        configure_all(&self.normal, config.border_size, requests);
        if self.is_visible {
            fix_visibility(&mut self.normal, avail_rect, requests);
        } else {
            assert(requests@ =~= old(requests)@ + configure_requests(self.normal.entries(), config.border_size) + seq![]);
        }
    }
}

/// What giving the focus to the `i`-th window of kind `t` does, if there is
/// one: the state and the requests.
pub open spec fn focus_at(v: WorkspaceView, t: WindowType, i: int, color: u32) -> (WorkspaceView, Seq<XRequest>) {
    if 0 <= i < v.of_type(t).len() {
        (
            WorkspaceView { focused_idx: i as nat, focused_type: t, ..v },
            focus_requests(v.of_type(t)[i].window, t, v.is_visible, color),
        )
    } else {
        (v, seq![])
    }
}

/// The focus after a tiled window left: the tiled window at `i`, else the
/// first floating window, else unchanged.
pub open spec fn refocus_tiled(v: WorkspaceView, i: int, color: u32) -> (WorkspaceView, Seq<XRequest>) {
    if i < v.normal.len() {
        focus_at(v, WindowType::Normal, i, color)
    } else if v.floating.len() > 0 {
        focus_at(v, WindowType::Floating, 0, color)
    } else {
        (v, seq![])
    }
}

/// `refocus_tiled` gives a window the focus: there is a tiled window at `i`,
/// or a floating window.
pub open spec fn refocuses_tiled(v: WorkspaceView, i: int) -> bool {
    &&& 0 <= i
    &&& (i < v.normal.len() || v.floating.len() > 0)
}

/// Removing the focused floating window gives another window the focus, as
/// `popped_floating` says.
pub open spec fn pop_floating_focuses(v: WorkspaceView, avail: Rect) -> bool {
    let f = v.focused_idx as int;
    let fl = v.floating.remove(f);
    let i = previous_position(f);
    if i < fl.len() {
        f < fl.len()
    } else {
        v.normal.len() > 0 && any_meets(v.normal, avail) && i < v.normal.len()
    }
}

/// Removing the focused window gives another window the focus.
pub open spec fn pop_focuses(v: WorkspaceView, avail: Rect) -> bool {
    let f = v.focused_idx as int;
    if v.focused_type == WindowType::Normal && f < v.normal.len() {
        refocuses_tiled(WorkspaceView { normal: v.normal.remove(f), ..v }, previous_position(f))
    } else if v.focused_type == WindowType::Floating && f < v.floating.len() {
        pop_floating_focuses(v, avail)
    } else {
        false
    }
}

/// The position focus falls back to when the window at `f` leaves.
pub open spec fn previous_position(f: int) -> int {
    if f > 0 {
        f - 1
    } else {
        f
    }
}

/// Some window meets `area`.
pub open spec fn any_meets(ws: Seq<Window>, area: Rect) -> bool {
    exists|i: int| 0 <= i < ws.len() && #[trigger] ws[i].rect.spec_intersects(area)
}

/// Testing each window against `area`, and measuring the distance of those
/// that meet it, computes without overflow.
pub open spec fn meets_ok(ws: Seq<Window>, area: Rect) -> bool {
    &&& rects_fit(ws)
    &&& in_i32(area.right())
    &&& in_i32(area.bottom())
    &&& forall|i: int| 0 <= i < ws.len() && #[trigger] ws[i].rect.spec_intersects(area) ==> ws[i].rect.distance_ok(area)
}

/// Position of the window that meets `area` with its centre closest to
/// `area`'s, or the number of windows when none meets it.
fn closest_meeting(windows: &WindowsCollection, area: &Rect) -> (res: usize)
    requires
        windows.wf(),
        meets_ok(windows.entries(), *area),
    ensures
        res <= windows.spec_len(),
        (res < windows.spec_len()) == any_meets(windows.entries(), *area),
{
    let ghost ws = windows.entries();
    let rects = windows.rect_iter();
    let len = windows.len();
    let mut closest_dist: i32 = i32::MAX;
    let mut closest_idx: usize = len;
    let mut idx: usize = 0;
    while idx < len
        invariant
            len == ws.len(),
            rects@.len() == len,
            forall|k: int| 0 <= k < len ==> #[trigger] rects@[k] == ws[k].rect,
            meets_ok(ws, *area),
            0 <= idx <= len,
            closest_idx <= len,
            closest_idx == len ==> closest_dist == i32::MAX,
            (closest_idx < len) == exists|j: int| 0 <= j < idx && #[trigger] ws[j].rect.spec_intersects(*area),
        decreases len - idx,
    {
        let rect = &rects[idx];
        assert(*rect == ws[idx as int].rect);
        assert(in_i32(ws[idx as int].rect.right()) && in_i32(ws[idx as int].rect.bottom()));
        if rect.intersects_with(area) {
            let d = rect.distance_between_centers(area);
            proof {
                let n = rect.center_dist_sq(*area);
                assert(d < i32::MAX) by (nonlinear_arith)
                    requires
                        0 <= d,
                        d * d <= n,
                        n <= i32::MAX,
                ;
            }
            let current_dist = abs_i32(d);
            if closest_dist > current_dist {
                closest_dist = current_dist;
                closest_idx = idx;
            }
        }
        idx = idx + 1;
    }
    closest_idx
}

/// The state and the requests once the focused tiled window has left: focus
/// falls back to the tiled window before it, else to the first floating
/// window; the tiled windows are laid out again in `avail`.
pub open spec fn popped_tiled(v: WorkspaceView, avail: Rect, gap: u32, border: u32, color: u32) -> (WorkspaceView, Seq<XRequest>) {
    let f = v.focused_idx as int;
    let ws = v.normal.remove(f);
    let (v2, focus_reqs) = refocus_tiled(WorkspaceView { normal: ws, ..v }, previous_position(f), color);
    (
        WorkspaceView {
            normal: relaid_shown(ws, avail, gap, v.is_visible),
            focused_via_keyboard: true,
            dragged_window: None,
            ..v2
        },
        focus_reqs + relaid_requests(ws, avail, gap, v.is_visible, border) + ungrab_requests(v.dragged_window),
    )
}

/// `popped_tiled` computes without overflow.
pub open spec fn popped_tiled_ok(v: WorkspaceView, avail: Rect, gap_fits: bool, gap: u32) -> bool {
    &&& gap_fits
    &&& relaid_shown_ok(v.normal.remove(v.focused_idx as int), avail, gap, v.is_visible)
}

/// The state and the requests once the focused floating window has left.
/// While floating windows remain after it, the focus goes to the floating
/// window now at its position, if any. Otherwise, if a tiled window meets
/// `avail`, the focus goes to the tiled window at the position before it, and
/// the tiled windows are laid out again.
pub open spec fn popped_floating(v: WorkspaceView, avail: Rect, gap: u32, border: u32, color: u32) -> (WorkspaceView, Seq<XRequest>) {
    let f = v.focused_idx as int;
    let fl = v.floating.remove(f);
    let v1 = WorkspaceView { floating: fl, ..v };
    let i = previous_position(f);
    if i < fl.len() {
        let (v2, reqs) = focus_at(v1, WindowType::Floating, f, color);
        (WorkspaceView { dragged_window: None, ..v2 }, reqs + ungrab_requests(v.dragged_window))
    } else if v.normal.len() > 0 && any_meets(v.normal, avail) {
        let (v2, reqs) = focus_at(v1, WindowType::Normal, i, color);
        (
            WorkspaceView {
                normal: relaid_shown(v.normal, avail, gap, v.is_visible),
                focused_via_keyboard: true,
                dragged_window: None,
                ..v2
            },
            reqs + relaid_requests(v.normal, avail, gap, v.is_visible, border) + ungrab_requests(v.dragged_window),
        )
    } else {
        (WorkspaceView { dragged_window: None, ..v1 }, ungrab_requests(v.dragged_window))
    }
}

/// `popped_floating` computes without overflow.
pub open spec fn popped_floating_ok(v: WorkspaceView, avail: Rect, gap_fits: bool, gap: u32) -> bool {
    let f = v.focused_idx as int;
    let fl = v.floating.remove(f);
    !(previous_position(f) < fl.len()) && v.normal.len() > 0 ==> {
        &&& meets_ok(v.normal, avail)
        &&& any_meets(v.normal, avail) ==> gap_fits && relaid_shown_ok(v.normal, avail, gap, v.is_visible)
    }
}

impl Workspace {
    /// Removes the focused tiled window at `f`; focus falls back to the tiled
    /// window before it, else to the first floating window; the tiled windows
    /// are laid out again.
    #[verifier::spinoff_prover]
    #[verifier::rlimit(40)]
    fn pop_normal(&mut self, avail_rect: &Rect, config: &Config, requests: &mut Vec<XRequest>) -> (res: (xcb_window_t, Rect))
        requires
            old(self).wf(),
            old(self).view().focused_idx < old(self).view().normal.len(),
            refocuses_tiled(
                WorkspaceView {
                    normal: old(self).view().normal.remove(old(self).view().focused_idx as int),
                    ..old(self).view()
                },
                previous_position(old(self).view().focused_idx as int),
            ) ==> config.border_color_active_int is Some,
            popped_tiled_ok(
                old(self).view(),
                *avail_rect,
                config.inner_gap + 2 * config.border_size <= u32::MAX,
                (config.inner_gap + 2 * config.border_size) as u32,
            ),
        ensures
            final(self).wf(),
            ({
                let v = old(self).view();
                let f = v.focused_idx as int;
                let (after, reqs) = popped_tiled(
                    v,
                    *avail_rect,
                    (config.inner_gap + 2 * config.border_size) as u32,
                    config.border_size,
                    config.border_color_active_int->0,
                );
                &&& res == (v.normal[f].window, v.normal[f].rect)
                &&& final(self).view() == after
                &&& final(requests)@ == old(requests)@ + reqs
            }),
    {
        let ghost v = self.view();
        let ghost start = requests@;
        let (removed_window, removed_window_rect, _) = self.normal.remove_at(self.focused_idx);
        assert(self.normal.entries() =~= v.normal.remove(v.focused_idx as int));
        let new_focused_idx = if self.focused_idx > 0 {
            self.focused_idx - 1
        } else {
            self.focused_idx
        };
        self.refocus_tiled(new_focused_idx, config, requests);
        let ghost r1 = requests@;
        self.fix_existing_normal_windows(avail_rect, config, requests);
        let ghost r2 = requests@;
        self.focused_via_keyboard = true;
        self.reset_dragged_window_state(requests);
        assert(requests@ =~= start + r1.subrange(start.len() as int, r1.len() as int)
            + r2.subrange(r1.len() as int, r2.len() as int) + ungrab_requests(v.dragged_window));
        (removed_window, removed_window_rect)
    }
}

impl Workspace {
    /// Gives the focus to the tiled window at `i`, else to the first floating
    /// window, if there is one.
    fn refocus_tiled(&mut self, i: usize, config: &Config, requests: &mut Vec<XRequest>)
        requires
            old(self).wf(),
            refocuses_tiled(old(self).view(), i as int) ==> config.border_color_active_int is Some,
        ensures
            final(self).wf(),
            final(self).view() == refocus_tiled(old(self).view(), i as int, config.border_color_active_int->0).0,
            final(requests)@ == old(requests)@ + refocus_tiled(old(self).view(), i as int, config.border_color_active_int->0).1,
    {
        if i < self.normal.len() {
            self.set_focused_by_index(i, WindowType::Normal, config, requests);
        } else if !self.floating.is_empty() {
            self.set_focused_by_index(0, WindowType::Floating, config, requests);
        }
    }
}

impl Workspace {
    /// Removes the focused floating window, as `popped_floating` says.
    #[verifier::spinoff_prover]
    fn pop_floating(&mut self, avail_rect: &Rect, config: &Config, requests: &mut Vec<XRequest>) -> (res: (xcb_window_t, Rect))
        requires
            old(self).wf(),
            pop_floating_focuses(old(self).view(), *avail_rect) ==> config.border_color_active_int is Some,
            old(self).view().focused_idx < old(self).view().floating.len(),
            old(self).view().focused_type == WindowType::Floating,
            popped_floating_ok(
                old(self).view(),
                *avail_rect,
                config.inner_gap + 2 * config.border_size <= u32::MAX,
                (config.inner_gap + 2 * config.border_size) as u32,
            ),
        ensures
            final(self).wf(),
            ({
                let v = old(self).view();
                let f = v.focused_idx as int;
                let (after, reqs) = popped_floating(
                    v,
                    *avail_rect,
                    (config.inner_gap + 2 * config.border_size) as u32,
                    config.border_size,
                    config.border_color_active_int->0,
                );
                &&& res == (v.floating[f].window, v.floating[f].rect)
                &&& final(self).view() == after
                &&& final(requests)@ == old(requests)@ + reqs
            }),
    {
        let ghost v = self.view();
        let ghost start = requests@;
        let (removed_window, removed_window_rect, _) = self.floating.remove_at(self.focused_idx);
        assert(self.floating.entries() =~= v.floating.remove(v.focused_idx as int));
        let new_focused_idx = if self.focused_idx > 0 {
            self.focused_idx - 1
        } else {
            self.focused_idx
        };
        if new_focused_idx < self.floating.len() {
            self.set_focused_by_index(self.focused_idx, WindowType::Floating, config, requests);
        } else if !self.normal.is_empty() {
            let closest_idx = closest_meeting(&self.normal, avail_rect);
            if closest_idx < self.normal.len() {
                self.set_focused_by_index(new_focused_idx, WindowType::Normal, config, requests);
                let ghost r1 = requests@;
                self.fix_existing_normal_windows(avail_rect, config, requests);
                self.focused_via_keyboard = true;
                assert(requests@ =~= r1 + relaid_requests(v.normal, *avail_rect,
                    (config.inner_gap + 2 * config.border_size) as u32, v.is_visible, config.border_size));
            }
        }
        let ghost r2 = requests@;
        self.reset_dragged_window_state(requests);
        assert(requests@ =~= r2 + ungrab_requests(v.dragged_window));
        (removed_window, removed_window_rect)
    }

    /// The focused window leaves the workspace; it is returned with its
    /// rectangle and kind. A docked window does not leave this way.
    #[verifier::spinoff_prover]
    pub fn pop_focused_window(
        &mut self,
        monitor_rect: &Rect,
        config: &Config,
        requests: &mut Vec<XRequest>,
    ) -> (res: Option<(xcb_window_t, Rect, WindowType)>)
        requires
            old(self).wf(),
            pop_focused_pre(old(self).view(), *monitor_rect, *config),
        ensures
            final(self).wf(),
            pop_focused_post(old(self).view(), final(self).view(), old(requests)@, final(requests)@, *monitor_rect, *config, res),
            final(self).view().id == old(self).view().id,
    {
        let avail_rect = self.available_rectangle(monitor_rect, config);
        if self.focused_type == WindowType::Normal && self.focused_idx < self.normal.len() {
            let (w, r) = self.pop_normal(&avail_rect, config, requests);
            Some((w, r, WindowType::Normal))
        } else if self.focused_type == WindowType::Floating && self.focused_idx < self.floating.len() {
            let (w, r) = self.pop_floating(&avail_rect, config, requests);
            Some((w, r, WindowType::Floating))
        } else {
            None
        }
    }
}

/// The docked windows moved down by `dy` and each magnified, in turn, to its
/// side of what is left of `area`; with what is left of `area` at the end.
pub open spec fn redocked(ws: Seq<Window>, area: Rect, dy: int) -> (Seq<Window>, Rect)
    decreases ws.len(),
{
    if ws.len() == 0 {
        (seq![], area)
    } else {
        let (prev, a) = redocked(ws.drop_last(), area, dy);
        let w = ws.last();
        let m = magnified(a, Rect { y: (w.rect.y + dy) as i32, ..w.rect });
        (prev.push(Window { rect: m, ..w }), available_after(a, m))
    }
}

/// Each step of `redocked` computes without overflow.
pub open spec fn redocked_ok(ws: Seq<Window>, area: Rect, dy: int) -> bool {
    forall|i: int|
        0 <= i < ws.len() ==> {
            let a = (#[trigger] redocked(ws.take(i), area, dy)).1;
            let moved = Rect { y: (ws[i].rect.y + dy) as i32, ..ws[i].rect };
            &&& in_i32(ws[i].rect.y + dy)
            &&& magnified_ok(a, moved)
            &&& available_after_ok(a, magnified(a, moved))
        }
}

/// Moves the docked windows down by `dy` and magnifies each to its side of
/// what is left of `area`, as `redocked` says; returns what is left.
fn redock(windows: &mut WindowsCollection, area: Rect, dy: i32) -> (left: Rect)
    requires
        old(windows).wf(),
        redocked_ok(old(windows).entries(), area, dy as int),
    ensures
        final(windows).wf(),
        final(windows).entries() == redocked(old(windows).entries(), area, dy as int).0,
        left == redocked(old(windows).entries(), area, dy as int).1,
{
    let ghost ws = windows.entries();
    let len = windows.len();
    let mut avail_rect = area;
    let mut i: usize = 0;
    while i < len
        invariant
            windows.wf(),
            windows.spec_len() == len,
            len == ws.len(),
            0 <= i <= len,
            redocked_ok(ws, area, dy as int),
            avail_rect == redocked(ws.take(i as int), area, dy as int).1,
            forall|k: int| 0 <= k < len ==> #[trigger] windows.entries()[k] == if k < i {
                redocked(ws.take(i as int), area, dy as int).0[k]
            } else {
                ws[k]
            },
            redocked(ws.take(i as int), area, dy as int).0.len() == i,
        decreases len - i,
    {
        let ghost before = windows.entries();
        let ghost prev = redocked(ws.take(i as int), area, dy as int);
        assert(ws.take(i + 1).drop_last() =~= ws.take(i as int));
        assert(ws.take(i + 1).last() == ws[i as int]);
        assert(before[i as int] == ws[i as int]);
        let r = windows.index_rect_mut(i);
        r.y = r.y + dy;
        let new_rect = avail_rect.new_rect_magnified(r);
        *r = new_rect;
        avail_rect = avail_rect.available_rect_after_adding_rect(&new_rect);
        assert forall|k: int| 0 <= k < len implies #[trigger] windows.entries()[k] == if k < i + 1 {
            redocked(ws.take(i + 1), area, dy as int).0[k]
        } else {
            ws[k]
        } by {
            if k != i {
                assert(windows.entries()[k] == before[k]);
            }
        }
        i = i + 1;
    }
    assert(ws.take(len as int) =~= ws);
    assert(windows.entries() =~= redocked(ws, area, dy as int).0);
    avail_rect
}

/// The windows shown again start below the monitor: the first tiled window
/// (else the first docked, else the first floating one) is below its top.
pub open spec fn starts_below(v: WorkspaceView, monitor: Rect) -> bool {
    if v.normal.len() > 0 {
        v.normal[0].rect.y > monitor.y
    } else if v.docked.len() > 0 {
        v.docked[0].rect.y > monitor.y
    } else {
        v.floating[0].rect.y > monitor.y
    }
}

/// How far the windows shown again move: a monitor's height up when they are
/// below, down otherwise.
pub open spec fn show_shift(v: WorkspaceView, monitor: Rect) -> int {
    if starts_below(v, monitor) {
        -signed(monitor.height)
    } else {
        signed(monitor.height)
    }
}

/// Position of the focused window among `n` of its kind, or the first.
pub open spec fn kept_position(f: nat, n: nat) -> int {
    if f < n {
        f as int
    } else {
        0
    }
}

/// The settings `show_all_windows` reads.
pub struct ShowSettings {
    pub monitor: Rect,
    pub gap_h: u32,
    pub gap_v: u32,
    pub gap: u32,
    pub border: u32,
    pub color: u32,
}

/// Shows the docked windows again: each is moved back, magnified to its side
/// and mapped; a focused docked window gets the focus again.
#[verifier::opaque]
pub open spec fn show_docked(v: WorkspaceView, s: ShowSettings) -> (WorkspaceView, Seq<XRequest>, Rect) {
    let dy = show_shift(v, s.monitor);
    let (dk, avail) = redocked(v.docked, gapped_area(s.monitor, s.gap_h, s.gap_v), dy);
    let v1 = WorkspaceView { docked: dk, ..v };
    let reqs1 = per_window(dk, configure_toggle(s.border, true));
    if v.focused_type == WindowType::Docked && dk.len() > 0 {
        let w = dk[kept_position(v.focused_idx, dk.len())].window;
        (v1.focused_on(WindowType::Docked, w), reqs1 + focus_requests(w, WindowType::Docked, true, s.color), avail)
    } else {
        (v1, reqs1, avail)
    }
}

/// Shows the tiled windows again: moved back, configured, mapped where shown,
/// laid out again in `avail`; a focused tiled window gets the focus again.
#[verifier::opaque]
pub open spec fn show_tiled_again(v: WorkspaceView, s: ShowSettings, avail: Rect, dy: int) -> (WorkspaceView, Seq<XRequest>) {
    let nm = moved_y(v.normal, dy);
    let v1 = WorkspaceView { normal: relaid_shown(nm, avail, s.gap, true), ..v };
    let reqs = per_window(nm, configure_then(s.border, true)) + relaid_requests(nm, avail, s.gap, true, s.border);
    if v.focused_type == WindowType::Normal && nm.len() > 0 {
        let (v2, r2) = focus_at(v1, WindowType::Normal, kept_position(v.focused_idx, nm.len()), s.color);
        (v2, reqs + r2)
    } else {
        (v1, reqs)
    }
}

/// Shows the floating windows again: moved back, configured, mapped where
/// shown; a focused floating window gets the focus again.
#[verifier::opaque]
pub open spec fn show_floating_again(v: WorkspaceView, s: ShowSettings, dy: int) -> (WorkspaceView, Seq<XRequest>) {
    let fm = moved_y(v.floating, dy);
    let v1 = WorkspaceView { floating: fm, ..v };
    let reqs = per_window(fm, configure_then(s.border, true));
    if v.focused_type == WindowType::Floating && fm.len() > 0 {
        let (v2, r2) = focus_at(v1, WindowType::Floating, kept_position(v.focused_idx, fm.len()), s.color);
        (v2, reqs + r2)
    } else {
        (v1, reqs)
    }
}

/// The state and the requests of `show_all_windows` on a hidden workspace
/// with windows.
pub open spec fn shown_again(v: WorkspaceView, s: ShowSettings) -> (WorkspaceView, Seq<XRequest>) {
    let dy = show_shift(v, s.monitor);
    let v0 = WorkspaceView { is_visible: true, ..v };
    let (v1, r1, avail) = show_docked(v0, s);
    let (v2, r2) = show_tiled_again(v1, s, avail, dy);
    let (v3, r3) = show_floating_again(v2, s, dy);
    (
        WorkspaceView { focused_via_keyboard: true, dragged_window: None, ..v3 },
        r1 + r2 + r3 + ungrab_requests(v.dragged_window),
    )
}

/// `shown_again` computes without overflow.
pub open spec fn shown_again_ok(v: WorkspaceView, s: ShowSettings, gap_fits: bool) -> bool {
    let dy = show_shift(v, s.monitor);
    let avail = redocked(v.docked, gapped_area(s.monitor, s.gap_h, s.gap_v), dy).1;
    &&& in_i32(dy)
    &&& gapped_area_ok(s.monitor, s.gap_h, s.gap_v)
    &&& redocked_ok(v.docked, gapped_area(s.monitor, s.gap_h, s.gap_v), dy)
    &&& moves_fit_y(v.normal, dy)
    &&& moves_fit_y(v.floating, dy)
    &&& gap_fits
    &&& relaid_shown_ok(moved_y(v.normal, dy), avail, s.gap, true)
}

/// Laying the windows out again keeps their number.
pub proof fn lemma_relaid_len(ws: Seq<Window>, avail: Rect, gap: u32, k: nat)
    requires
        k <= ws.len(),
    ensures
        relaid(ws, avail, gap, k).len() == ws.len(),
    decreases k,
{
    if k > 0 {
        lemma_relaid_len(ws, avail, gap, (k - 1) as nat);
    }
}

/// Moving the docked windows back keeps their number.
pub proof fn lemma_redocked_len(ws: Seq<Window>, area: Rect, dy: int)
    ensures
        redocked(ws, area, dy).0.len() == ws.len(),
    decreases ws.len(),
{
    if ws.len() > 0 {
        lemma_redocked_len(ws.drop_last(), area, dy);
    }
}

impl Workspace {
    /// The step of `show_all_windows` on the docked windows.
    #[verifier::spinoff_prover]
    fn show_docked(&mut self, dy: i32, s: Ghost<ShowSettings>, monitor_rect: &Rect, config: &Config, requests: &mut Vec<XRequest>) -> (avail: Rect)
        requires
            old(self).wf(),
            s@.monitor == *monitor_rect,
            s@.gap_h == config.outer_gap_horiz,
            s@.gap_v == config.outer_gap_vert,
            s@.border == config.border_size,
            config.border_color_active_int->0 == s@.color,
            old(self).view().focused_type == WindowType::Docked && old(self).view().docked.len() > 0
                ==> config.border_color_active_int is Some,
            dy == show_shift(old(self).view(), *monitor_rect),
            old(self).view().is_visible,
            gapped_area_ok(*monitor_rect, config.outer_gap_horiz, config.outer_gap_vert),
            redocked_ok(old(self).view().docked, gapped_area(*monitor_rect, config.outer_gap_horiz, config.outer_gap_vert), dy as int),
        ensures
            final(self).wf(),
            final(self).view() == show_docked(old(self).view(), s@).0,
            final(requests)@ == old(requests)@ + show_docked(old(self).view(), s@).1,
            avail == show_docked(old(self).view(), s@).2,
            avail == redocked(
                old(self).view().docked,
                gapped_area(*monitor_rect, config.outer_gap_horiz, config.outer_gap_vert),
                dy as int,
            ).1,
            final(self).view().is_visible == old(self).view().is_visible,
            final(self).view().normal == old(self).view().normal,
            final(self).view().floating == old(self).view().floating,
            final(self).view().focused_type == old(self).view().focused_type,
            final(self).view().dragged_window == old(self).view().dragged_window,
    {
        let ghost v = self.view();
        let avail_rect = Rect {
            x: monitor_rect.x + to_i32(config.outer_gap_horiz),
            y: monitor_rect.y + to_i32(config.outer_gap_vert),
            width: monitor_rect.width - config.outer_gap_horiz * 2,
            height: monitor_rect.height - config.outer_gap_vert * 2,
        };
        assert(avail_rect == gapped_area(*monitor_rect, config.outer_gap_horiz, config.outer_gap_vert));
        let avail_rect = redock(&mut self.docked, avail_rect, dy);
        configure_toggle_all(&self.docked, config.border_size, true, requests);
        let ghost v1 = self.view();
        let ghost r1 = requests@;
        self.refocus_docked(config, requests);
        proof {
            reveal(show_docked);
            lemma_redocked_len(v.docked, gapped_area(*monitor_rect, config.outer_gap_horiz, config.outer_gap_vert), dy as int);
            assert(v1 == WorkspaceView { docked: v1.docked, ..v });
        }
        avail_rect
    }

    /// A focused docked window gets the focus again: the one at the focused
    /// position, or the first.
    fn refocus_docked(&mut self, config: &Config, requests: &mut Vec<XRequest>)
        requires
            old(self).wf(),
            old(self).view().focused_type == WindowType::Docked && old(self).view().docked.len() > 0
                ==> config.border_color_active_int is Some,
        ensures
            final(self).wf(),
            ({
                let v = old(self).view();
                let dk = v.docked;
                if v.focused_type == WindowType::Docked && dk.len() > 0 {
                    let w = dk[kept_position(v.focused_idx, dk.len())].window;
                    &&& final(self).view() == v.focused_on(WindowType::Docked, w)
                    &&& final(requests)@ == old(requests)@ + focus_requests(w, WindowType::Docked, v.is_visible, config.border_color_active_int->0)
                } else {
                    final(self).view() == v && final(requests)@ == old(requests)@
                }
            }),
    {
        if self.focused_type == WindowType::Docked && !self.docked.is_empty() {
            let focused_idx = if self.focused_idx < self.docked.len() {
                self.focused_idx
            } else {
                0
            };
            let window = self.docked.index_window(focused_idx);
            proof {
                let dk = self.view().docked;
                assert(dk[focused_idx as int].window == window);
            }
            self.set_focused(window, WindowType::Docked, config, requests);
        }
    }

    /// The step of `show_all_windows` on the tiled windows.
    #[verifier::spinoff_prover]
    fn show_tiled_again(&mut self, dy: i32, s: Ghost<ShowSettings>, avail_rect: &Rect, config: &Config, requests: &mut Vec<XRequest>)
        requires
            old(self).wf(),
            s@.border == config.border_size,
            s@.gap == (config.inner_gap + 2 * config.border_size) as u32,
            config.inner_gap + 2 * config.border_size <= u32::MAX,
            config.border_color_active_int->0 == s@.color,
            old(self).view().focused_type == WindowType::Normal && old(self).view().normal.len() > 0
                ==> config.border_color_active_int is Some,
            old(self).view().is_visible,
            moves_fit_y(old(self).view().normal, dy as int),
            relaid_shown_ok(moved_y(old(self).view().normal, dy as int), *avail_rect, s@.gap, true),
        ensures
            final(self).wf(),
            final(self).view() == show_tiled_again(old(self).view(), s@, *avail_rect, dy as int).0,
            final(requests)@ == old(requests)@ + show_tiled_again(old(self).view(), s@, *avail_rect, dy as int).1,
            final(self).view().is_visible == old(self).view().is_visible,
            final(self).view().floating == old(self).view().floating,
            final(self).view().dragged_window == old(self).view().dragged_window,
            final(self).view().focused_type == old(self).view().focused_type,
    {
        let ghost v = self.view();
        shift_y_configure(&mut self.normal, dy, config.border_size, true, requests);
        self.fix_existing_normal_windows(avail_rect, config, requests);
        proof {
            let nm = moved_y(v.normal, dy as int);
            reveal(relaid_shown);
            lemma_relaid_len(nm, *avail_rect, s@.gap, nm.len());
            assert(self.view().normal.len() == v.normal.len());
        }
        if self.focused_type == WindowType::Normal && !self.normal.is_empty() {
            let focused_idx = if self.focused_idx < self.normal.len() {
                self.focused_idx
            } else {
                0
            };
            self.set_focused_by_index(focused_idx, WindowType::Normal, config, requests);
        }
        proof {
            reveal(relaid_shown);
            reveal(show_tiled_again);
            let nm = moved_y(v.normal, dy as int);
            lemma_relaid_len(nm, *avail_rect, s@.gap, nm.len());
        }
    }

    /// The step of `show_all_windows` on the floating windows.
    #[verifier::spinoff_prover]
    fn show_floating_again(&mut self, dy: i32, s: Ghost<ShowSettings>, config: &Config, requests: &mut Vec<XRequest>)
        requires
            old(self).wf(),
            s@.border == config.border_size,
            config.border_color_active_int->0 == s@.color,
            old(self).view().focused_type == WindowType::Floating && old(self).view().floating.len() > 0
                ==> config.border_color_active_int is Some,
            old(self).view().is_visible,
            moves_fit_y(old(self).view().floating, dy as int),
        ensures
            final(self).wf(),
            final(self).view() == show_floating_again(old(self).view(), s@, dy as int).0,
            final(requests)@ == old(requests)@ + show_floating_again(old(self).view(), s@, dy as int).1,
            final(self).view().dragged_window == old(self).view().dragged_window,
    {
        shift_y_configure(&mut self.floating, dy, config.border_size, true, requests);
        if self.focused_type == WindowType::Floating && !self.floating.is_empty() {
            let focused_idx = if self.focused_idx < self.floating.len() {
                self.focused_idx
            } else {
                0
            };
            self.set_focused_by_index(focused_idx, WindowType::Floating, config, requests);
        }
        proof {
            reveal(show_floating_again);
        }
    }

    /// The workspace is switched to: its windows move back a monitor's height
    /// onto the monitor, the docked windows take their sides again, the tiled
    /// windows are laid out again, and the focused window gets the focus.
    #[verifier::spinoff_prover]
    #[verifier::rlimit(30)]
    pub fn show_all_windows(&mut self, monitor_rect: &Rect, config: &Config, requests: &mut Vec<XRequest>)
        requires
            old(self).wf(),
            show_all_pre(old(self).view(), *monitor_rect, *config),
        ensures
            final(self).wf(),
            show_all_post(old(self).view(), final(self).view(), old(requests)@, final(requests)@, *monitor_rect, *config),
    {
        if self.is_visible {
            return;
        }
        let ghost v = self.view();
        let ghost s = ShowSettings {
            monitor: *monitor_rect,
            gap_h: config.outer_gap_horiz,
            gap_v: config.outer_gap_vert,
            gap: (config.inner_gap + 2 * config.border_size) as u32,
            border: config.border_size,
            color: config.border_color_active_int->0,
        };
        self.is_visible = true;
        if self.normal.is_empty() && self.floating.is_empty() && self.docked.is_empty() {
            return;
        }
        let is_below = if !self.normal.is_empty() {
            self.normal.index_rect(0).y > monitor_rect.y
        } else if !self.docked.is_empty() {
            self.docked.index_rect(0).y > monitor_rect.y
        } else {
            self.floating.index_rect(0).y > monitor_rect.y
        };
        let height = to_i32(monitor_rect.height);
        let move_y = if is_below {
            -height
        } else {
            height
        };
        let ghost v0 = self.view();
        assert(v0 == WorkspaceView { is_visible: true, ..v });
        assert(show_shift(v0, *monitor_rect) == show_shift(v, *monitor_rect));
        let ghost start = requests@;
        let avail_rect = self.show_docked(move_y, Ghost(s), monitor_rect, config, requests);
        let ghost v1 = self.view();
        let ghost r1 = requests@;
        self.show_tiled_again(move_y, Ghost(s), &avail_rect, config, requests);
        let ghost v2 = self.view();
        let ghost r2 = requests@;
        self.show_floating_again(move_y, Ghost(s), config, requests);
        let ghost r3 = requests@;
        self.focused_via_keyboard = true;
        self.reset_dragged_window_state(requests);
        proof {
            let d = show_docked(v0, s);
            let t = show_tiled_again(d.0, s, d.2, move_y as int);
            let f = show_floating_again(t.0, s, move_y as int);
            assert(v1 == d.0);
            assert(v2 == t.0);
            assert(requests@ =~= start + d.1 + t.1 + f.1 + ungrab_requests(v.dragged_window));
        }
    }
}

/// What `handle_new_docked_window` needs of the state and its arguments.
pub open spec fn new_docked_pre(v: WorkspaceView, window: xcb_window_t, partial_strut: Rect, monitor_rect: Rect) -> bool {
    &&& magnified_ok(monitor_rect, partial_strut)
}

/// What `handle_new_docked_window` does: the state `after` and the requests `r1` that
/// follow from the state `v` and the requests `r0`.
pub open spec fn new_docked_post(v: WorkspaceView, after: WorkspaceView, r0: Seq<XRequest>, r1: Seq<XRequest>, window: xcb_window_t, partial_strut: Rect, monitor_rect: Rect) -> bool {
    let r = magnified(monitor_rect, partial_strut);
    &&& after == (WorkspaceView {
        docked: v.docked.push(Window { window, rect: r, visible: true }),
        dragged_window: None,
        ..v
    })
    &&& r1 =~= r0 + seq![
        XRequest::Configure { window, rect: r, border: 0 },
        XRequest::MapWindow(window),
    ] + ungrab_requests(v.dragged_window)
}

/// What `hide_all_windows` needs of the state and its arguments.
pub open spec fn hide_all_pre(v: WorkspaceView, monitor_rect: Rect, config: Config, hide_below: bool) -> bool {
    &&& v.is_visible ==> {
            let dy = hide_shift(monitor_rect.height, hide_below);
            &&& in_i32(dy)
            &&& moves_fit_y(v.normal, dy)
            &&& moves_fit_y(v.floating, dy)
            &&& moves_fit_y(v.docked, dy)
        }
}

/// What `hide_all_windows` does: the state `after` and the requests `r1` that
/// follow from the state `v` and the requests `r0`.
pub open spec fn hide_all_post(v: WorkspaceView, after: WorkspaceView, r0: Seq<XRequest>, r1: Seq<XRequest>, monitor_rect: Rect, config: Config, hide_below: bool) -> bool {
    &&& !v.is_visible ==> after == v && r1 =~= r0
    &&& v.is_visible ==> {
            let dy = hide_shift(monitor_rect.height, hide_below);
            let border = config.border_size;
            &&& after == (WorkspaceView {
                is_visible: false,
                normal: moved_y(v.normal, dy),
                floating: moved_y(v.floating, dy),
                docked: moved_y(v.docked, dy),
                dragged_window: None,
                ..v
            })
            &&& r1 =~= r0
                + per_window(moved_y(v.normal, dy), configure_then(border, false))
                + per_window(moved_y(v.floating, dy), configure_then(border, false))
                + per_window(moved_y(v.docked, dy), configure_toggle(border, false))
                + ungrab_requests(v.dragged_window)
        }
}

/// What `handle_motion_notify` does: the state `after` and the requests `r1` that
/// follow from the state `v` and the requests `r0`.
pub open spec fn motion_notify_post(v: WorkspaceView, after: WorkspaceView, r0: Seq<XRequest>, r1: Seq<XRequest>, state: u32) -> bool {
    &&& !(has_mask(state, XCB_MOD_MASK_1) && has_mask(state, XCB_BUTTON_MASK_1)) ==> {
            &&& after == (WorkspaceView { dragged_window: None, ..v })
            &&& r1 =~= r0 + ungrab_requests(
                v.dragged_window,
            ).push(XRequest::Flush)
        }
    &&& has_mask(state, XCB_MOD_MASK_1) && has_mask(state, XCB_BUTTON_MASK_1) ==> {
            &&& after == v
            &&& r1 =~= r0
        }
}

/// What `handle_enter_notify` needs of the state and its arguments.
pub open spec fn enter_notify_pre(v: WorkspaceView, window: xcb_window_t, config: Config) -> bool {
    enter_focuses(v, window) ==> config.border_color_active_int is Some
}

/// Entering `window` gives it the focus: the focus was not last changed by
/// keyboard, and the first kind of windows holding it (floating, tiled,
/// docked) does not hold it at the focused position.
pub open spec fn enter_focuses(v: WorkspaceView, window: xcb_window_t) -> bool {
    let i = v.focused_idx as int;
    &&& !v.focused_via_keyboard
    &&& if has_window(v.floating, window) {
        !window_at(v.floating, i, window)
    } else if has_window(v.normal, window) {
        !window_at(v.normal, i, window)
    } else {
        has_window(v.docked, window) && !window_at(v.docked, i, window)
    }
}

/// What `handle_enter_notify` does: the state `after` and the requests `r1` that
/// follow from the state `v` and the requests `r0`.
pub open spec fn enter_notify_post(v: WorkspaceView, after: WorkspaceView, r0: Seq<XRequest>, r1: Seq<XRequest>, window: xcb_window_t, config: Config) -> bool {
    let i = v.focused_idx as int;
    let color = config.border_color_active_int->0;
    if v.focused_via_keyboard {
        &&& after == (WorkspaceView {
            focused_via_keyboard: !window_at(v.of_type(v.focused_type), i, window),
            ..v
        })
        &&& r1 =~= r0
    } else if has_window(v.floating, window) {
        if window_at(v.floating, i, window) {
            after == v && r1 =~= r0
        } else {
            &&& after == v.focused_on(WindowType::Floating, window)
            &&& r1 =~= r0 + focus_requests(window, WindowType::Floating, v.is_visible, color)
        }
    } else if has_window(v.normal, window) {
        if window_at(v.normal, i, window) {
            after == v && r1 =~= r0
        } else {
            &&& after == v.focused_on(WindowType::Normal, window)
            &&& r1 =~= r0 + focus_requests(window, WindowType::Normal, v.is_visible, color)
        }
    } else if has_window(v.docked, window) {
        if window_at(v.docked, i, window) {
            after == v && r1 =~= r0
        } else {
            &&& after == v.focused_on(WindowType::Docked, window)
            &&& r1 =~= r0 + focus_requests(window, WindowType::Docked, v.is_visible, color)
        }
    } else {
        after == v && r1 =~= r0
    }
}

/// What `handle_change_focus_window_left` needs of the state and its arguments.
pub open spec fn focus_left_pre(v: WorkspaceView, config: Config, monitor_rect: Rect) -> bool {
    &&& v.focused_type != WindowType::Docked
    &&& ({
            let i = v.focused_idx as int;
            let (gh, gv) = (config.outer_gap_horiz, config.outer_gap_vert);
            v.focused_type == WindowType::Normal && 0 < i < v.normal.len() ==> {
                let avail = work_area(v.docked, monitor_rect, gh, gv);
                &&& config.border_color_active_int is Some
                &&& work_area_ok(v.docked, monitor_rect, gh, gv)
                &&& (v.normal[i - 1].rect.x < avail.x ==> in_i32(avail.x - v.normal[i - 1].rect.x))
                &&& scroll_ok(v.normal, v.reveal_left_shift(i - 1, avail), monitor_rect)
            }
        })
}

/// What `handle_change_focus_window_left` does: the state `after` and the requests `r1` that
/// follow from the state `v` and the requests `r0`.
pub open spec fn focus_left_post(v: WorkspaceView, after: WorkspaceView, r0: Seq<XRequest>, r1: Seq<XRequest>, config: Config, monitor_rect: Rect) -> bool {
    let i = v.focused_idx as int;
    let avail = work_area(v.docked, monitor_rect, config.outer_gap_horiz, config.outer_gap_vert);
    let dx = v.reveal_left_shift(i - 1, avail);
    if v.focused_type == WindowType::Normal && 0 < i < v.normal.len() {
        &&& after == (WorkspaceView {
            normal: if dx > 0 { scrolled(v.normal, dx, monitor_rect) } else { v.normal },
            focused_idx: (i - 1) as nat,
            focused_type: WindowType::Normal,
            focused_via_keyboard: true,
            dragged_window: None,
            ..v
        })
        &&& r1 =~= r0
            + (if dx > 0 { scroll_requests(v.normal, dx, monitor_rect, config.border_size) } else { seq![] })
            + focus_requests(v.normal[i - 1].window, WindowType::Normal, v.is_visible, config.border_color_active_int->0)
            + ungrab_requests(v.dragged_window)
    } else {
        after == v && r1 =~= r0
    }
}

/// What `handle_change_focus_window_right` needs of the state and its arguments.
pub open spec fn focus_right_pre(v: WorkspaceView, config: Config, monitor_rect: Rect) -> bool {
    &&& v.focused_type != WindowType::Docked
    &&& ({
            let i = v.focused_idx as int;
            let (gh, gv) = (config.outer_gap_horiz, config.outer_gap_vert);
            v.focused_type == WindowType::Normal && 0 <= i < v.normal.len() - 1 ==> {
                let avail = work_area(v.docked, monitor_rect, gh, gv);
                let r = v.normal[i + 1].rect;
                &&& config.border_color_active_int is Some
                &&& work_area_ok(v.docked, monitor_rect, gh, gv)
                &&& in_i32(r.right())
                &&& in_i32(avail.right())
                &&& (r.right() > avail.right() ==> in_i32(r.right() - avail.x) && in_i32(r.right() - avail.right()))
                &&& scroll_ok(v.normal, -v.reveal_right_shift(i + 1, avail), monitor_rect)
            }
        })
}

/// What `handle_change_focus_window_right` does: the state `after` and the requests `r1` that
/// follow from the state `v` and the requests `r0`.
pub open spec fn focus_right_post(v: WorkspaceView, after: WorkspaceView, r0: Seq<XRequest>, r1: Seq<XRequest>, config: Config, monitor_rect: Rect) -> bool {
    let i = v.focused_idx as int;
    let avail = work_area(v.docked, monitor_rect, config.outer_gap_horiz, config.outer_gap_vert);
    let dx = v.reveal_right_shift(i + 1, avail);
    if v.focused_type == WindowType::Normal && 0 <= i < v.normal.len() - 1 {
        &&& after == (WorkspaceView {
            normal: if dx > 0 { scrolled(v.normal, -dx, monitor_rect) } else { v.normal },
            focused_idx: (i + 1) as nat,
            focused_type: WindowType::Normal,
            focused_via_keyboard: true,
            dragged_window: None,
            ..v
        })
        &&& r1 =~= r0
            + (if dx > 0 { scroll_requests(v.normal, -dx, monitor_rect, config.border_size) } else { seq![] })
            + focus_requests(v.normal[i + 1].window, WindowType::Normal, v.is_visible, config.border_color_active_int->0)
            + ungrab_requests(v.dragged_window)
    } else {
        after == v && r1 =~= r0
    }
}

/// What `handle_move_window_left` needs of the state and its arguments.
pub open spec fn move_left_pre(v: WorkspaceView, config: Config, monitor_rect: Rect) -> bool {
    &&& v.focused_type != WindowType::Docked
    &&& ({
            let i = v.focused_idx as int;
            let (gh, gv) = (config.outer_gap_horiz, config.outer_gap_vert);
            v.focused_type == WindowType::Normal && 0 < i < v.normal.len() ==> {
                let avail = work_area(v.docked, monitor_rect, gh, gv);
                let t = traded(v.normal, i - 1);
                &&& work_area_ok(v.docked, monitor_rect, gh, gv)
                &&& traded_ok(v.normal, i - 1)
                &&& (t[i - 1].rect.x < avail.x ==> in_i32(avail.x - t[i - 1].rect.x))
                &&& scroll_ok(t, shift_to_show_start(t[i - 1].rect, avail), monitor_rect)
            }
        })
}

/// What `handle_move_window_left` does: the state `after` and the requests `r1` that
/// follow from the state `v` and the requests `r0`.
pub open spec fn move_left_post(v: WorkspaceView, after: WorkspaceView, r0: Seq<XRequest>, r1: Seq<XRequest>, config: Config, monitor_rect: Rect) -> bool {
    let i = v.focused_idx as int;
    let avail = work_area(v.docked, monitor_rect, config.outer_gap_horiz, config.outer_gap_vert);
    let t = traded(v.normal, i - 1);
    let dx = shift_to_show_start(t[i - 1].rect, avail);
    let border = config.border_size;
    if v.focused_type == WindowType::Normal && 0 < i < v.normal.len() {
        &&& after == (WorkspaceView {
            normal: if dx != 0 { scrolled(t, dx, monitor_rect) } else { t },
            focused_idx: (i - 1) as nat,
            focused_via_keyboard: true,
            dragged_window: None,
            ..v
        })
        &&& r1 =~= r0 + (if dx != 0 {
            scroll_requests(t, dx, monitor_rect, border)
        } else {
            seq![configure_at(t, i - 1, border), configure_at(t, i, border)]
        }) + ungrab_requests(v.dragged_window)
    } else {
        after == v && r1 =~= r0
    }
}

/// What `handle_move_window_right` needs of the state and its arguments.
pub open spec fn move_right_pre(v: WorkspaceView, config: Config, monitor_rect: Rect) -> bool {
    &&& v.focused_type != WindowType::Docked
    &&& ({
            let i = v.focused_idx as int;
            let (gh, gv) = (config.outer_gap_horiz, config.outer_gap_vert);
            v.focused_type == WindowType::Normal && 0 <= i < v.normal.len() - 1 ==> {
                let avail = work_area(v.docked, monitor_rect, gh, gv);
                let t = traded(v.normal, i);
                let r = t[i + 1].rect;
                &&& work_area_ok(v.docked, monitor_rect, gh, gv)
                &&& traded_ok(v.normal, i)
                &&& in_i32(r.right())
                &&& in_i32(avail.right())
                &&& (r.right() > avail.right() ==> in_i32(r.right() - avail.x) && in_i32(r.right() - avail.right()))
                &&& scroll_ok(t, -shift_to_show_end(r, avail), monitor_rect)
            }
        })
}

/// What `handle_move_window_right` does: the state `after` and the requests `r1` that
/// follow from the state `v` and the requests `r0`.
pub open spec fn move_right_post(v: WorkspaceView, after: WorkspaceView, r0: Seq<XRequest>, r1: Seq<XRequest>, config: Config, monitor_rect: Rect) -> bool {
    let i = v.focused_idx as int;
    let avail = work_area(v.docked, monitor_rect, config.outer_gap_horiz, config.outer_gap_vert);
    let t = traded(v.normal, i);
    let dx = shift_to_show_end(t[i + 1].rect, avail);
    let border = config.border_size;
    if v.focused_type == WindowType::Normal && 0 <= i < v.normal.len() - 1 {
        &&& after == (WorkspaceView {
            normal: if dx > 0 { scrolled(t, -dx, monitor_rect) } else { t },
            focused_idx: (i + 1) as nat,
            focused_via_keyboard: true,
            dragged_window: None,
            ..v
        })
        &&& r1 =~= r0 + (if dx > 0 {
            scroll_requests(t, -dx, monitor_rect, border)
        } else {
            seq![configure_at(t, i + 1, border), configure_at(t, i, border)]
        }) + ungrab_requests(v.dragged_window)
    } else {
        after == v && r1 =~= r0
    }
}

/// What `handle_resize_window_horizontal` needs of the state and its arguments.
pub open spec fn resize_horizontal_pre(v: WorkspaceView, config: Config, monitor_rect: Rect, size_change_pixels: i32) -> bool {
    &&& v.focused_type != WindowType::Docked
    &&& work_area_ok(v.docked, monitor_rect, config.outer_gap_horiz, config.outer_gap_vert)
    &&& ({
            let f = v.focused_idx as int;
            let avail = work_area(v.docked, monitor_rect, config.outer_gap_horiz, config.outer_gap_vert);
            v.focused_type == WindowType::Normal && f < v.normal.len() ==> {
                &&& resized_ok(v.normal, f, size_change_pixels as int, config.minimum_width_tiling, avail)
                &&& rects_fit(resized(v.normal, f, size_change_pixels as int, config.minimum_width_tiling, avail))
                &&& in_i32(monitor_rect.right())
                &&& in_i32(monitor_rect.bottom())
            }
        })
}

/// What `handle_resize_window_horizontal` does: the state `after` and the requests `r1` that
/// follow from the state `v` and the requests `r0`.
pub open spec fn resize_horizontal_post(v: WorkspaceView, after: WorkspaceView, r0: Seq<XRequest>, r1: Seq<XRequest>, config: Config, monitor_rect: Rect, size_change_pixels: i32) -> bool {
    let f = v.focused_idx as int;
    let avail = work_area(v.docked, monitor_rect, config.outer_gap_horiz, config.outer_gap_vert);
    let ws = resized(v.normal, f, size_change_pixels as int, config.minimum_width_tiling, avail);
    if v.focused_type == WindowType::Normal && f < v.normal.len() {
        &&& after == (WorkspaceView {
            normal: with_visibility(ws, monitor_rect),
            focused_via_keyboard: true,
            dragged_window: None,
            ..v
        })
        &&& r1 =~= r0 + configure_requests(ws, config.border_size)
            + visibility_requests(ws, monitor_rect) + ungrab_requests(v.dragged_window)
    } else {
        after == v && r1 =~= r0
    }
}

/// What `handle_new_floating_window` needs of the state and its arguments.
pub open spec fn new_floating_pre(v: WorkspaceView, window: xcb_window_t, rect_hints: Rect, monitor_rect: Rect, config: Config) -> bool {
    &&& config.border_color_active_int is Some
    &&& rect_hints.x == 0 && rect_hints.y == 0 ==> {
            let base = floating_base(rect_hints, monitor_rect);
            &&& floating_base_ok(rect_hints, monitor_rect)
            &&& forall|o1: Seq<usize>, o2: Seq<usize>|
                #[trigger] sorted_corners(v.floating, o1, o2) ==> cascade_ok(
                    rects_of(reorder(reorder(v.floating, o1), o2)),
                    base,
                    monitor_rect,
                    config.border_size,
                    config.outer_gap_horiz,
                    config.outer_gap_vert,
                )
        }
}

/// What `handle_new_floating_window` does: the state `after` and the requests `r1` that
/// follow from the state `v` and the requests `r0`.
pub open spec fn new_floating_post(v: WorkspaceView, after: WorkspaceView, r0: Seq<XRequest>, r1: Seq<XRequest>, window: xcb_window_t, rect_hints: Rect, monitor_rect: Rect, config: Config) -> bool {
    let border = config.border_size;
    let color = config.border_color_active_int->0;
    if rect_hints.x != 0 || rect_hints.y != 0 {
        &&& after == v.with_new_floating(v.floating, window, rect_hints)
        &&& r1 =~= r0 + new_floating_requests(
            window, rect_hints, border, v.is_visible, color, v.dragged_window)
    } else {
        exists|o1: Seq<usize>, o2: Seq<usize>|
            #[trigger] sorted_corners(v.floating, o1, o2) && {
                let sorted = reorder(reorder(v.floating, o1), o2);
                let r = cascade(
                    rects_of(sorted),
                    floating_base(rect_hints, monitor_rect),
                    monitor_rect,
                    border,
                    config.outer_gap_horiz,
                    config.outer_gap_vert,
                ).0;
                &&& after == v.with_new_floating(sorted, window, r)
                &&& r1 =~= r0 + new_floating_requests(
                    window, r, border, v.is_visible, color, v.dragged_window)
            }
    }
}

/// What `handle_new_normal_window` needs of the state and its arguments.
pub open spec fn new_normal_pre(v: WorkspaceView, window: xcb_window_t, monitor_rect: Rect, tiling_width: u32, config: Config) -> bool {
    &&& config.border_color_active_int is Some
    &&& work_area_ok(v.docked, monitor_rect, config.outer_gap_horiz, config.outer_gap_vert)
    &&& ({
            let avail = work_area(v.docked, monitor_rect, config.outer_gap_horiz, config.outer_gap_vert);
            let b = config.border_size;
            let pl = v.tiled_placement(
                avail,
                (tiling_width - 2 * b) as u32,
                (avail.height - 2 * b) as u32,
                (config.inner_gap + 2 * b) as u32,
            );
            &&& 2 * b <= tiling_width
            &&& 2 * b <= avail.height
            &&& config.inner_gap + 2 * b <= u32::MAX
            &&& new_tiled_ok(v, pl)
            &&& rects_fit(with_new_tiled(v, pl, window, false))
            &&& in_i32(avail.right())
            &&& in_i32(avail.bottom())
        })
}

/// What `handle_new_normal_window` does: the state `after` and the requests `r1` that
/// follow from the state `v` and the requests `r0`.
pub open spec fn new_normal_post(v: WorkspaceView, after: WorkspaceView, r0: Seq<XRequest>, r1: Seq<XRequest>, window: xcb_window_t, monitor_rect: Rect, tiling_width: u32, config: Config) -> bool {
    let avail = work_area(v.docked, monitor_rect, config.outer_gap_horiz, config.outer_gap_vert);
    let b = config.border_size;
    let pl = v.tiled_placement(
        avail,
        (tiling_width - 2 * b) as u32,
        (avail.height - 2 * b) as u32,
        (config.inner_gap + 2 * b) as u32,
    );
    let made = with_new_tiled(v, pl, window, false);
    exists|order: Seq<usize>|
        #[trigger] is_stable_order(order, x_keys(rects_of(made))) && {
            let sorted = reorder(made, order);
            &&& after == tiled_focused(v, sorted, window, Some(avail))
            &&& r1 =~= r0
                + seq![XRequest::ChangeAttrs { window, mask: XCB_CW_EVENT_MASK, value: normal_event_mask() }]
                + tiled_focused_requests(v, sorted, window, Some(avail), b, config.border_color_active_int->0)
        }
}

/// What `handle_existing_normal_window` needs of the state and its arguments.
pub open spec fn existing_normal_pre(v: WorkspaceView, window: xcb_window_t, window_rect: Rect, monitor_rect: Rect, config: Config) -> bool {
    &&& config.border_color_active_int is Some
    &&& work_area_ok(v.docked, monitor_rect, config.outer_gap_horiz, config.outer_gap_vert)
    &&& ({
            let avail = work_area(v.docked, monitor_rect, config.outer_gap_horiz, config.outer_gap_vert);
            let pl = v.tiled_placement(
                avail,
                window_rect.width,
                window_rect.height,
                (config.inner_gap + 2 * config.border_size) as u32,
            );
            &&& config.inner_gap + 2 * config.border_size <= u32::MAX
            &&& new_tiled_ok(v, pl)
            &&& v.is_visible ==> {
                &&& rects_fit(with_new_tiled(v, pl, window, !v.is_visible))
                &&& in_i32(monitor_rect.right())
                &&& in_i32(monitor_rect.bottom())
            }
        })
}

/// What `handle_existing_normal_window` does: the state `after` and the requests `r1` that
/// follow from the state `v` and the requests `r0`.
pub open spec fn existing_normal_post(v: WorkspaceView, after: WorkspaceView, r0: Seq<XRequest>, r1: Seq<XRequest>, window: xcb_window_t, window_rect: Rect, monitor_rect: Rect, config: Config) -> bool {
    let avail = work_area(v.docked, monitor_rect, config.outer_gap_horiz, config.outer_gap_vert);
    let b = config.border_size;
    let pl = v.tiled_placement(
        avail,
        window_rect.width,
        window_rect.height,
        (config.inner_gap + 2 * b) as u32,
    );
    let made = with_new_tiled(v, pl, window, !v.is_visible);
    let area = if v.is_visible { Some(monitor_rect) } else { None };
    existing_placed(v, made, window, area, b, config.border_color_active_int->0, after, r0, r1)
}

/// What `pop_focused_window` needs of the state and its arguments.
pub open spec fn pop_focused_pre(v: WorkspaceView, monitor_rect: Rect, config: Config) -> bool {
    &&& work_area_ok(v.docked, monitor_rect, config.outer_gap_horiz, config.outer_gap_vert)
    &&& ({
            let avail = work_area(v.docked, monitor_rect, config.outer_gap_horiz, config.outer_gap_vert);
            let gap_fits = config.inner_gap + 2 * config.border_size <= u32::MAX;
            let gap = (config.inner_gap + 2 * config.border_size) as u32;
            &&& pop_focuses(v, avail) ==> config.border_color_active_int is Some
            &&& v.focused_type == WindowType::Normal && v.focused_idx < v.normal.len() ==> popped_tiled_ok(v, avail, gap_fits, gap)
            &&& v.focused_type == WindowType::Floating && v.focused_idx < v.floating.len() ==> popped_floating_ok(v, avail, gap_fits, gap)
        })
}

/// What `pop_focused_window` does: the state `after` and the requests `r1` that
/// follow from the state `v` and the requests `r0`.
pub open spec fn pop_focused_post(v: WorkspaceView, after: WorkspaceView, r0: Seq<XRequest>, r1: Seq<XRequest>, monitor_rect: Rect, config: Config, res: Option<(xcb_window_t, Rect, WindowType)>) -> bool {
    let f = v.focused_idx as int;
    let avail = work_area(v.docked, monitor_rect, config.outer_gap_horiz, config.outer_gap_vert);
    let gap = (config.inner_gap + 2 * config.border_size) as u32;
    let color = config.border_color_active_int->0;
    if v.focused_type == WindowType::Normal && f < v.normal.len() {
        let (state, reqs) = popped_tiled(v, avail, gap, config.border_size, color);
        &&& res == Some((v.normal[f].window, v.normal[f].rect, WindowType::Normal))
        &&& after == state
        &&& r1 =~= r0 + reqs
    } else if v.focused_type == WindowType::Floating && f < v.floating.len() {
        let (state, reqs) = popped_floating(v, avail, gap, config.border_size, color);
        &&& res == Some((v.floating[f].window, v.floating[f].rect, WindowType::Floating))
        &&& after == state
        &&& r1 =~= r0 + reqs
    } else {
        &&& res is None
        &&& after == v
        &&& r1 =~= r0
    }
}

/// Showing the workspace gives a window the focus: it is hidden and holds a
/// window of the focused kind.
pub open spec fn show_all_focuses(v: WorkspaceView) -> bool {
    &&& !v.is_visible
    &&& {
        ||| v.focused_type == WindowType::Docked && v.docked.len() > 0
        ||| v.focused_type == WindowType::Normal && v.normal.len() > 0
        ||| v.focused_type == WindowType::Floating && v.floating.len() > 0
    }
}

/// What `show_all_windows` needs of the state and its arguments.
pub open spec fn show_all_pre(v: WorkspaceView, monitor_rect: Rect, config: Config) -> bool {
    &&& show_all_focuses(v) ==> config.border_color_active_int is Some
    &&& ({
            let s = ShowSettings {
                monitor: monitor_rect,
                gap_h: config.outer_gap_horiz,
                gap_v: config.outer_gap_vert,
                gap: (config.inner_gap + 2 * config.border_size) as u32,
                border: config.border_size,
                color: config.border_color_active_int->0,
            };
            !v.is_visible && v.normal.len() + v.floating.len() + v.docked.len() > 0 ==> shown_again_ok(
                v,
                s,
                config.inner_gap + 2 * config.border_size <= u32::MAX,
            )
        })
}

/// What `show_all_windows` does: the state `after` and the requests `r1` that
/// follow from the state `v` and the requests `r0`.
pub open spec fn show_all_post(v: WorkspaceView, after: WorkspaceView, r0: Seq<XRequest>, r1: Seq<XRequest>, monitor_rect: Rect, config: Config) -> bool {
    let s = ShowSettings {
        monitor: monitor_rect,
        gap_h: config.outer_gap_horiz,
        gap_v: config.outer_gap_vert,
        gap: (config.inner_gap + 2 * config.border_size) as u32,
        border: config.border_size,
        color: config.border_color_active_int->0,
    };
    if v.is_visible {
        after == v && r1 =~= r0
    } else if v.normal.len() + v.floating.len() + v.docked.len() == 0 {
        after == (WorkspaceView { is_visible: true, ..v }) && r1 =~= r0
    } else {
        &&& after == shown_again(v, s).0
        &&& r1 =~= r0 + shown_again(v, s).1
    }
}

/// Showing a workspace leaves it visible.
pub proof fn lemma_show_all_visible(v: WorkspaceView, after: WorkspaceView, r0: Seq<XRequest>, r1: Seq<XRequest>, monitor_rect: Rect, config: Config)
    requires
        show_all_post(v, after, r0, r1, monitor_rect, config),
    ensures
        after.is_visible,
{
    reveal(show_docked);
    reveal(show_tiled_again);
    reveal(show_floating_again);
}

/// Showing a workspace a second time, right after the first, changes
/// nothing and asks for nothing; the second call needs nothing of the
/// settings.
pub proof fn law_show_all_twice(
    v: WorkspaceView,
    a1: WorkspaceView,
    a2: WorkspaceView,
    r0: Seq<XRequest>,
    r1: Seq<XRequest>,
    r2: Seq<XRequest>,
    monitor_rect: Rect,
    config: Config,
    config2: Config,
)
    requires
        show_all_post(v, a1, r0, r1, monitor_rect, config),
        show_all_post(a1, a2, r1, r2, monitor_rect, config2),
    ensures
        show_all_pre(a1, monitor_rect, config2),
        a2 == a1,
        r2 == r1,
{
    lemma_show_all_visible(v, a1, r0, r1, monitor_rect, config);
}

/// Showing a workspace keeps its id.
pub proof fn lemma_show_all_keeps_id(v: WorkspaceView, after: WorkspaceView, r0: Seq<XRequest>, r1: Seq<XRequest>, monitor_rect: Rect, config: Config)
    requires
        show_all_post(v, after, r0, r1, monitor_rect, config),
    ensures
        after.id == v.id,
{
    reveal(show_docked);
    reveal(show_tiled_again);
    reveal(show_floating_again);
}

/// Trading the same two tiled windows twice gives them back as they were:
/// moving a window left and then right again, with no scrolling, restores
/// the tiled windows.
pub proof fn law_trade_twice(ws: Seq<Window>, l: int)
    requires
        traded_ok(ws, l),
        ws[l].rect.width <= i32::MAX,
        ws[l + 1].rect.width <= i32::MAX,
    ensures
        traded(traded(ws, l), l) == ws,
{
    let t = traded(ws, l);
    assert(traded(t, l) =~= ws);
}

/// When the tiled windows at `l` and `l + 1` trade places, each keeps its
/// width and the pair keeps its place: the left one starts where the pair
/// started, the right one ends where the pair ended, and the gap between the
/// two is what it was; each slot keeps its row and height. The other
/// windows stay as they are.
pub proof fn law_trade_keeps_gap(ws: Seq<Window>, l: int)
    requires
        traded_ok(ws, l),
        ws[l].rect.width <= i32::MAX,
        ws[l + 1].rect.width <= i32::MAX,
    ensures
        ({
            let t = traded(ws, l);
            &&& t.len() == ws.len()
            &&& t[l].window == ws[l + 1].window && t[l + 1].window == ws[l].window
            &&& t[l].rect.width == ws[l + 1].rect.width && t[l + 1].rect.width == ws[l].rect.width
            &&& t[l].rect.y == ws[l].rect.y && t[l].rect.height == ws[l].rect.height
            &&& t[l + 1].rect.y == ws[l + 1].rect.y && t[l + 1].rect.height == ws[l + 1].rect.height
            &&& t[l].rect.x == ws[l].rect.x
            &&& t[l + 1].rect.right() == ws[l + 1].rect.right()
            &&& t[l + 1].rect.x - t[l].rect.right() == ws[l + 1].rect.x - ws[l].rect.right()
            &&& forall|i: int| 0 <= i < ws.len() && i != l && i != l + 1 ==> #[trigger] t[i] == ws[i]
        }),
{
    let t = traded(ws, l);
    let a = ws[l].rect;
    let b = ws[l + 1].rect;
    assert(signed(a.width) == a.width && signed(b.width) == b.width);
    assert(t[l].rect == Rect { width: b.width, ..a });
    if b.width != a.width {
        assert(in_i32(b.x + signed(b.width) - signed(a.width)));
        assert(t[l + 1].rect.x == b.x + b.width - a.width);
    } else {
        assert(t[l + 1].rect.x == b.x);
    }
    assert(t[l + 1].rect.width == a.width);
}

/// Scrolling the windows by `dx` and back by `-dx` puts them back.
pub proof fn law_scroll_back(ws: Seq<Window>, lo: int, hi: int, dx: int)
    requires
        moves_fit_x(ws, lo, hi, dx),
    ensures
        moved_x(moved_x(ws, lo, hi, dx), lo, hi, -dx) == ws,
{
    assert(moved_x(moved_x(ws, lo, hi, dx), lo, hi, -dx) =~= ws);
}

/// Moving the windows down by `dy` and up by `-dy` puts them back, as hiding
/// a workspace below and showing it again does.
pub proof fn law_move_y_back(ws: Seq<Window>, dy: int)
    requires
        moves_fit_y(ws, dy),
    ensures
        moved_y(moved_y(ws, dy), -dy) == ws,
{
    assert(moved_y(moved_y(ws, dy), -dy) =~= ws);
}

/// The y of the window `show_all_windows` looks at to tell where the hidden
/// windows are: the first tiled, else docked, else floating window.
pub open spec fn first_window_y(v: WorkspaceView) -> int {
    if v.normal.len() > 0 {
        v.normal[0].rect.y as int
    } else if v.docked.len() > 0 {
        v.docked[0].rect.y as int
    } else {
        v.floating[0].rect.y as int
    }
}

/// Hiding a shown workspace and showing it again on the same monitor puts
/// its floating windows back exactly as they were, when its windows start
/// on the monitor.
pub proof fn law_hide_show_restores_floating(
    v: WorkspaceView,
    hidden: WorkspaceView,
    shown: WorkspaceView,
    r0: Seq<XRequest>,
    r1: Seq<XRequest>,
    r2: Seq<XRequest>,
    monitor: Rect,
    config: Config,
    hide_below: bool,
)
    requires
        v.is_visible,
        v.normal.len() + v.floating.len() + v.docked.len() > 0,
        0 < monitor.height <= i32::MAX,
        monitor.y <= first_window_y(v) < monitor.y + monitor.height,
        hide_all_pre(v, monitor, config, hide_below),
        hide_all_post(v, hidden, r0, r1, monitor, config, hide_below),
        show_all_post(hidden, shown, r1, r2, monitor, config),
    ensures
        shown.floating == v.floating,
{
    let h = signed(monitor.height);
    let dy = hide_shift(monitor.height, hide_below);
    assert(hidden.floating == moved_y(v.floating, dy));
    assert(hidden.normal == moved_y(v.normal, dy));
    assert(hidden.docked == moved_y(v.docked, dy));
    if v.normal.len() > 0 {
        assert(in_i32(v.normal[0].rect.y + dy));
    } else if v.docked.len() > 0 {
        assert(in_i32(v.docked[0].rect.y + dy));
    } else {
        assert(in_i32(v.floating[0].rect.y + dy));
    }
    assert(first_window_y(hidden) == first_window_y(v) + dy);
    assert(show_shift(hidden, monitor) == -dy);
    let s = ShowSettings {
        monitor,
        gap_h: config.outer_gap_horiz,
        gap_v: config.outer_gap_vert,
        gap: (config.inner_gap + 2 * config.border_size) as u32,
        border: config.border_size,
        color: config.border_color_active_int->0,
    };
    let v0 = WorkspaceView { is_visible: true, ..hidden };
    reveal(show_docked);
    reveal(show_tiled_again);
    reveal(show_floating_again);
    let (v1, q1, avail) = show_docked(v0, s);
    assert(v1.floating == hidden.floating);
    let (v2, q2) = show_tiled_again(v1, s, avail, -dy);
    assert(v2.floating == hidden.floating);
    let (v3, q3) = show_floating_again(v2, s, -dy);
    assert(v3.floating == moved_y(hidden.floating, -dy));
    assert(shown == shown_again(hidden, s).0);
    law_move_y_back(v.floating, dy);
}

} // verus!
