//! A monitor: its workspaces, which of them is shown, the windows docked on
//! it for all workspaces, and how each event is passed on to the shown
//! workspace.
use vstd::prelude::*;
use crate::config::Config;
use crate::rect::{available_after_all, available_after_all_ok, magnified, magnified_ok, Rect};
use crate::text::{contains_str, has_substring, str_eq};
use crate::window::{Window, WindowsCollection, xcb_window_t};
use crate::bar_message::Message;
use crate::ewmh::{strut_rect, strut_rect_ok, strut_rect_on, StrutPartial, WindowType};
use crate::keybindings::{Dimension, Direction};
use crate::keycodes::XCB_MOD_MASK_1;
use crate::workspace::{
    enter_notify_post, enter_notify_pre, existing_normal_post, existing_normal_pre, focus_left_post,
    focus_left_pre, focus_right_post, focus_right_pre, fresh_workspace, has_mask, has_window, hide_all_post,
    hide_all_pre, motion_notify_post, move_left_post, move_left_pre, move_right_post, move_right_pre,
    new_docked_post, new_docked_pre, new_normal_post, new_normal_pre,
    new_floating_post, new_floating_pre, pop_focused_post, pop_focused_pre, rects_of, lemma_show_all_keeps_id,
    configure_all, configure_requests,
    resize_horizontal_post, resize_horizontal_pre, show_all_post, show_all_pre, ungrab_requests, Workspace,
    WorkspaceView, XRequest, XCB_CW_BORDER_PIXEL,
};

verus! {

/// `XCB_NOTIFY_MODE_GRAB`: a focus change caused by a keyboard grab.
pub const XCB_NOTIFY_MODE_GRAB: u32 = 1;

/// `XCB_NOTIFY_MODE_UNGRAB`: a focus change caused by its release.
pub const XCB_NOTIFY_MODE_UNGRAB: u32 = 2;

#[derive(Debug)]
pub struct Monitor {
    pub rect: Rect,
    pub workspaces: Vec<Workspace>,
    docked: WindowsCollection,
    focused_workspace_idx: usize,
    /// Windows asked to close, with the second at which they were asked.
    to_check_deleted: Vec<(xcb_window_t, u64)>,
    dmenu_window: Option<xcb_window_t>,
}

/// A monitor as the contracts speak of it.
pub struct MonitorView {
    pub rect: Rect,
    pub workspaces: Seq<WorkspaceView>,
    pub docked: Seq<Window>,
    pub focused_workspace_idx: nat,
    pub to_check_deleted: Seq<(xcb_window_t, u64)>,
    pub dmenu_window: Option<xcb_window_t>,
}

impl MonitorView {
    /// The shown workspace.
    pub open spec fn focused(self) -> WorkspaceView {
        self.workspaces[self.focused_workspace_idx as int]
    }

    /// The area left to the workspaces once the globally docked windows
    /// have taken theirs.
    pub open spec fn avail(self) -> Rect {
        available_after_all(self.rect, rects_of(self.docked))
    }

    pub open spec fn avail_ok(self) -> bool {
        available_after_all_ok(self.rect, rects_of(self.docked))
    }

    /// The state with the shown workspace replaced by `ws`.
    pub open spec fn with_focused(self, ws: WorkspaceView) -> MonitorView {
        MonitorView { workspaces: self.workspaces.update(self.focused_workspace_idx as int, ws), ..self }
    }
}

/// The views of the workspaces.
pub open spec fn views_of(ws: Seq<Workspace>) -> Seq<WorkspaceView> {
    Seq::new(ws.len(), |i: int| ws[i].view())
}

/// Replacing one workspace by a well-formed one keeps them all well formed,
/// and replaces its view.
proof fn lemma_update_workspace(before: Seq<Workspace>, after: Seq<Workspace>, idx: int)
    requires
        0 <= idx < before.len(),
        after == before.update(idx, after[idx]),
        forall|i: int| 0 <= i < before.len() ==> #[trigger] before[i].wf(),
        after[idx].wf(),
    ensures
        forall|i: int| 0 <= i < after.len() ==> #[trigger] after[i].wf(),
        views_of(after) == views_of(before).update(idx, after[idx].view()),
{
    assert forall|i: int| 0 <= i < after.len() implies #[trigger] after[i].wf() by {
        if i != idx {
            assert(after[i] == before[i]);
        }
    }
    assert(views_of(after) =~= views_of(before).update(idx, after[idx].view()));
}

/// The requests end with `Flush`; before it stand `body`.
pub open spec fn flushed(requests: Seq<XRequest>, body: Seq<XRequest>) -> bool {
    requests == body.push(XRequest::Flush)
}

impl Monitor {
    pub closed spec fn view(&self) -> MonitorView {
        MonitorView {
            rect: self.rect,
            workspaces: views_of(self.workspaces@),
            docked: self.docked.entries(),
            focused_workspace_idx: self.focused_workspace_idx as nat,
            to_check_deleted: self.to_check_deleted@,
            dmenu_window: self.dmenu_window,
        }
    }

    /// Each workspace and the docked windows are well formed, and one
    /// workspace is shown.
    pub closed spec fn wf(&self) -> bool {
        &&& forall|i: int| 0 <= i < self.workspaces@.len() ==> #[trigger] self.workspaces@[i].wf()
        &&& self.docked.wf()
        &&& self.focused_workspace_idx < self.workspaces@.len()
    }

    /// A monitor covering `rect`, showing workspace 1.
    pub fn new(rect: Rect) -> (res: Self)
        ensures
            res.wf(),
            res.view().rect == rect,
            res.view().workspaces.len() == 1,
            res.view().workspaces[0] == fresh_workspace(1, true),
            res.view().docked.len() == 0,
            res.view().focused_workspace_idx == 0,
            res.view().to_check_deleted.len() == 0,
            res.view().dmenu_window is None,
    {
        let mut workspaces: Vec<Workspace> = Vec::new();
        workspaces.push(Workspace::new(1, true));
        Self {
            rect,
            workspaces,
            docked: WindowsCollection::new(1),
            focused_workspace_idx: 0,
            to_check_deleted: Vec::new(),
            dmenu_window: None,
        }
    }

    /// The id of the shown workspace.
    pub fn get_focused_workspace_id(&self) -> (res: Option<u32>)
        requires
            self.wf(),
        ensures
            res == Some(self.view().focused().id),
    {
        match self.workspaces.get(self.focused_workspace_idx) {
            Some(workspace) => Some(workspace.id()),
            None => None,
        }
    }

    /// The area left to the workspaces once the globally docked windows have
    /// taken theirs.
    pub fn available_rect(&self) -> (res: Rect)
        requires
            self.wf(),
            self.view().avail_ok(),
        ensures
            res == self.view().avail(),
    {
        let rects = self.docked.rect_iter();
        assert(rects@ =~= rects_of(self.view().docked));
        self.rect.available_rect_after_adding_rects(rects)
    }

    /// A window got the focus: unless the focus change comes from a grab or
    /// its release, or the window is the root, its border takes the active
    /// colour.
    pub fn handle_focus_in(
        &self,
        window: xcb_window_t,
        mode: u32,
        root: xcb_window_t,
        config: &Config,
        requests: &mut Vec<XRequest>,
    )
        requires
            self.wf(),
            !(mode == XCB_NOTIFY_MODE_GRAB || mode == XCB_NOTIFY_MODE_UNGRAB || window == root)
                ==> config.border_color_active_int is Some,
        ensures
            mode == XCB_NOTIFY_MODE_GRAB || mode == XCB_NOTIFY_MODE_UNGRAB || window == root ==> final(requests)@ == old(
                requests,
            )@,
            !(mode == XCB_NOTIFY_MODE_GRAB || mode == XCB_NOTIFY_MODE_UNGRAB || window == root) ==> final(requests)@
                == old(requests)@.push(
                XRequest::ChangeAttrs {
                    window,
                    mask: XCB_CW_BORDER_PIXEL,
                    value: config.border_color_active_int->0,
                },
            ).push(XRequest::Flush),
    {
        if mode == XCB_NOTIFY_MODE_GRAB || mode == XCB_NOTIFY_MODE_UNGRAB {
            return;
        }
        if window == root {
            return;
        }
        self.workspaces[self.focused_workspace_idx].handle_focus_in(window, config, requests);
        requests.push(XRequest::Flush);
    }

    /// A window lost the focus: unless the focus change comes from a grab or
    /// its release, the window is the root or it no longer exists, its border
    /// takes the inactive colour.
    pub fn handle_focus_out(
        &self,
        window: xcb_window_t,
        mode: u32,
        root: xcb_window_t,
        window_exists: bool,
        config: &Config,
        requests: &mut Vec<XRequest>,
    )
        requires
            !(mode == XCB_NOTIFY_MODE_GRAB || mode == XCB_NOTIFY_MODE_UNGRAB || window == root || !window_exists)
                ==> config.border_color_inactive_int is Some,
        ensures
            mode == XCB_NOTIFY_MODE_GRAB || mode == XCB_NOTIFY_MODE_UNGRAB || window == root || !window_exists
                ==> final(requests)@ == old(requests)@,
            !(mode == XCB_NOTIFY_MODE_GRAB || mode == XCB_NOTIFY_MODE_UNGRAB || window == root || !window_exists)
                ==> final(requests)@ == old(requests)@.push(
                XRequest::ChangeAttrs {
                    window,
                    mask: XCB_CW_BORDER_PIXEL,
                    value: config.border_color_inactive_int->0,
                },
            ).push(XRequest::Flush),
    {
        if mode == XCB_NOTIFY_MODE_GRAB || mode == XCB_NOTIFY_MODE_UNGRAB {
            return;
        }
        if window == root {
            return;
        }
        if !window_exists {
            return;
        }
        let color = match config.border_color_inactive_int {
            Some(c) => c,
            None => 0,
        };
        requests.push(XRequest::ChangeAttrs { window, mask: XCB_CW_BORDER_PIXEL, value: color });
        requests.push(XRequest::Flush);
    }

    /// The pointer entered `window`, on the shown workspace.
    pub fn handle_enter_notify(&mut self, window: xcb_window_t, config: &Config, requests: &mut Vec<XRequest>)
        requires
            old(self).wf(),
            enter_notify_pre(old(self).view().focused(), window, *config),
        ensures
            final(self).wf(),
            final(self).view() == old(self).view().with_focused(final(self).view().focused()),
            final(self).view().focused_workspace_idx == old(self).view().focused_workspace_idx,
            enter_notify_post(
                old(self).view().focused(),
                final(self).view().focused(),
                old(requests)@,
                final(requests)@.drop_last(),
                window,
                *config,
            ),
            flushed(final(requests)@, final(requests)@.drop_last()),
    {
        let ghost v = self.view();
        let idx = self.focused_workspace_idx;
        self.workspaces[idx].handle_enter_notify(window, config, requests);
        let ghost mid = requests@;
        requests.push(XRequest::Flush);
        proof {
            assert(requests@.drop_last() =~= mid);
            lemma_update_workspace(old(self).workspaces@, self.workspaces@, idx as int);
        }
    }
}

/// The ids of the workspaces, in order.
pub open spec fn ids_of(ws: Seq<WorkspaceView>) -> Seq<u32> {
    Seq::new(ws.len(), |i: int| ws[i].id)
}

/// Position of the first workspace with id `id`, or the number of
/// workspaces when none has it.
pub open spec fn workspace_position(ids: Seq<u32>, id: u32) -> int
    decreases ids.len(),
{
    if ids.len() == 0 {
        0
    } else if ids[0] == id {
        0
    } else {
        1 + workspace_position(ids.drop_first(), id)
    }
}

/// `workspace_position` is the first position holding `id`, or the length.
proof fn lemma_workspace_position(ids: Seq<u32>, id: u32)
    ensures
        0 <= workspace_position(ids, id) <= ids.len(),
        workspace_position(ids, id) < ids.len() ==> ids[workspace_position(ids, id)] == id,
        forall|j: int| 0 <= j < workspace_position(ids, id) ==> ids[j] != id,
    decreases ids.len(),
{
    if ids.len() > 0 && ids[0] != id {
        lemma_workspace_position(ids.drop_first(), id);
        assert forall|j: int| 0 <= j < workspace_position(ids, id) implies ids[j] != id by {
            if j > 0 {
                assert(ids[j] == ids.drop_first()[j - 1]);
            }
        }
    }
}

/// The workspaces once the one with id `id` exists: as they are when one
/// has it, else with an empty hidden one added.
pub open spec fn with_workspace(ws: Seq<WorkspaceView>, id: u32) -> Seq<WorkspaceView> {
    if workspace_position(ids_of(ws), id) < ws.len() {
        ws
    } else {
        ws.push(fresh_workspace(id, false))
    }
}

/// The bar messages sent after a switch of workspaces: the list of
/// workspace ids, then the id of the shown one.
pub open spec fn switch_notices(n0: Seq<Message<'static>>, n1: Seq<Message<'static>>, ids: Seq<u32>, id: u32) -> bool {
    &&& n1.len() == n0.len() + 2
    &&& n1.take(n0.len() as int) == n0
    &&& n1[n0.len() as int] matches Message::WorkspaceList(list) && list@ == ids
    &&& n1[n0.len() + 1int] == Message::WorkspaceActive(id)
}

/// What a switch from the shown workspace to the one with id `id` needs.
pub open spec fn switch_pre(v: MonitorView, id: u32, config: Config) -> bool {
    let fi = v.focused_workspace_idx as int;
    let t = workspace_position(ids_of(v.workspaces), id);
    id != v.focused().id ==> {
        &&& v.avail_ok()
        &&& hide_all_pre(v.focused(), v.avail(), config, id < v.focused().id)
        &&& show_all_pre(with_workspace(v.workspaces, id)[t], v.avail(), config)
    }
}

/// What a switch from the shown workspace to the one with id `id` does: the
/// shown one is hidden (below, when the new id is smaller), the new one
/// (added empty if none has that id) is shown, and the bar hears of it.
pub open spec fn switch_post(
    v: MonitorView,
    after: MonitorView,
    r0: Seq<XRequest>,
    r1: Seq<XRequest>,
    n0: Seq<Message<'static>>,
    n1: Seq<Message<'static>>,
    id: u32,
    config: Config,
) -> bool {
    let fi = v.focused_workspace_idx as int;
    let t = workspace_position(ids_of(v.workspaces), id);
    if id == v.focused().id {
        after == v && r1 == r0 && n1 == n0
    } else {
        let ws = with_workspace(v.workspaces, id);
        exists|rh: Seq<XRequest>|
            {
                &&& hide_all_post(v.focused(), after.workspaces[fi], r0, rh, v.avail(), config, id < v.focused().id)
                &&& show_all_post(ws[t], after.workspaces[t], rh, r1.drop_last(), v.avail(), config)
                &&& flushed(r1, r1.drop_last())
                &&& after == MonitorView {
                    workspaces: ws.update(fi, after.workspaces[fi]).update(t, after.workspaces[t]),
                    focused_workspace_idx: t as nat,
                    ..v
                }
                &&& switch_notices(n0, n1, ids_of(after.workspaces), id)
            }
    }
}

/// After a switch to the workspace with id `id` that workspace is the shown
/// one, and the last thing the bar hears is that `id` is active.
pub proof fn law_switch_shows(
    v: MonitorView,
    after: MonitorView,
    r0: Seq<XRequest>,
    r1: Seq<XRequest>,
    n0: Seq<Message<'static>>,
    n1: Seq<Message<'static>>,
    id: u32,
    config: Config,
)
    requires
        v.focused_workspace_idx < v.workspaces.len(),
        switch_post(v, after, r0, r1, n0, n1, id, config),
    ensures
        after.focused().id == id,
        id != v.focused().id ==> n1.last() == Message::WorkspaceActive(id),
{
    if id != v.focused().id {
        let fi = v.focused_workspace_idx as int;
        let ids = ids_of(v.workspaces);
        let t = workspace_position(ids, id);
        let ws = with_workspace(v.workspaces, id);
        lemma_workspace_position(ids, id);
        let rh = choose|rh: Seq<XRequest>|
            {
                &&& hide_all_post(v.focused(), after.workspaces[fi], r0, rh, v.avail(), config, id < v.focused().id)
                &&& show_all_post(ws[t], after.workspaces[t], rh, r1.drop_last(), v.avail(), config)
                &&& flushed(r1, r1.drop_last())
                &&& after == MonitorView {
                    workspaces: ws.update(fi, after.workspaces[fi]).update(t, after.workspaces[t]),
                    focused_workspace_idx: t as nat,
                    ..v
                }
                &&& switch_notices(n0, n1, ids_of(after.workspaces), id)
            };
        lemma_show_all_keeps_id(ws[t], after.workspaces[t], rh, r1.drop_last(), v.avail(), config);
        if t < ids.len() {
            assert(ws[t].id == ids[t]);
        }
        assert(ws[t].id == id);
    }
}

/// A docked window's rectangle once the screen is `width` by `height`: a
/// wide one takes the new width, a tall one the new height; then one whose
/// top is below the middle moves to the bottom edge, and one whose left side
/// is right of the middle moves to the right edge.
pub open spec fn resized_dock(r: Rect, width: u32, height: u32) -> Rect {
    let r1 = if r.width > r.height {
        Rect { width, ..r }
    } else {
        Rect { height, ..r }
    };
    let r2 = if r1.y > height / 2 {
        Rect { y: (height - r1.height) as i32, ..r1 }
    } else {
        r1
    };
    if r2.x > width / 2 {
        Rect { x: (width - r2.width) as i32, ..r2 }
    } else {
        r2
    }
}

/// `resized_dock` of each docked window.
pub open spec fn resized_docks(ws: Seq<Window>, width: u32, height: u32) -> Seq<Window> {
    Seq::new(ws.len(), |i: int| Window { rect: resized_dock(ws[i].rect, width, height), ..ws[i] })
}

/// The sizes of the docked rectangles fit an `i32`, as the new edges are
/// computed in `i32`.
pub open spec fn docks_fit(ws: Seq<Window>) -> bool {
    forall|i: int| 0 <= i < ws.len() ==> #[trigger] ws[i].rect.width <= i32::MAX && ws[i].rect.height <= i32::MAX
}

impl Monitor {
    /// Position of the workspace with id `id`, added empty and hidden if
    /// there is none.
    fn workspace_index(&mut self, id: u32) -> (res: usize)
        requires
            old(self).wf(),
        ensures
            final(self).wf(),
            res == workspace_position(ids_of(old(self).view().workspaces), id),
            final(self).view() == (MonitorView { workspaces: with_workspace(old(self).view().workspaces, id), ..old(self).view() }),
            res < final(self).view().workspaces.len(),
    {
        let ghost v = self.view();
        let ghost ids = ids_of(v.workspaces);
        proof {
            lemma_workspace_position(ids, id);
        }
        let mut i: usize = 0;
        while i < self.workspaces.len()
            invariant
                self.wf(),
                self.view() == v,
                ids == ids_of(v.workspaces),
                0 <= i <= ids.len(),
                forall|j: int| 0 <= j < i ==> ids[j] != id,
                0 <= workspace_position(ids, id) <= ids.len(),
                workspace_position(ids, id) < ids.len() ==> ids[workspace_position(ids, id)] == id,
                forall|j: int| 0 <= j < workspace_position(ids, id) ==> ids[j] != id,
            decreases ids.len() - i,
        {
            if self.workspaces[i].id() == id {
                assert(ids[i as int] == id);
                return i;
            }
            i = i + 1;
        }
        let ghost before = self.workspaces@;
        self.workspaces.push(Workspace::new(id, false));
        proof {
            assert(views_of(self.workspaces@) =~= views_of(before).push(fresh_workspace(id, false)));
            assert forall|j: int| 0 <= j < self.workspaces@.len() implies #[trigger] self.workspaces@[j].wf() by {
                if j < before.len() {
                    assert(self.workspaces@[j] == before[j]);
                }
            }
        }
        self.workspaces.len() - 1
    }

    /// The ids of the workspaces, in order.
    fn workspace_ids(&self) -> (res: Vec<u32>)
        requires
            self.wf(),
        ensures
            res@ == ids_of(self.view().workspaces),
    {
        let mut res: Vec<u32> = Vec::new();
        let mut i: usize = 0;
        while i < self.workspaces.len()
            invariant
                0 <= i <= self.workspaces@.len(),
                res@.len() == i,
                forall|j: int| 0 <= j < i ==> #[trigger] res@[j] == self.view().workspaces[j].id,
            decreases self.workspaces@.len() - i,
        {
            res.push(self.workspaces[i].id());
            i = i + 1;
        }
        assert(res@ =~= ids_of(self.view().workspaces));
        res
    }

    /// The screen now measures `width` by `height`: unless that is its size
    /// already, the monitor takes it and each docked window is fitted to the
    /// new size (`resized_dock`) and configured again. The windows of the
    /// workspaces are left where they are.
    pub fn update_with_new_dimensions(&mut self, width: u16, height: u16, requests: &mut Vec<XRequest>)
        requires
            old(self).wf(),
            docks_fit(old(self).view().docked),
        ensures
            final(self).wf(),
            ({
                let v = old(self).view();
                let (w, h) = (width as u32, height as u32);
                if v.rect.width == w && v.rect.height == h {
                    final(self).view() == v && final(requests)@ == old(requests)@
                } else {
                    let docked = resized_docks(v.docked, w, h);
                    &&& final(self).view() == (MonitorView {
                        rect: Rect { width: w, height: h, ..v.rect },
                        docked,
                        ..v
                    })
                    &&& final(requests)@ == old(requests)@ + configure_requests(docked, 0)
                }
            }),
    {
        let width = width as u32;
        let height = height as u32;
        if self.rect.width == width && self.rect.height == height {
            return;
        }
        self.rect.width = width;
        self.rect.height = height;
        let ghost v = old(self).view();
        let ghost target = resized_docks(v.docked, width, height);
        let len = self.docked.len();
        let mut i: usize = 0;
        while i < len
            invariant
                self.docked.wf(),
                self.workspaces@ == old(self).workspaces@,
                self.focused_workspace_idx == old(self).focused_workspace_idx,
                self.to_check_deleted@ == old(self).to_check_deleted@,
                self.dmenu_window == old(self).dmenu_window,
                self.rect == (Rect { width, height, ..old(self).rect }),
                v == old(self).view(),
                len == self.docked.spec_len(),
                len == v.docked.len(),
                docks_fit(v.docked),
                target == resized_docks(v.docked, width, height),
                width <= 0xffff,
                height <= 0xffff,
                0 <= i <= len,
                forall|k: int| 0 <= k < i ==> #[trigger] self.docked.entries()[k] == target[k],
                forall|k: int| i <= k < len ==> #[trigger] self.docked.entries()[k] == v.docked[k],
            decreases len - i,
        {
            let r = *self.docked.index_rect(i);
            assert(self.docked.entries()[i as int] == v.docked[i as int]);
            assert(r == v.docked[i as int].rect);
            let mut rect = r;
            if rect.width > rect.height {
                rect.width = width;
            } else {
                rect.height = height;
            }
            if rect.y > (height / 2) as i32 {
                rect.y = height as i32 - rect.height as i32;
            }
            if rect.x > (width / 2) as i32 {
                rect.x = width as i32 - rect.width as i32;
            }
            assert(rect == resized_dock(r, width, height));
            let ghost before = self.docked.entries();
            self.docked.update_rect_at(i, rect);
            assert forall|k: int| 0 <= k < len implies #[trigger] self.docked.entries()[k] == (if k == i {
                Window { rect, ..before[k] }
            } else {
                before[k]
            }) by {}
            i = i + 1;
        }
        assert(self.docked.entries() =~= target);
        configure_all(&self.docked, 0, requests);
    }

    /// Shows the workspace with id `id` in place of the shown one, as
    /// `switch_post` says.
    pub fn handle_switch_to_workspace(
        &mut self,
        workspace_id: u32,
        config: &Config,
        requests: &mut Vec<XRequest>,
        notices: &mut Vec<Message<'static>>,
    )
        requires
            old(self).wf(),
            switch_pre(old(self).view(), workspace_id, *config),
        ensures
            final(self).wf(),
            switch_post(old(self).view(), final(self).view(), old(requests)@, final(requests)@, old(notices)@, final(notices)@, workspace_id, *config),
    {
        let ghost v = self.view();
        let fi = self.focused_workspace_idx;
        let focused_workspace_id = self.workspaces[fi].id();
        if workspace_id == focused_workspace_id {
            return;
        }
        let avail_rect = self.available_rect();
        let hide_below = workspace_id < focused_workspace_id;
        self.workspaces[fi].hide_all_windows(&avail_rect, config, hide_below, requests);
        proof {
            lemma_update_workspace(old(self).workspaces@, self.workspaces@, fi as int);
        }
        let ghost v1 = self.view();
        let ghost rh = requests@;
        assert(ids_of(v1.workspaces) =~= ids_of(v.workspaces));
        let t = self.workspace_index(workspace_id);
        proof {
            lemma_workspace_position(ids_of(v.workspaces), workspace_id);
            assert(ids_of(v.workspaces)[fi as int] == focused_workspace_id);
            assert(t != fi);
            let ws = with_workspace(v.workspaces, workspace_id);
            assert(self.view().workspaces[t as int] == ws[t as int]);
        }
        let ghost before_show = self.workspaces@;
        self.focused_workspace_idx = t;
        self.workspaces[t].show_all_windows(&avail_rect, config, requests);
        proof {
            lemma_update_workspace(before_show, self.workspaces@, t as int);
        }
        let ghost rs = requests@;
        requests.push(XRequest::Flush);
        let ids = self.workspace_ids();
        notices.push(Message::WorkspaceList(ids));
        notices.push(Message::WorkspaceActive(workspace_id));
        proof {
            assert(requests@.drop_last() =~= rs);
            assert(notices@.take(old(notices)@.len() as int) =~= old(notices)@);
            let after = self.view();
            let ws = with_workspace(v.workspaces, workspace_id);
            assert(after.workspaces =~= ws.update(fi as int, after.workspaces[fi as int]).update(t as int, after.workspaces[t as int]));
            assert(hide_all_post(v.focused(), after.workspaces[fi as int], old(requests)@, rh, v.avail(), *config, workspace_id < v.focused().id));
            assert(show_all_post(ws[t as int], after.workspaces[t as int], rh, requests@.drop_last(), v.avail(), *config));
            assert(switch_notices(old(notices)@, notices@, ids_of(after.workspaces), workspace_id));
        }
    }
}

/// What adding the window moved in from another workspace needs.
pub open spec fn moved_in_pre(ws: WorkspaceView, window: xcb_window_t, rect: Rect, t: WindowType, avail: Rect, config: Config) -> bool {
    match t {
        WindowType::Normal => existing_normal_pre(ws, window, rect, avail, config),
        WindowType::Floating => new_floating_pre(ws, window, rect, avail, config),
        WindowType::Docked => true,
    }
}

/// What adding the window moved in from another workspace does: a tiled
/// window is placed as a tiled window moved in is; a floating window is
/// placed as a new floating window asking for its rectangle.
pub open spec fn moved_in_post(
    ws: WorkspaceView,
    after: WorkspaceView,
    r0: Seq<XRequest>,
    r1: Seq<XRequest>,
    window: xcb_window_t,
    rect: Rect,
    t: WindowType,
    avail: Rect,
    config: Config,
) -> bool {
    match t {
        WindowType::Normal => existing_normal_post(ws, after, r0, r1, window, rect, avail, config),
        WindowType::Floating => new_floating_post(ws, after, r0, r1, window, rect, avail, config),
        WindowType::Docked => after == ws && r1 == r0,
    }
}

/// What moving the focused window to the workspace with id `id` needs: each
/// step's needs, for whatever the steps before it give.
pub open spec fn move_to_pre(v: MonitorView, id: u32, switch: bool, config: Config) -> bool {
    let fi = v.focused_workspace_idx as int;
    let avail = v.avail();
    id != v.focused().id ==> {
        &&& v.avail_ok()
        &&& pop_focused_pre(v.focused(), avail, config)
        &&& forall|popped: WorkspaceView, rp0: Seq<XRequest>, rp1: Seq<XRequest>, res: Option<(xcb_window_t, Rect, WindowType)>|
            #[trigger] pop_focused_post(v.focused(), popped, rp0, rp1, avail, config, res) && res is Some ==> {
                let (w, r, t) = res->0;
                let ws = with_workspace(v.workspaces.update(fi, popped), id);
                let ti = workspace_position(ids_of(v.workspaces), id);
                &&& moved_in_pre(ws[ti], w, r, t, avail, config)
                &&& switch ==> hide_all_pre(popped, avail, config, id < v.focused().id)
                &&& switch ==> forall|added: WorkspaceView, ra0: Seq<XRequest>, ra1: Seq<XRequest>|
                    #[trigger] moved_in_post(ws[ti], added, ra0, ra1, w, r, t, avail, config) ==> show_all_pre(added, avail, config)
            }
    }
}

/// What moving the focused window to the workspace with id `id` does: the
/// focused window leaves the shown workspace and joins the other one (added
/// empty if none has the id); with `switch`, that one is then shown in place
/// of this one. Nothing to move, nothing happens.
pub open spec fn move_to_post(
    v: MonitorView,
    after: MonitorView,
    r0: Seq<XRequest>,
    r1: Seq<XRequest>,
    n0: Seq<Message<'static>>,
    n1: Seq<Message<'static>>,
    id: u32,
    switch: bool,
    config: Config,
) -> bool {
    let fi = v.focused_workspace_idx as int;
    let avail = v.avail();
    let ti = workspace_position(ids_of(v.workspaces), id);
    if id == v.focused().id {
        after == v && r1 == r0 && n1 == n0
    } else {
        exists|popped: WorkspaceView, rp: Seq<XRequest>, res: Option<(xcb_window_t, Rect, WindowType)>|
            #[trigger] pop_focused_post(v.focused(), popped, r0, rp, avail, config, res) && if res is None {
                after == v.with_focused(popped) && r1 == rp && n1 == n0
            } else {
                let (w, r, t) = res->0;
                let ws = with_workspace(v.workspaces.update(fi, popped), id);
                exists|added: WorkspaceView, ra: Seq<XRequest>|
                    #[trigger] moved_in_post(ws[ti], added, rp, ra, w, r, t, avail, config) && if switch {
                        exists|rh: Seq<XRequest>|
                            {
                                &&& hide_all_post(popped, after.workspaces[fi], ra, rh, avail, config, id < v.focused().id)
                                &&& show_all_post(added, after.workspaces[ti], rh, r1.drop_last(), avail, config)
                                &&& flushed(r1, r1.drop_last())
                                &&& after == MonitorView {
                                    workspaces: ws.update(fi, after.workspaces[fi]).update(ti, after.workspaces[ti]),
                                    focused_workspace_idx: ti as nat,
                                    ..v
                                }
                                &&& switch_notices(n0, n1, ids_of(after.workspaces), id)
                            }
                    } else {
                        &&& after == MonitorView { workspaces: ws.update(ti, added), ..v }
                        &&& flushed(r1, ra)
                        &&& n1 == n0
                    }
            }
    }
}

impl Monitor {
    /// Adds the window moved in from another workspace to the workspace at
    /// `ti`, as `moved_in_post` says.
    fn add_moved_window(
        &mut self,
        ti: usize,
        window: xcb_window_t,
        rect: Rect,
        t: WindowType,
        avail_rect: &Rect,
        config: &Config,
        requests: &mut Vec<XRequest>,
    )
        requires
            old(self).wf(),
            ti < old(self).view().workspaces.len(),
            moved_in_pre(old(self).view().workspaces[ti as int], window, rect, t, *avail_rect, *config),
        ensures
            final(self).wf(),
            moved_in_post(
                old(self).view().workspaces[ti as int],
                final(self).view().workspaces[ti as int],
                old(requests)@,
                final(requests)@,
                window,
                rect,
                t,
                *avail_rect,
                *config,
            ),
            final(self).view() == (MonitorView {
                workspaces: old(self).view().workspaces.update(ti as int, final(self).view().workspaces[ti as int]),
                ..old(self).view()
            }),
    {
        match t {
            WindowType::Normal => {
                self.workspaces[ti].handle_existing_normal_window(window, rect, avail_rect, config, requests);
            },
            WindowType::Floating => {
                self.workspaces[ti].handle_new_floating_window(window, rect, avail_rect, config, requests);
            },
            WindowType::Docked => {},
        }
        proof {
            assert(self.workspaces@ =~= old(self).workspaces@.update(ti as int, self.workspaces@[ti as int]));
            lemma_update_workspace(old(self).workspaces@, self.workspaces@, ti as int);
        }
    }

    /// Moves the focused window to the workspace with id `id`, as
    /// `move_to_post` says.
    pub fn handle_move_focused_window_to_workspace(
        &mut self,
        workspace_id: u32,
        switch_to_new_workspace: bool,
        config: &Config,
        requests: &mut Vec<XRequest>,
        notices: &mut Vec<Message<'static>>,
    )
        requires
            old(self).wf(),
            move_to_pre(old(self).view(), workspace_id, switch_to_new_workspace, *config),
        ensures
            final(self).wf(),
            move_to_post(
                old(self).view(),
                final(self).view(),
                old(requests)@,
                final(requests)@,
                old(notices)@,
                final(notices)@,
                workspace_id,
                switch_to_new_workspace,
                *config,
            ),
    {
        let ghost v = self.view();
        let fi = self.focused_workspace_idx;
        let focused_workspace_id = self.workspaces[fi].id();
        if workspace_id == focused_workspace_id {
            return;
        }
        let avail_rect = self.available_rect();
        let popped = self.workspaces[fi].pop_focused_window(&avail_rect, config, requests);
        proof {
            lemma_update_workspace(old(self).workspaces@, self.workspaces@, fi as int);
        }
        let ghost v1 = self.view();
        let ghost rp = requests@;
        assert(pop_focused_post(v.focused(), v1.focused(), old(requests)@, rp, avail_rect, *config, popped));
        if let Some((window, rect, window_type)) = popped {
            assert(ids_of(v1.workspaces) =~= ids_of(v.workspaces));
            let ti = self.workspace_index(workspace_id);
            proof {
                lemma_workspace_position(ids_of(v.workspaces), workspace_id);
                assert(ids_of(v.workspaces)[fi as int] == focused_workspace_id);
                assert(ti != fi);
            }
            let ghost v2 = self.view();
            self.add_moved_window(ti, window, rect, window_type, &avail_rect, config, requests);
            let ghost v3 = self.view();
            let ghost ra = requests@;
            proof {
                let ws = with_workspace(v.workspaces.update(fi as int, v1.focused()), workspace_id);
                assert(v1.workspaces == v.workspaces.update(fi as int, v1.focused()));
                assert(v2.workspaces == ws);
                assert(v3.workspaces[fi as int] == v1.focused());
                assert(moved_in_post(ws[ti as int], v3.workspaces[ti as int], rp, ra, window, rect, window_type, avail_rect, *config));
                if switch_to_new_workspace {
                    assert(hide_all_pre(v1.focused(), avail_rect, *config, workspace_id < focused_workspace_id));
                    assert(show_all_pre(v3.workspaces[ti as int], avail_rect, *config));
                }
            }
            if switch_to_new_workspace {
                let ghost before_hide = self.workspaces@;
                self.workspaces[fi].hide_all_windows(&avail_rect, config, workspace_id < focused_workspace_id, requests);
                proof {
                    lemma_update_workspace(before_hide, self.workspaces@, fi as int);
                }
                let ghost rh = requests@;
                self.focused_workspace_idx = ti;
                let ghost before_show = self.workspaces@;
                assert(views_of(before_show).len() == v3.workspaces.len());
                assert(ti < before_show.len());
                assert(before_show[ti as int].wf());
                assert(before_show[ti as int].view() == v3.workspaces[ti as int]);
                self.workspaces[ti].show_all_windows(&avail_rect, config, requests);
                proof {
                    lemma_update_workspace(before_show, self.workspaces@, ti as int);
                }
                let ghost rs = requests@;
                requests.push(XRequest::Flush);
                let ids = self.workspace_ids();
                notices.push(Message::WorkspaceList(ids));
                notices.push(Message::WorkspaceActive(workspace_id));
                proof {
                    let after = self.view();
                    let ws = with_workspace(v.workspaces.update(fi as int, v1.focused()), workspace_id);
                    assert(v2.workspaces == ws);
                    assert(requests@.drop_last() =~= rs);
                    assert(notices@.take(old(notices)@.len() as int) =~= old(notices)@);
                    assert(after.workspaces =~= ws.update(fi as int, after.workspaces[fi as int]).update(ti as int, after.workspaces[ti as int]));
                    assert(hide_all_post(v1.focused(), after.workspaces[fi as int], ra, rh, avail_rect, *config, workspace_id < focused_workspace_id));
                    assert(show_all_post(v3.workspaces[ti as int], after.workspaces[ti as int], rh, requests@.drop_last(), avail_rect, *config));
                    assert(switch_notices(old(notices)@, notices@, ids_of(after.workspaces), workspace_id));
                    assert(moved_in_post(ws[ti as int], v3.workspaces[ti as int], rp, ra, window, rect, window_type, avail_rect, *config));
                }
            } else {
                requests.push(XRequest::Flush);
                proof {
                    let ws = with_workspace(v.workspaces.update(fi as int, v1.focused()), workspace_id);
                    assert(v2.workspaces == ws);
                    assert(self.view().workspaces =~= ws.update(ti as int, v3.workspaces[ti as int]));
                    assert(moved_in_post(ws[ti as int], v3.workspaces[ti as int], rp, ra, window, rect, window_type, avail_rect, *config));
                }
            }
        } else {
            assert(self.view() == v.with_focused(v1.focused()));
        }
    }
}

/// An entry of `to_check_deleted` is due: the window was asked to close
/// more than five seconds before `now`.
pub open spec fn overdue(requested: u64, now: u64) -> bool {
    now > requested && now - requested > 5
}

/// The entries still to check: those whose window exists and is not due.
pub open spec fn still_to_check(entries: Seq<(xcb_window_t, u64)>, exists: Seq<bool>, now: u64) -> Seq<(xcb_window_t, u64)>
    decreases entries.len(),
{
    if entries.len() == 0 {
        seq![]
    } else {
        let rest = still_to_check(entries.drop_last(), exists.take(entries.len() - 1), now);
        let e = entries.last();
        if exists[entries.len() - 1] && !overdue(e.1, now) {
            rest.push(e)
        } else {
            rest
        }
    }
}

/// `Destroy` of each window that exists and is due, in order.
pub open spec fn overdue_requests(entries: Seq<(xcb_window_t, u64)>, exists: Seq<bool>, now: u64) -> Seq<XRequest>
    decreases entries.len(),
{
    if entries.len() == 0 {
        seq![]
    } else {
        let rest = overdue_requests(entries.drop_last(), exists.take(entries.len() - 1), now);
        let e = entries.last();
        if exists[entries.len() - 1] && overdue(e.1, now) {
            rest.push(XRequest::Destroy(e.0))
        } else {
            rest
        }
    }
}

/// What changing focus in `direction` asks of the monitor.
pub open spec fn focus_change_pre(v: MonitorView, direction: Direction, config: Config) -> bool {
    let id = v.focused().id;
    &&& v.avail_ok()
    &&& match direction {
        Direction::Left => focus_left_pre(v.focused(), config, v.avail()),
        Direction::Right => focus_right_pre(v.focused(), config, v.avail()),
        Direction::Up => id > 1 ==> switch_pre(v, (id - 1) as u32, config),
        Direction::Down => id < 9 ==> switch_pre(v, (id + 1) as u32, config),
    }
}

/// Focus changed in `direction`: left or right among the tiled windows of the
/// shown workspace, up or down to the previous or next workspace (1 to 9);
/// the requests end with a flush.
pub open spec fn focus_change_post(
    v: MonitorView,
    after: MonitorView,
    r0: Seq<XRequest>,
    r1: Seq<XRequest>,
    n0: Seq<Message<'static>>,
    n1: Seq<Message<'static>>,
    direction: Direction,
    config: Config,
) -> bool {
    let body = r1.drop_last();
    let id = v.focused().id;
    &&& flushed(r1, body)
    &&& match direction {
        Direction::Left => {
            &&& focus_left_post(v.focused(), after.focused(), r0, body, config, v.avail())
            &&& after == v.with_focused(after.focused())
            &&& n1 == n0
        },
        Direction::Right => {
            &&& focus_right_post(v.focused(), after.focused(), r0, body, config, v.avail())
            &&& after == v.with_focused(after.focused())
            &&& n1 == n0
        },
        Direction::Up => if id > 1 {
            switch_post(v, after, r0, body, n0, n1, (id - 1) as u32, config)
        } else {
            after == v && body == r0 && n1 == n0
        },
        Direction::Down => if id < 9 {
            switch_post(v, after, r0, body, n0, n1, (id + 1) as u32, config)
        } else {
            after == v && body == r0 && n1 == n0
        },
    }
}

/// What moving the focused window in `direction` asks of the monitor.
pub open spec fn move_window_pre(v: MonitorView, direction: Direction, config: Config) -> bool {
    let id = v.focused().id;
    &&& v.avail_ok()
    &&& match direction {
        Direction::Left => move_left_pre(v.focused(), config, v.avail()),
        Direction::Right => move_right_pre(v.focused(), config, v.avail()),
        Direction::Up => id > 1 ==> move_to_pre(v, (id - 1) as u32, true, config),
        Direction::Down => id < 9 ==> move_to_pre(v, (id + 1) as u32, true, config),
    }
}

/// The focused window moved in `direction`: it traded places left or right
/// with a tiled neighbour, or went up or down to the previous or next
/// workspace (1 to 9), which is then shown; the requests end with a flush.
pub open spec fn move_window_post(
    v: MonitorView,
    after: MonitorView,
    r0: Seq<XRequest>,
    r1: Seq<XRequest>,
    n0: Seq<Message<'static>>,
    n1: Seq<Message<'static>>,
    direction: Direction,
    config: Config,
) -> bool {
    let body = r1.drop_last();
    let id = v.focused().id;
    &&& flushed(r1, body)
    &&& match direction {
        Direction::Left => {
            &&& move_left_post(v.focused(), after.focused(), r0, body, config, v.avail())
            &&& after == v.with_focused(after.focused())
            &&& n1 == n0
        },
        Direction::Right => {
            &&& move_right_post(v.focused(), after.focused(), r0, body, config, v.avail())
            &&& after == v.with_focused(after.focused())
            &&& n1 == n0
        },
        Direction::Up => if id > 1 {
            move_to_post(v, after, r0, body, n0, n1, (id - 1) as u32, true, config)
        } else {
            after == v && body == r0 && n1 == n0
        },
        Direction::Down => if id < 9 {
            move_to_post(v, after, r0, body, n0, n1, (id + 1) as u32, true, config)
        } else {
            after == v && body == r0 && n1 == n0
        },
    }
}

/// What resizing the focused window by `px` asks of the monitor: only a
/// horizontal change is made, and a change of nothing asks nothing.
pub open spec fn resize_pre(v: MonitorView, dimension: Dimension, px: i32, config: Config) -> bool {
    px != 0 ==> {
        &&& dimension == Dimension::Horizontal
        &&& v.avail_ok()
        &&& resize_horizontal_pre(v.focused(), config, v.avail(), px)
    }
}

/// The focused tiled window grew or shrank by `px`, and the requests end with
/// a flush; a change of nothing changed nothing.
pub open spec fn resize_post(v: MonitorView, after: MonitorView, r0: Seq<XRequest>, r1: Seq<XRequest>, px: i32, config: Config) -> bool {
    if px == 0 {
        after == v && r1 == r0
    } else {
        &&& resize_horizontal_post(v.focused(), after.focused(), r0, r1.drop_last(), config, v.avail(), px)
        &&& after == v.with_focused(after.focused())
        &&& flushed(r1, r1.drop_last())
    }
}

/// What closing the focused window asks of the monitor.
pub open spec fn kill_pre(v: MonitorView, config: Config) -> bool {
    &&& v.avail_ok()
    &&& pop_focused_pre(v.focused(), v.avail(), config)
}

/// The focused window left its workspace and was asked to close, unless it
/// was already waiting to be destroyed; the requests then end with a flush.
pub open spec fn kill_post(v: MonitorView, after: MonitorView, r0: Seq<XRequest>, r1: Seq<XRequest>, config: Config) -> bool {
    exists|rp: Seq<XRequest>, res: Option<(xcb_window_t, Rect, WindowType)>|
        #[trigger] pop_focused_post(v.focused(), after.focused(), r0, rp, v.avail(), config, res) && {
            &&& after == v.with_focused(after.focused())
            &&& match res {
                Some((w, _, _)) => if exists|i: int| 0 <= i < v.to_check_deleted.len() && #[trigger] v.to_check_deleted[i].0 == w {
                    r1 == rp
                } else {
                    r1 == rp.push(XRequest::DestroyGracefully(w)).push(XRequest::Flush)
                },
                None => r1 == rp.push(XRequest::Flush),
            }
        }
}

impl Monitor {
    /// Focus moves left or right among the tiled windows of the shown
    /// workspace, or up or down to the previous or next workspace (1 to 9).
    pub fn handle_focus_window_change(
        &mut self,
        direction: Direction,
        config: &Config,
        requests: &mut Vec<XRequest>,
        notices: &mut Vec<Message<'static>>,
    )
        requires
            old(self).wf(),
            focus_change_pre(old(self).view(), direction, *config),
        ensures
            final(self).wf(),
            focus_change_post(
                old(self).view(),
                final(self).view(),
                old(requests)@,
                final(requests)@,
                old(notices)@,
                final(notices)@,
                direction,
                *config,
            ),
    {
        let avail_rect = self.available_rect();
        let fi = self.focused_workspace_idx;
        match direction {
            Direction::Left => {
                self.workspaces[fi].handle_change_focus_window_left(config, &avail_rect, requests);
                proof {
                    lemma_update_workspace(old(self).workspaces@, self.workspaces@, fi as int);
                }
            },
            Direction::Right => {
                self.workspaces[fi].handle_change_focus_window_right(config, &avail_rect, requests);
                proof {
                    lemma_update_workspace(old(self).workspaces@, self.workspaces@, fi as int);
                }
            },
            Direction::Up => {
                let focused_workspace_id = self.workspaces[fi].id();
                if focused_workspace_id > 1 {
                    self.handle_switch_to_workspace(focused_workspace_id - 1, config, requests, notices);
                }
            },
            Direction::Down => {
                let focused_workspace_id = self.workspaces[fi].id();
                if focused_workspace_id < 9 {
                    self.handle_switch_to_workspace(focused_workspace_id + 1, config, requests, notices);
                }
            },
        }
        let ghost body = requests@;
        requests.push(XRequest::Flush);
        assert(requests@.drop_last() =~= body);
    }

    /// The focused tiled window trades places left or right, or the focused
    /// window moves up or down to the previous or next workspace (1 to 9),
    /// which is then shown.
    pub fn handle_move_window(
        &mut self,
        direction: Direction,
        config: &Config,
        requests: &mut Vec<XRequest>,
        notices: &mut Vec<Message<'static>>,
    )
        requires
            old(self).wf(),
            move_window_pre(old(self).view(), direction, *config),
        ensures
            final(self).wf(),
            move_window_post(
                old(self).view(),
                final(self).view(),
                old(requests)@,
                final(requests)@,
                old(notices)@,
                final(notices)@,
                direction,
                *config,
            ),
    {
        let avail_rect = self.available_rect();
        let fi = self.focused_workspace_idx;
        match direction {
            Direction::Left => {
                self.workspaces[fi].handle_move_window_left(config, &avail_rect, requests);
                proof {
                    lemma_update_workspace(old(self).workspaces@, self.workspaces@, fi as int);
                }
            },
            Direction::Right => {
                self.workspaces[fi].handle_move_window_right(config, &avail_rect, requests);
                proof {
                    lemma_update_workspace(old(self).workspaces@, self.workspaces@, fi as int);
                }
            },
            Direction::Up => {
                let focused_workspace_id = self.workspaces[fi].id();
                if focused_workspace_id > 1 {
                    self.handle_move_focused_window_to_workspace(focused_workspace_id - 1, true, config, requests, notices);
                }
            },
            Direction::Down => {
                let focused_workspace_id = self.workspaces[fi].id();
                if focused_workspace_id < 9 {
                    self.handle_move_focused_window_to_workspace(focused_workspace_id + 1, true, config, requests, notices);
                }
            },
        }
        let ghost body = requests@;
        requests.push(XRequest::Flush);
        assert(requests@.drop_last() =~= body);
    }

    /// The focused tiled window grows or shrinks by `size_change_pixels`; a
    /// change of nothing does nothing.
    pub fn handle_resize_window(
        &mut self,
        dimension: Dimension,
        size_change_pixels: i32,
        config: &Config,
        requests: &mut Vec<XRequest>,
    )
        requires
            old(self).wf(),
            resize_pre(old(self).view(), dimension, size_change_pixels, *config),
        ensures
            final(self).wf(),
            resize_post(old(self).view(), final(self).view(), old(requests)@, final(requests)@, size_change_pixels, *config),
    {
        if size_change_pixels == 0 {
            return;
        }
        let avail_rect = self.available_rect();
        let fi = self.focused_workspace_idx;
        self.workspaces[fi].handle_resize_window_horizontal(config, &avail_rect, size_change_pixels, requests);
        proof {
            lemma_update_workspace(old(self).workspaces@, self.workspaces@, fi as int);
        }
        let ghost body = requests@;
        requests.push(XRequest::Flush);
        assert(requests@.drop_last() =~= body);
    }

    /// The pointer moved, on the shown workspace.
    pub fn handle_motion_notify(&mut self, x: i32, y: i32, window: xcb_window_t, state: u32, requests: &mut Vec<XRequest>)
        requires
            old(self).wf(),
        ensures
            final(self).wf(),
            final(self).view() == old(self).view().with_focused(final(self).view().focused()),
            motion_notify_post(old(self).view().focused(), final(self).view().focused(), old(requests)@, final(requests)@, state),
    {
        let fi = self.focused_workspace_idx;
        self.workspaces[fi].handle_motion_notify(x, y, window, state, requests);
        proof {
            lemma_update_workspace(old(self).workspaces@, self.workspaces@, fi as int);
        }
    }

    /// A pointer button was pressed, on the shown workspace; what it asks to
    /// grab the pointer for, if anything.
    pub fn handle_button_press(
        &mut self,
        x: i32,
        y: i32,
        window: xcb_window_t,
        state: u16,
        config: &Config,
        requests: &mut Vec<XRequest>,
    ) -> (grab: Option<xcb_window_t>)
        requires
            old(self).wf(),
            !(has_mask(state as u32, XCB_MOD_MASK_1) && !has_window(old(self).view().focused().floating, window)
                && has_window(old(self).view().focused().normal, window)),
        ensures
            final(self).wf(),
            final(self).view() == old(self).view(),
            final(requests)@ == old(requests)@,
            grab is None,
    {
        let fi = self.focused_workspace_idx;
        let grab = self.workspaces[fi].handle_button_press(x, y, window, state, config, requests);
        proof {
            lemma_update_workspace(old(self).workspaces@, self.workspaces@, fi as int);
            assert(self.view().workspaces =~= old(self).view().workspaces);
        }
        grab
    }

    /// The pointer button was released, on the shown workspace: a drag ends.
    pub fn handle_button_release(&mut self, requests: &mut Vec<XRequest>)
        requires
            old(self).wf(),
        ensures
            final(self).wf(),
            final(self).view() == old(self).view().with_focused(
                WorkspaceView { dragged_window: None, ..old(self).view().focused() },
            ),
            final(requests)@ == old(requests)@ + ungrab_requests(old(self).view().focused().dragged_window).push(
                XRequest::Flush,
            ),
    {
        let fi = self.focused_workspace_idx;
        self.workspaces[fi].handle_button_release(requests);
        proof {
            lemma_update_workspace(old(self).workspaces@, self.workspaces@, fi as int);
        }
    }

    /// The focused window leaves its workspace and is asked to close, unless
    /// it is already waiting to be destroyed.
    pub fn handle_kill_focused_window(&mut self, config: &Config, requests: &mut Vec<XRequest>)
        requires
            old(self).wf(),
            kill_pre(old(self).view(), *config),
        ensures
            final(self).wf(),
            kill_post(old(self).view(), final(self).view(), old(requests)@, final(requests)@, *config),
    {
        let avail_rect = self.available_rect();
        let fi = self.focused_workspace_idx;
        let popped = self.workspaces[fi].pop_focused_window(&avail_rect, config, requests);
        proof {
            lemma_update_workspace(old(self).workspaces@, self.workspaces@, fi as int);
        }
        let ghost rp = requests@;
        let ghost after = self.view();
        let ghost v = old(self).view();
        assert(after == v.with_focused(after.focused()));
        assert(pop_focused_post(v.focused(), after.focused(), old(requests)@, rp, v.avail(), *config, popped));
        if let Some((window, _, _)) = popped {
            if self.is_waiting_deletion(window) {
                return;
            }
            requests.push(XRequest::DestroyGracefully(window));
        }
        requests.push(XRequest::Flush);
    }

    /// `window` was asked to close and is waiting to be destroyed.
    fn is_waiting_deletion(&self, window: xcb_window_t) -> (res: bool)
        ensures
            res == exists|i: int| 0 <= i < self.view().to_check_deleted.len() && #[trigger] self.view().to_check_deleted[i].0 == window,
    {
        let mut i: usize = 0;
        while i < self.to_check_deleted.len()
            invariant
                0 <= i <= self.to_check_deleted@.len(),
                forall|j: int| 0 <= j < i ==> self.to_check_deleted@[j].0 != window,
            decreases self.to_check_deleted@.len() - i,
        {
            if self.to_check_deleted[i].0 == window {
                assert(self.view().to_check_deleted[i as int].0 == window);
                return true;
            }
            i = i + 1;
        }
        false
    }

    /// Destroys the windows asked to close more than five seconds before `now`
    /// that still exist, and stops watching those that are gone.
    /// `exists[i]` tells whether the window of the `i`-th entry still exists.
    pub fn check_deleted(&mut self, now: u64, exists: &[bool], requests: &mut Vec<XRequest>)
        requires
            old(self).wf(),
            exists@.len() == old(self).view().to_check_deleted.len(),
        ensures
            final(self).wf(),
            ({
                let v = old(self).view();
                &&& final(self).view() == (MonitorView {
                    to_check_deleted: still_to_check(v.to_check_deleted, exists@, now),
                    ..v
                })
                &&& final(requests)@ == old(requests)@ + overdue_requests(v.to_check_deleted, exists@, now)
            }),
    {
        let ghost entries = self.to_check_deleted@;
        if self.to_check_deleted.len() == 0 {
            assert(requests@ =~= old(requests)@ + overdue_requests(entries, exists@, now));
            assert(self.to_check_deleted@ =~= still_to_check(entries, exists@, now));
            return;
        }
        let ghost start = requests@;
        let mut index: usize = 0;
        let mut k: usize = 0;
        while k < exists.len()
            invariant
                self.wf(),
                exists@.len() == entries.len(),
                0 <= k <= entries.len(),
                index <= k,
                index == still_to_check(entries.take(k as int), exists@.take(k as int), now).len(),
                self.to_check_deleted@ == still_to_check(entries.take(k as int), exists@.take(k as int), now)
                    + entries.skip(k as int),
                requests@ == start + overdue_requests(entries.take(k as int), exists@.take(k as int), now),
                self.view() == (MonitorView { to_check_deleted: self.to_check_deleted@, ..old(self).view() }),
            decreases entries.len() - k,
        {
            proof {
                let e = entries.take(k + 1);
                assert(e.drop_last() =~= entries.take(k as int));
                assert(exists@.take(k + 1).take(k as int) =~= exists@.take(k as int));
                assert(e.last() == entries[k as int]);
            }
            let (window, timestamp_requested) = self.to_check_deleted[index];
            assert((window, timestamp_requested) == entries[k as int]);
            if exists[k] {
                if now > timestamp_requested && now - timestamp_requested > 5 {
                    requests.push(XRequest::Destroy(window));
                    self.to_check_deleted.remove(index);
                } else {
                    index = index + 1;
                }
            } else {
                self.to_check_deleted.remove(index);
            }
            proof {
                let kept = still_to_check(entries.take(k + 1), exists@.take(k + 1), now);
                assert(self.to_check_deleted@ =~= kept + entries.skip(k + 1));
            }
            k = k + 1;
        }
        proof {
            assert(entries.take(k as int) =~= entries);
            assert(exists@.take(k as int) =~= exists@);
            assert(self.to_check_deleted@ =~= still_to_check(entries, exists@, now));
        }
    }
}

/// What the window manager learns of a window that asks to be mapped.
#[derive(Debug)]
pub struct MapRequest {
    /// The window asks not to be managed.
    pub override_redirect: bool,
    /// The position and size the window asks for.
    pub rect_hints: Rect,
    /// The workspace (`_NET_WM_DESKTOP`) the window asks for.
    pub requested_workspace: Option<u32>,
    /// The class and instance names of the window.
    pub class_instance: Option<(String, String)>,
    /// The kind of window its type property names.
    pub window_type: WindowType,
    /// The window's `_NET_WM_STRUT_PARTIAL`, if it could be read.
    pub strut: Option<StrutPartial>,
    /// The screen the strut speaks of.
    pub screen_rect: Rect,
}

/// The window is a dmenu window: its class name holds `dmenu`.
pub open spec fn is_dmenu(request: MapRequest) -> bool {
    request.class_instance matches Some((class_name, _)) && has_substring(class_name@, "dmenu"@)
}

/// The settings name the window's class or instance to float.
pub open spec fn floats_by_name(request: MapRequest, names: Seq<String>) -> bool {
    request.class_instance matches Some((class_name, instance_name)) && exists|k: int|
        0 <= k < names.len() && (#[trigger] names[k]@ == class_name@ || names[k]@ == instance_name@)
}

/// The kind the window is managed as.
pub open spec fn managed_type(request: MapRequest, names: Seq<String>) -> WindowType {
    if floats_by_name(request, names) {
        WindowType::Floating
    } else {
        request.window_type
    }
}

/// A docked window that names no workspace, or one above 10, is docked on
/// the monitor for all workspaces.
pub open spec fn docked_workspace(request: MapRequest) -> u32 {
    match request.requested_workspace {
        Some(id) => id,
        None => u32::MAX,
    }
}

/// What mapping `window` needs.
pub open spec fn map_request_pre(v: MonitorView, window: xcb_window_t, request: MapRequest, tiling_width: u32, config: Config) -> bool {
    let avail = v.avail();
    !request.override_redirect ==> {
        &&& v.avail_ok()
        &&& !is_dmenu(request) ==> match managed_type(request, config.override_to_floating@) {
            WindowType::Normal => new_normal_pre(v.focused(), window, avail, tiling_width, config),
            WindowType::Floating => new_floating_pre(v.focused(), window, request.rect_hints, avail, config),
            WindowType::Docked => request.strut matches Some(strut) ==> {
                let r = strut_rect(strut, request.screen_rect);
                let id = docked_workspace(request);
                let t = workspace_position(ids_of(v.workspaces), id);
                &&& strut_rect_ok(strut, request.screen_rect)
                &&& id > 10 && avail.width != 0 && avail.height != 0 ==> magnified_ok(avail, r)
                &&& id <= 10 ==> new_docked_pre(with_workspace(v.workspaces, id)[t], window, r, avail)
            },
        }
    }
}

/// What mapping `window` does. A window that asks not to be managed is
/// left alone. A dmenu window takes a 25 pixels high strip at the top of
/// the monitor. Otherwise the window joins the shown workspace as a tiled or
/// floating window, or, docked, the monitor (for all workspaces, where there
/// is room) or the workspace it names (added if none has that id).
pub open spec fn map_request_post(
    v: MonitorView,
    after: MonitorView,
    r0: Seq<XRequest>,
    r1: Seq<XRequest>,
    window: xcb_window_t,
    request: MapRequest,
    tiling_width: u32,
    config: Config,
) -> bool {
    let avail = v.avail();
    let body = r1.drop_last();
    if request.override_redirect {
        after == v && r1 == r0
    } else if is_dmenu(request) {
        let r = Rect { x: 0, y: 0, width: v.rect.width, height: 25 };
        &&& after == MonitorView { dmenu_window: Some(window), ..v }
        &&& r1 == r0 + seq![
            XRequest::Configure { window, rect: r, border: 0 },
            XRequest::MapWindow(window),
            XRequest::Raise(window),
            XRequest::Flush,
        ]
    } else {
        &&& flushed(r1, body)
        &&& match managed_type(request, config.override_to_floating@) {
            WindowType::Normal => {
                &&& new_normal_post(v.focused(), after.focused(), r0, body, window, avail, tiling_width, config)
                &&& after == v.with_focused(after.focused())
            },
            WindowType::Floating => {
                &&& new_floating_post(v.focused(), after.focused(), r0, body, window, request.rect_hints, avail, config)
                &&& after == v.with_focused(after.focused())
            },
            WindowType::Docked => match request.strut {
                None => after == v && body == r0,
                Some(strut) => {
                    let r = strut_rect(strut, request.screen_rect);
                    let id = docked_workspace(request);
                    let t = workspace_position(ids_of(v.workspaces), id);
                    if id > 10 {
                        if avail.width != 0 && avail.height != 0 {
                            let m = magnified(avail, r);
                            &&& after == MonitorView {
                                docked: v.docked.push(Window { window, rect: m, visible: true }),
                                ..v
                            }
                            &&& body == r0 + seq![
                                XRequest::Configure { window, rect: m, border: 0 },
                                XRequest::MapWindow(window),
                            ]
                        } else {
                            after == v && body == r0
                        }
                    } else {
                        let ws = with_workspace(v.workspaces, id);
                        &&& new_docked_post(ws[t], after.workspaces[t], r0, body, window, r, avail)
                        &&& after == MonitorView { workspaces: ws.update(t, after.workspaces[t]), ..v }
                    }
                },
            },
        }
    }
}

impl Monitor {
    /// `window` asks to be mapped; `request` holds what is known of it, and
    /// `tiling_width` the width the settings give a new tiled window on the
    /// shown workspace.
    pub fn handle_map_request(
        &mut self,
        window: xcb_window_t,
        request: &MapRequest,
        tiling_width: u32,
        config: &Config,
        requests: &mut Vec<XRequest>,
    )
        requires
            old(self).wf(),
            map_request_pre(old(self).view(), window, *request, tiling_width, *config),
        ensures
            final(self).wf(),
            map_request_post(old(self).view(), final(self).view(), old(requests)@, final(requests)@, window, *request, tiling_width, *config),
    {
        if request.override_redirect {
            return;
        }
        let avail_rect = self.available_rect();
        if let Some((class_name, _instance_name)) = &request.class_instance {
            if contains_str(class_name.as_str(), "dmenu") {
                self.dmenu_window = Some(window);
                let rect = Rect { x: 0, y: 0, width: self.rect.width, height: 25 };
                requests.push(XRequest::Configure { window, rect, border: 0 });
                requests.push(XRequest::MapWindow(window));
                requests.push(XRequest::Raise(window));
                requests.push(XRequest::Flush);
                proof {
                    reveal_strlit("dmenu");
                    assert(is_dmenu(*request));
                    assert(requests@ =~= old(requests)@ + seq![
                        XRequest::Configure { window, rect, border: 0 },
                        XRequest::MapWindow(window),
                        XRequest::Raise(window),
                        XRequest::Flush,
                    ]);
                }
                return;
            }
        }
        proof {
            reveal_strlit("dmenu");
        }
        let window_type = self.managed_type(request, config);
        let fi = self.focused_workspace_idx;
        match window_type {
            WindowType::Normal => {
                self.workspaces[fi].handle_new_normal_window(window, &avail_rect, tiling_width, config, requests);
                proof {
                    lemma_update_workspace(old(self).workspaces@, self.workspaces@, fi as int);
                }
            },
            WindowType::Floating => {
                self.workspaces[fi].handle_new_floating_window(window, request.rect_hints, &avail_rect, config, requests);
                proof {
                    lemma_update_workspace(old(self).workspaces@, self.workspaces@, fi as int);
                }
            },
            WindowType::Docked => {
                if let Some(strut) = &request.strut {
                    let partial_strut = strut_rect_on(strut, &request.screen_rect);
                    let workspace_id = match request.requested_workspace {
                        Some(id) => id,
                        None => u32::MAX,
                    };
                    let is_globally_docked = workspace_id > 10;
                    if is_globally_docked {
                        if avail_rect.width != 0 && avail_rect.height != 0 {
                            let magnified_rect = avail_rect.new_rect_magnified(&partial_strut);
                            requests.push(XRequest::Configure { window, rect: magnified_rect, border: 0 });
                            requests.push(XRequest::MapWindow(window));
                            let ghost before = self.docked.entries();
                            self.docked.add(window, magnified_rect, true);
                            assert(self.docked.entries() =~= before.push(Window { window, rect: magnified_rect, visible: true }));
                            assert(requests@ =~= old(requests)@ + seq![
                                XRequest::Configure { window, rect: magnified_rect, border: 0 },
                                XRequest::MapWindow(window),
                            ]);
                        }
                    } else {
                        let t = self.workspace_index(workspace_id);
                        let avail_rect = self.available_rect();
                        let ghost before = self.workspaces@;
                        self.workspaces[t].handle_new_docked_window(window, &partial_strut, &avail_rect, requests);
                        proof {
                            lemma_update_workspace(before, self.workspaces@, t as int);
                        }
                    }
                }
            },
        }
        let ghost body = requests@;
        requests.push(XRequest::Flush);
        assert(requests@.drop_last() =~= body);
    }

    /// The kind `request`'s window is managed as: floating when the settings
    /// name its class or instance, else the kind its type names.
    fn managed_type(&self, request: &MapRequest, config: &Config) -> (res: WindowType)
        ensures
            res == managed_type(*request, config.override_to_floating@),
    {
        if request.class_instance.is_some() {
            let pair = request.class_instance.as_ref().unwrap();
            let class_name = &pair.0;
            let instance_name = &pair.1;
            let mut k: usize = 0;
            while k < config.override_to_floating.len()
                invariant
                    request.class_instance == Some((*class_name, *instance_name)),
                    0 <= k <= config.override_to_floating@.len(),
                    forall|j: int| 0 <= j < k ==> !(#[trigger] config.override_to_floating@[j]@ == class_name@
                        || config.override_to_floating@[j]@ == instance_name@),
                decreases config.override_to_floating@.len() - k,
            {
                let name = config.override_to_floating[k].as_str();
                if str_eq(name, class_name.as_str()) || str_eq(name, instance_name.as_str()) {
                    assert(config.override_to_floating@[k as int]@ == class_name@ || config.override_to_floating@[k as int]@ == instance_name@);
                    assert(floats_by_name(*request, config.override_to_floating@));
                    return WindowType::Floating;
                }
                k = k + 1;
            }
        }
        request.window_type
    }
}

} // verus!
