//! The windows of one kind on a workspace: for each, its X id, its rectangle and
//! whether it is mapped, kept in three parallel vectors.
use vstd::prelude::*;
use crate::rect::Rect;
use vstd::slice::slice_subrange;
use crate::sorting::{
    apply_order, int_keys, is_lex_order, is_stable_order, law_two_stable_sorts, reorder, stable_order,
};

verus! {

/// The X11 id of a window.
#[allow(non_camel_case_types)]
pub type xcb_window_t = u32;

/// One window with its rectangle and visibility.
#[derive(Clone, Copy, Debug, PartialEq, Eq, Structural)]
pub struct Window {
    pub window: xcb_window_t,
    pub rect: Rect,
    pub visible: bool,
}

/// A bound of a range of positions, as `std::ops::Bound` is.
#[derive(Clone, Copy, Debug, PartialEq, Eq)]
pub enum Bound {
    Included(usize),
    Excluded(usize),
    Unbounded,
}

/// The first position a range covers.
pub open spec fn range_start(b: Bound) -> int {
    match b {
        Bound::Included(n) => n as int,
        Bound::Excluded(n) => n + 1,
        Bound::Unbounded => 0,
    }
}

/// The position just past the last one a range covers, in a sequence of `len`.
pub open spec fn range_end(b: Bound, len: int) -> int {
    match b {
        Bound::Included(n) => n + 1,
        Bound::Excluded(n) => n as int,
        Bound::Unbounded => len,
    }
}

/// The range covers positions of a sequence of `len` and its ends fit `usize`.
pub open spec fn range_ok(start: Bound, end: Bound, len: int) -> bool {
    &&& range_start(start) <= usize::MAX
    &&& range_end(end, len) <= usize::MAX
    &&& 0 <= range_start(start) <= range_end(end, len) <= len
}

pub open spec fn x_keys(rects: Seq<Rect>) -> Seq<int> {
    Seq::new(rects.len(), |i: int| rects[i].x as int)
}

pub open spec fn y_keys(rects: Seq<Rect>) -> Seq<int> {
    Seq::new(rects.len(), |i: int| rects[i].y as int)
}

/// The x (or y) coordinates of `rects`.
fn rect_keys(rects: &Vec<Rect>, by_x: bool) -> (res: Vec<i128>)
    ensures
        int_keys(res@) == if by_x { x_keys(rects@) } else { y_keys(rects@) },
{
    let mut keys: Vec<i128> = Vec::new();
    let mut i: usize = 0;
    while i < rects.len()
        invariant
            0 <= i <= rects@.len(),
            keys@.len() == i,
            forall|k: int| 0 <= k < i ==> #[trigger] keys@[k] == if by_x { rects@[k].x as int } else { rects@[k].y as int },
        decreases rects@.len() - i,
    {
        if by_x {
            keys.push(rects[i].x as i128);
        } else {
            keys.push(rects[i].y as i128);
        }
        i = i + 1;
    }
    if by_x {
        assert(int_keys(keys@) =~= x_keys(rects@));
    } else {
        assert(int_keys(keys@) =~= y_keys(rects@));
    }
    keys
}

#[derive(Debug)]
pub struct WindowsCollection {
    windows: Vec<xcb_window_t>,
    rects: Vec<Rect>,
    visibles: Vec<bool>,
}

impl WindowsCollection {
    /// The window ids, in order.
    pub closed spec fn windows_seq(&self) -> Seq<xcb_window_t> {
        self.windows@
    }

    /// The rectangles, in order.
    pub closed spec fn rects_seq(&self) -> Seq<Rect> {
        self.rects@
    }

    /// The visibility flags, in order.
    pub closed spec fn visibles_seq(&self) -> Seq<bool> {
        self.visibles@
    }

    /// The three sequences have one entry per window.
    pub open spec fn wf(&self) -> bool {
        &&& self.windows_seq().len() == self.rects_seq().len()
        &&& self.windows_seq().len() == self.visibles_seq().len()
    }

    pub open spec fn spec_len(&self) -> nat {
        self.windows_seq().len()
    }

    /// The collection as one sequence of windows.
    pub open spec fn entries(&self) -> Seq<Window> {
        Seq::new(
            self.spec_len(),
            |i: int|
                Window {
                    window: self.windows_seq()[i],
                    rect: self.rects_seq()[i],
                    visible: self.visibles_seq()[i],
                },
        )
    }

    /// An empty collection; room for `reserved_capacity` windows is reserved.
    pub fn new(reserved_capacity: usize) -> (res: Self)
        ensures
            res.wf(),
            res.spec_len() == 0,
            res.rects_seq().len() == 0,
            res.visibles_seq().len() == 0,
    {
        let mut windows: Vec<xcb_window_t> = Vec::new();
        let mut rects: Vec<Rect> = Vec::new();
        let mut visibles: Vec<bool> = Vec::new();
        if reserved_capacity > 0 {
            windows.reserve(reserved_capacity);
            rects.reserve(reserved_capacity);
            visibles.reserve(reserved_capacity);
        }
        Self { windows, rects, visibles }
    }

    /// Reorders the windows by the x coordinate of their rectangles; windows
    /// with the same x keep their order.
    pub fn sort_by_rect_x_asc(&mut self)
        requires
            old(self).wf(),
        ensures
            final(self).wf(),
            exists|order: Seq<usize>|
                {
                    &&& is_stable_order(order, x_keys(old(self).rects_seq()))
                    &&& #[trigger] final(self).entries() == reorder(old(self).entries(), order)
                },
    {
        let keys = rect_keys(&self.rects, true);
        assert(keys@.len() == int_keys(keys@).len());
        self.apply_stable_order(&keys);
    }

    /// Reorders the windows by the y coordinate of their rectangles; windows
    /// with the same y keep their order.
    pub fn sort_by_rect_y_asc(&mut self)
        requires
            old(self).wf(),
        ensures
            final(self).wf(),
            exists|order: Seq<usize>|
                {
                    &&& is_stable_order(order, y_keys(old(self).rects_seq()))
                    &&& #[trigger] final(self).entries() == reorder(old(self).entries(), order)
                },
    {
        let keys = rect_keys(&self.rects, false);
        assert(keys@.len() == int_keys(keys@).len());
        self.apply_stable_order(&keys);
    }

    fn apply_stable_order(&mut self, keys: &Vec<i128>)
        requires
            old(self).wf(),
            keys@.len() == old(self).spec_len(),
        ensures
            final(self).wf(),
            exists|order: Seq<usize>|
                {
                    &&& is_stable_order(order, int_keys(keys@))
                    &&& #[trigger] final(self).entries() == reorder(old(self).entries(), order)
                },
    {
        let order = stable_order(keys);
        let ghost old_entries = self.entries();
        self.windows = apply_order(&self.windows, &order);
        self.rects = apply_order(&self.rects, &order);
        self.visibles = apply_order(&self.visibles, &order);
        assert(self.entries() =~= reorder(old_entries, order@));
    }

    /// Appends a window.
    pub fn add(&mut self, window: xcb_window_t, rect: Rect, visible: bool)
        requires
            old(self).wf(),
        ensures
            final(self).wf(),
            final(self).windows_seq() == old(self).windows_seq().push(window),
            final(self).rects_seq() == old(self).rects_seq().push(rect),
            final(self).visibles_seq() == old(self).visibles_seq().push(visible),
    {
        self.windows.push(window);
        self.rects.push(rect);
        self.visibles.push(visible);
    }

    /// Removes the window at `index` and returns it.
    pub fn remove_at(&mut self, index: usize) -> (res: (xcb_window_t, Rect, bool))
        requires
            old(self).wf(),
            index < old(self).spec_len(),
        ensures
            final(self).wf(),
            res.0 == old(self).windows_seq()[index as int],
            res.1 == old(self).rects_seq()[index as int],
            res.2 == old(self).visibles_seq()[index as int],
            final(self).windows_seq() == old(self).windows_seq().remove(index as int),
            final(self).rects_seq() == old(self).rects_seq().remove(index as int),
            final(self).visibles_seq() == old(self).visibles_seq().remove(index as int),
    {
        (self.windows.remove(index), self.rects.remove(index), self.visibles.remove(index))
    }

    pub fn at(&self, index: usize) -> (res: Option<(xcb_window_t, &Rect)>)
        requires
            self.wf(),
        ensures
            index < self.spec_len() ==> res == Some(
                (self.windows_seq()[index as int], &self.rects_seq()[index as int]),
            ),
            index >= self.spec_len() ==> res is None,
    {
        if index < self.windows.len() {
            Some((self.windows[index], &self.rects[index]))
        } else {
            None
        }
    }

    pub fn at_rect(&self, index: usize) -> (res: Option<&Rect>)
        requires
            self.wf(),
        ensures
            index < self.spec_len() ==> res == Some(&self.rects_seq()[index as int]),
            index >= self.spec_len() ==> res is None,
    {
        if index < self.rects.len() {
            Some(&self.rects[index])
        } else {
            None
        }
    }

    pub fn at_rect_mut(&mut self, index: usize) -> (res: Option<&mut Rect>)
        requires
            old(self).wf(),
        ensures
            final(self).wf(),
            final(self).windows_seq() == old(self).windows_seq(),
            final(self).visibles_seq() == old(self).visibles_seq(),
            index < old(self).spec_len() ==> {
                &&& res is Some
                &&& *res->0 == old(self).rects_seq()[index as int]
                &&& final(self).rects_seq() == old(self).rects_seq().update(index as int, *final(res->0))
            },
            index >= old(self).spec_len() ==> res is None && final(self).rects_seq() == old(
                self,
            ).rects_seq(),
    {
        if index < self.rects.len() {
            Some(&mut self.rects[index])
        } else {
            None
        }
    }

    pub fn at_window(&self, index: usize) -> (res: Option<xcb_window_t>)
        requires
            self.wf(),
        ensures
            index < self.spec_len() ==> res == Some(self.windows_seq()[index as int]),
            index >= self.spec_len() ==> res is None,
    {
        if index < self.windows.len() {
            Some(self.windows[index])
        } else {
            None
        }
    }

    pub fn at_visible(&self, index: usize) -> (res: Option<bool>)
        requires
            self.wf(),
        ensures
            index < self.spec_len() ==> res == Some(self.visibles_seq()[index as int]),
            index >= self.spec_len() ==> res is None,
    {
        if index < self.visibles.len() {
            Some(self.visibles[index])
        } else {
            None
        }
    }

    pub fn index(&self, index: usize) -> (res: (xcb_window_t, &Rect))
        requires
            self.wf(),
            index < self.spec_len(),
        ensures
            res.0 == self.windows_seq()[index as int],
            *res.1 == self.rects_seq()[index as int],
    {
        (self.windows[index], &self.rects[index])
    }

    pub fn index_rect(&self, index: usize) -> (res: &Rect)
        requires
            self.wf(),
            index < self.spec_len(),
        ensures
            *res == self.rects_seq()[index as int],
    {
        &self.rects[index]
    }

    pub fn index_rect_mut(&mut self, index: usize) -> (res: &mut Rect)
        requires
            old(self).wf(),
            index < old(self).spec_len(),
        ensures
            final(self).wf(),
            *res == old(self).rects_seq()[index as int],
            final(self).rects_seq() == old(self).rects_seq().update(index as int, *final(res)),
            final(self).windows_seq() == old(self).windows_seq(),
            final(self).visibles_seq() == old(self).visibles_seq(),
    {
        &mut self.rects[index]
    }

    pub fn index_window(&self, index: usize) -> (res: xcb_window_t)
        requires
            self.wf(),
            index < self.spec_len(),
        ensures
            res == self.windows_seq()[index as int],
    {
        self.windows[index]
    }

    pub fn update_rect_at(&mut self, index: usize, new_rect: Rect)
        requires
            old(self).wf(),
            index < old(self).spec_len(),
        ensures
            final(self).wf(),
            final(self).rects_seq() == old(self).rects_seq().update(index as int, new_rect),
            final(self).windows_seq() == old(self).windows_seq(),
            final(self).visibles_seq() == old(self).visibles_seq(),
    {
        self.rects.set(index, new_rect);
    }

    /// Sets the visibility flag at `index`.
    pub fn set_visible_at(&mut self, index: usize, visible: bool)
        requires
            old(self).wf(),
            index < old(self).spec_len(),
        ensures
            final(self).wf(),
            final(self).visibles_seq() == old(self).visibles_seq().update(index as int, visible),
            final(self).windows_seq() == old(self).windows_seq(),
            final(self).rects_seq() == old(self).rects_seq(),
    {
        self.visibles.set(index, visible);
    }

    pub fn swap_windows(&mut self, index_lhs: usize, index_rhs: usize)
        requires
            old(self).wf(),
            index_lhs < old(self).spec_len(),
            index_rhs < old(self).spec_len(),
        ensures
            final(self).wf(),
            final(self).windows_seq() == swapped(old(self).windows_seq(), index_lhs as int, index_rhs as int),
            final(self).rects_seq() == old(self).rects_seq(),
            final(self).visibles_seq() == old(self).visibles_seq(),
    {
        let l = self.windows[index_lhs];
        let r = self.windows[index_rhs];
        self.windows.set(index_lhs, r);
        self.windows.set(index_rhs, l);
    }

    pub fn swap_visibles(&mut self, index_lhs: usize, index_rhs: usize)
        requires
            old(self).wf(),
            index_lhs < old(self).spec_len(),
            index_rhs < old(self).spec_len(),
        ensures
            final(self).wf(),
            final(self).visibles_seq() == swapped(old(self).visibles_seq(), index_lhs as int, index_rhs as int),
            final(self).rects_seq() == old(self).rects_seq(),
            final(self).windows_seq() == old(self).windows_seq(),
    {
        let l = self.visibles[index_lhs];
        let r = self.visibles[index_rhs];
        self.visibles.set(index_lhs, r);
        self.visibles.set(index_rhs, l);
    }

    pub fn swap_rects(&mut self, index_lhs: usize, index_rhs: usize)
        requires
            old(self).wf(),
            index_lhs < old(self).spec_len(),
            index_rhs < old(self).spec_len(),
        ensures
            final(self).wf(),
            final(self).rects_seq() == swapped(old(self).rects_seq(), index_lhs as int, index_rhs as int),
            final(self).windows_seq() == old(self).windows_seq(),
            final(self).visibles_seq() == old(self).visibles_seq(),
    {
        let l = self.rects[index_lhs];
        let r = self.rects[index_rhs];
        self.rects.set(index_lhs, r);
        self.rects.set(index_rhs, l);
    }

    /// Walks the windows in order.
    pub fn iter(&self) -> (res: WindowsCollectionIter<'_>)
        requires
            self.wf(),
        ensures
            res.spec_collection() == self,
            res.spec_pos() == 0,
    {
        WindowsCollectionIter { collection: self, pos: 0 }
    }

    /// Mutable access to the ids, rectangles and flags at once.
    pub fn iter_mut(&mut self) -> (res: (&mut [xcb_window_t], &mut [Rect], &mut [bool]))
        requires
            old(self).wf(),
        ensures
            res.0@ == old(self).windows_seq(),
            res.1@ == old(self).rects_seq(),
            res.2@ == old(self).visibles_seq(),
            final(self).windows_seq() == final(res.0)@,
            final(self).rects_seq() == final(res.1)@,
            final(self).visibles_seq() == final(res.2)@,
    {
        (self.windows.as_mut_slice(), self.rects.as_mut_slice(), self.visibles.as_mut_slice())
    }

    pub fn rect_iter(&self) -> (res: &[Rect])
        ensures
            res@ == self.rects_seq(),
    {
        self.rects.as_slice()
    }

    pub fn rect_iter_mut(&mut self) -> (res: &mut [Rect])
        ensures
            res@ == old(self).rects_seq(),
            final(self).rects_seq() == final(res)@,
            final(self).windows_seq() == old(self).windows_seq(),
            final(self).visibles_seq() == old(self).visibles_seq(),
    {
        self.rects.as_mut_slice()
    }

    pub fn window_iter(&self) -> (res: &[xcb_window_t])
        ensures
            res@ == self.windows_seq(),
    {
        self.windows.as_slice()
    }

    pub fn visible_iter(&self) -> (res: &[bool])
        ensures
            res@ == self.visibles_seq(),
    {
        self.visibles.as_slice()
    }

    pub fn rects(&self) -> (res: &Vec<Rect>)
        ensures
            res@ == self.rects_seq(),
    {
        &self.rects
    }

    /// The rectangles in the range from `start` to `end`.
    pub fn rects_slice(&self, start: Bound, end: Bound) -> (res: &[Rect])
        requires
            range_ok(start, end, self.rects_seq().len() as int),
        ensures
            res@ == self.rects_seq().subrange(
                range_start(start),
                range_end(end, self.rects_seq().len() as int),
            ),
    {
        let (s, e) = self.range_bounds(start, end);
        slice_subrange(self.rects.as_slice(), s, e)
    }

    /// Mutable access to the rectangles in the range from `start` to `end`.
    pub fn rects_slice_mut(&mut self, start: Bound, end: Bound) -> (res: &mut [Rect])
        requires
            range_ok(start, end, old(self).rects_seq().len() as int),
        ensures
            res@ == old(self).rects_seq().subrange(
                range_start(start),
                range_end(end, old(self).rects_seq().len() as int),
            ),
            final(self).rects_seq() == old(self).rects_seq().subrange(0, range_start(start))
                + final(res)@ + old(self).rects_seq().subrange(
                range_end(end, old(self).rects_seq().len() as int),
                old(self).rects_seq().len() as int,
            ),
            final(self).windows_seq() == old(self).windows_seq(),
            final(self).visibles_seq() == old(self).visibles_seq(),
    {
        let (s, e) = self.range_bounds(start, end);
        let all = self.rects.as_mut_slice();
        let (head, rest) = all.split_at_mut(s);
        let (mid, tail) = rest.split_at_mut(e - s);
        mid
    }

    fn range_bounds(&self, start: Bound, end: Bound) -> (res: (usize, usize))
        requires
            range_ok(start, end, self.rects_seq().len() as int),
        ensures
            res.0 == range_start(start),
            res.1 == range_end(end, self.rects_seq().len() as int),
    {
        let s = match start {
            Bound::Included(n) => n,
            Bound::Excluded(n) => n + 1,
            Bound::Unbounded => 0,
        };
        let e = match end {
            Bound::Included(n) => n + 1,
            Bound::Excluded(n) => n,
            Bound::Unbounded => self.rects.len(),
        };
        (s, e)
    }

    /// Position of the first entry of `window`, if any.
    pub fn index_of(&self, window: xcb_window_t) -> (res: Option<usize>)
        ensures
            res matches Some(i) ==> i < self.spec_len() && self.windows_seq()[i as int] == window
                && forall|j: int| 0 <= j < i ==> self.windows_seq()[j] != window,
            res is None <==> !self.windows_seq().contains(window),
    {
        let mut i: usize = 0;
        while i < self.windows.len()
            invariant
                0 <= i <= self.windows@.len(),
                forall|j: int| 0 <= j < i ==> self.windows@[j] != window,
            decreases self.windows@.len() - i,
        {
            if self.windows[i] == window {
                return Some(i);
            }
            i = i + 1;
        }
        None
    }

    pub fn is_empty(&self) -> (res: bool)
        ensures
            res == (self.spec_len() == 0),
    {
        self.windows.len() == 0
    }

    pub fn len(&self) -> (res: usize)
        ensures
            res == self.spec_len(),
    {
        self.windows.len()
    }
}

/// `s` with the entries at `a` and `b` exchanged.
pub open spec fn swapped<T>(s: Seq<T>, a: int, b: int) -> Seq<T> {
    s.update(a, s[b]).update(b, s[a])
}

/// Walks the windows of a collection in order.
pub struct WindowsCollectionIter<'a> {
    collection: &'a WindowsCollection,
    pos: usize,
}

impl<'a> WindowsCollectionIter<'a> {
    pub closed spec fn spec_collection(&self) -> &'a WindowsCollection {
        self.collection
    }

    pub closed spec fn spec_pos(&self) -> int {
        self.pos as int
    }

    /// The next window, or `None` after the last one.
    pub fn next(&mut self) -> (res: Option<(&'a xcb_window_t, &'a Rect, &'a bool)>)
        requires
            old(self).spec_collection().wf(),
        ensures
            final(self).spec_collection() == old(self).spec_collection(),
            old(self).spec_pos() < old(self).spec_collection().spec_len() ==> {
                &&& final(self).spec_pos() == old(self).spec_pos() + 1
                &&& res == Some(
                    (
                        &old(self).spec_collection().windows_seq()[old(self).spec_pos()],
                        &old(self).spec_collection().rects_seq()[old(self).spec_pos()],
                        &old(self).spec_collection().visibles_seq()[old(self).spec_pos()],
                    ),
                )
            },
            old(self).spec_pos() >= old(self).spec_collection().spec_len() ==> res is None
                && final(self).spec_pos() == old(self).spec_pos(),
    {
        if self.pos < self.collection.windows.len() {
            let i = self.pos;
            self.pos = self.pos + 1;
            Some((&self.collection.windows[i], &self.collection.rects[i], &self.collection.visibles[i]))
        } else {
            None
        }
    }
}

/// Sorting a collection by x (`sort_by_rect_x_asc`) and then by y
/// (`sort_by_rect_y_asc`) sorts its windows by y and, among equal y, by x;
/// windows equal in both keep their order.
pub proof fn law_sort_x_then_y(c0: WindowsCollection, c1: WindowsCollection, c2: WindowsCollection)
    requires
        c0.wf(),
        c1.wf(),
        exists|o1: Seq<usize>|
            {
                &&& is_stable_order(o1, x_keys(c0.rects_seq()))
                &&& #[trigger] c1.entries() == reorder(c0.entries(), o1)
            },
        exists|o2: Seq<usize>|
            {
                &&& is_stable_order(o2, y_keys(c1.rects_seq()))
                &&& #[trigger] c2.entries() == reorder(c1.entries(), o2)
            },
    ensures
        exists|o: Seq<usize>|
            {
                &&& is_lex_order(o, y_keys(c0.rects_seq()), x_keys(c0.rects_seq()))
                &&& #[trigger] c2.entries() == reorder(c0.entries(), o)
            },
{
    let o1 = choose|o1: Seq<usize>|
        {
            &&& is_stable_order(o1, x_keys(c0.rects_seq()))
            &&& #[trigger] c1.entries() == reorder(c0.entries(), o1)
        };
    let o2 = choose|o2: Seq<usize>|
        {
            &&& is_stable_order(o2, y_keys(c1.rects_seq()))
            &&& #[trigger] c2.entries() == reorder(c1.entries(), o2)
        };
    let k1 = x_keys(c0.rects_seq());
    let k2 = y_keys(c0.rects_seq());
    assert(c1.entries().len() == o1.len());
    assert forall|a: int| 0 <= a < o1.len() implies #[trigger] y_keys(c1.rects_seq())[a] == reorder(k2, o1)[a] by {
        assert(c1.entries()[a] == c0.entries()[o1[a] as int]);
        assert(c1.entries()[a].rect == c1.rects_seq()[a]);
        assert(c0.entries()[o1[a] as int].rect == c0.rects_seq()[o1[a] as int]);
    }
    assert(y_keys(c1.rects_seq()) =~= reorder(k2, o1));
    law_two_stable_sorts(c0.entries(), k1, k2, o1, o2);
    assert(c2.entries() == reorder(c0.entries(), reorder(o1, o2)));
}

/// Exchanging the same two entries twice gives the sequence back.
pub proof fn law_swap_twice<T>(s: Seq<T>, a: int, b: int)
    requires
        0 <= a < s.len(),
        0 <= b < s.len(),
    ensures
        swapped(swapped(s, a, b), a, b) == s,
{
    assert(swapped(swapped(s, a, b), a, b) =~= s);
}

/// Removing the last entry undoes adding it.
pub proof fn law_remove_undoes_add<T>(s: Seq<T>, x: T)
    ensures
        s.push(x).remove(s.len() as int) == s,
        s.push(x)[s.len() as int] == x,
{
    assert(s.push(x).remove(s.len() as int) =~= s);
}

} // verus!
