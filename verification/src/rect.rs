//! Screen rectangles and the geometry of tiling: magnifying a docked window to a
//! side of its parent, the area left over once it is added, and where a new
//! tiled window goes next to the focused one.
use vstd::prelude::*;
use crate::arith::{is_isqrt, isqrt_i32, abs, clamp, clamp_i32, clamp_u32_from_zero, abs_i32, half, in_i32, min, signed, to_i32, to_u32, unsigned};

verus! {

#[derive(Clone, Copy, Debug, PartialEq, Eq)]
pub enum RectSide {
    Top,
    Bottom,
    Left,
    Right,
}

/// A rectangle on the screen: the upper left corner and the size.
#[derive(Clone, Copy, Debug, PartialEq, Eq, Structural, Default)]
pub struct Rect {
    pub x: i32,
    pub y: i32,
    pub width: u32,
    pub height: u32,
}

/// The rectangle with these coordinates; each must fit its field.
pub open spec fn mk_rect(x: int, y: int, width: int, height: int) -> Rect {
    Rect { x: x as i32, y: y as i32, width: width as u32, height: height as u32 }
}

impl Rect {
    /// `x + width` as the code computes it, the width read as `i32`.
    pub open spec fn right(self) -> int {
        self.x + signed(self.width)
    }

    /// `y + height` as the code computes it, the height read as `i32`.
    pub open spec fn bottom(self) -> int {
        self.y + signed(self.height)
    }

    /// The size fits in `i32`, so that `right` and `bottom` are the true edges.
    pub open spec fn sizes_fit(self) -> bool {
        self.width <= i32::MAX && self.height <= i32::MAX
    }

    pub open spec fn spec_center(self) -> (int, int) {
        (self.x + half(signed(self.width)), self.y + half(signed(self.height)))
    }

    pub open spec fn center_ok(self) -> bool {
        in_i32(self.spec_center().0) && in_i32(self.spec_center().1)
    }

    pub open spec fn spec_intersects(self, other: Rect) -> bool {
        &&& self.right() > other.x
        &&& self.bottom() > other.y
        &&& self.x < other.right()
        &&& self.y < other.bottom()
    }

    /// Returns true when the two rectangles share an area.
    pub fn intersects_with(&self, other: &Rect) -> (res: bool)
        requires
            in_i32(self.right()),
            in_i32(self.bottom()),
            in_i32(other.right()),
            in_i32(other.bottom()),
        ensures
            res == self.spec_intersects(*other),
    {
        if self.x + to_i32(self.width) <= other.x {
            return false;
        }
        if self.y + to_i32(self.height) <= other.y {
            return false;
        }
        if self.x >= other.x + to_i32(other.width) {
            return false;
        }
        if self.y >= other.y + to_i32(other.height) {
            return false;
        }
        return true;
    }

    pub open spec fn clamp_to_ok(self, parent: Rect) -> bool {
        &&& in_i32(parent.right())
        &&& in_i32(parent.bottom())
        &&& parent.sizes_fit()
    }

    pub open spec fn spec_clamp_to(self, parent: Rect) -> Rect {
        let x = clamp(self.x as int, parent.x as int, parent.right());
        let y = clamp(self.y as int, parent.y as int, parent.bottom());
        mk_rect(
            x,
            y,
            min(self.width as int, unsigned(signed(parent.width) - abs(parent.x - x))),
            min(self.height as int, unsigned(signed(parent.height) - abs(parent.y - y))),
        )
    }

    /// Moves and shrinks the rectangle so that it lies within `parent`.
    pub fn clamp_to(&self, parent: &Rect) -> (res: Rect)
        requires
            self.clamp_to_ok(*parent),
        ensures
            res == self.spec_clamp_to(*parent),
    {
        let x = clamp_i32(self.x, parent.x, parent.x + to_i32(parent.width));
        let y = clamp_i32(self.y, parent.y, parent.y + to_i32(parent.height));
        let width = min_u32(self.width, to_u32(to_i32(parent.width) - abs_i32(parent.x - x)));
        let height = min_u32(
            self.height,
            to_u32(to_i32(parent.height) - abs_i32(parent.y - y)),
        );
        Rect { x, y, width, height }
    }

    pub open spec fn clamp_to_y_ok(self, parent: Rect) -> bool {
        &&& in_i32(parent.bottom())
        &&& parent.height <= i32::MAX
    }

    pub open spec fn spec_clamp_to_y(self, parent: Rect) -> Rect {
        let y = clamp(self.y as int, parent.y as int, parent.bottom());
        mk_rect(
            self.x as int,
            y,
            self.width as int,
            min(self.height as int, unsigned(signed(parent.height) - abs(parent.y - y))),
        )
    }

    /// Like `clamp_to`, in the vertical direction only.
    pub fn clamp_to_y(&self, parent: &Rect) -> (res: Rect)
        requires
            self.clamp_to_y_ok(*parent),
        ensures
            res == self.spec_clamp_to_y(*parent),
    {
        let x = self.x;
        let y = clamp_i32(self.y, parent.y, parent.y + to_i32(parent.height));
        let width = self.width;
        let height = min_u32(
            self.height,
            to_u32(to_i32(parent.height) - abs_i32(parent.y - y)),
        );
        Rect { x, y, width, height }
    }

    pub open spec fn add_padding_ok(self, horizontal: u32, vertical: u32) -> bool {
        &&& in_i32(self.x + signed(horizontal))
        &&& in_i32(self.y + signed(vertical))
        &&& 2 * horizontal <= self.width
        &&& 2 * vertical <= self.height
    }

    /// Shrinks the rectangle by the paddings on each side.
    pub fn add_padding(&self, horizontal: u32, vertical: u32) -> (res: Rect)
        requires
            self.add_padding_ok(horizontal, vertical),
        ensures
            res == mk_rect(
                self.x + signed(horizontal),
                self.y + signed(vertical),
                self.width - 2 * horizontal,
                self.height - 2 * vertical,
            ),
    {
        Rect {
            x: self.x + to_i32(horizontal),
            y: self.y + to_i32(vertical),
            width: self.width - horizontal * 2,
            height: self.height - vertical * 2,
        }
    }

    /// Returns center x,y position
    pub fn center(&self) -> (res: (i32, i32))
        requires
            self.center_ok(),
        ensures
            res.0 == self.spec_center().0,
            res.1 == self.spec_center().1,
    {
        (self.x + to_i32(self.width) / 2, self.y + to_i32(self.height) / 2)
    }

    /// Returns rectangle magnified to either of the sides of the parent rectangle
    pub fn new_rect_magnified(&self, new_rect: &Rect) -> (res: Rect)
        requires
            magnified_ok(*self, *new_rect),
        ensures
            res == magnified(*self, *new_rect),
            self.sizes_fit() && in_i32(self.right()) && in_i32(self.bottom()) ==> {
                &&& within(res, *self)
                &&& match side_of(*self, *new_rect) {
                    RectSide::Top => res.y == self.y,
                    RectSide::Bottom => res.bottom() == self.bottom(),
                    RectSide::Left => res.x == self.x,
                    RectSide::Right => res.right() == self.right(),
                }
            },
    {
        proof {
            if self.sizes_fit() && in_i32(self.right()) && in_i32(self.bottom()) {
                law_magnified_inside(*self, *new_rect);
            }
        }
        let (center_x, center_y) = self.center();
        if new_rect.width > new_rect.height {
            if new_rect.y < center_y {
                let x = clamp_i32(new_rect.x, self.x, self.x + to_i32(self.width));
                let y = self.y;
                let width = min_u32(new_rect.width, to_u32(to_i32(self.width) - abs_i32(self.x - x)));
                let height = min_u32(new_rect.height, to_u32(to_i32(self.height) - abs_i32(self.y - y)));
                Rect { x, y, width, height }
            } else {
                let x = clamp_i32(new_rect.x, self.x, self.x + to_i32(self.width));
                let height = min_u32(new_rect.height, self.height);
                let y = self.y + to_i32(self.height) - to_i32(height);
                let width = min_u32(new_rect.width, to_u32(to_i32(self.width) - abs_i32(self.x - x)));
                Rect { x, y, width, height }
            }
        } else {
            if new_rect.x < center_x {
                let x = self.x;
                let y = clamp_i32(new_rect.y, self.y, self.y + to_i32(self.height));
                let width = min_u32(new_rect.width, to_u32(to_i32(self.width) - abs_i32(self.x - x)));
                let height = min_u32(new_rect.height, to_u32(to_i32(self.height) - abs_i32(self.y - y)));
                Rect { x, y, width, height }
            } else {
                let width = min_u32(new_rect.width, self.width);
                let x = self.x + to_i32(self.width) - to_i32(width);
                let y = clamp_i32(new_rect.y, self.y, self.y + to_i32(self.height));
                let height = min_u32(new_rect.height, to_u32(to_i32(self.height) - abs_i32(self.y - y)));
                Rect { x, y, width, height }
            }
        }
    }

    /// Squared distance between the centers of the two rectangles.
    pub open spec fn center_dist_sq(self, other: Rect) -> int {
        let dx = other.spec_center().0 - self.spec_center().0;
        let dy = other.spec_center().1 - self.spec_center().1;
        dx * dx + dy * dy
    }

    pub open spec fn distance_ok(self, other: Rect) -> bool {
        let dx = other.spec_center().0 - self.spec_center().0;
        let dy = other.spec_center().1 - self.spec_center().1;
        &&& self.center_ok()
        &&& other.center_ok()
        &&& in_i32(dx)
        &&& in_i32(dy)
        &&& in_i32(dx * dx)
        &&& in_i32(dy * dy)
        &&& in_i32(dx * dx + dy * dy)
    }

    /// The distance between the centers, rounded down.
    pub fn distance_between_centers(&self, other: &Rect) -> (res: i32)
        requires
            self.distance_ok(*other),
        ensures
            is_isqrt(self.center_dist_sq(*other), res as int),
    {
        let (x1, y1) = self.center();
        let (x2, y2) = other.center();
        let dx = x2 - x1;
        let dy = y2 - y1;
        assert(0 <= dx * dx && 0 <= dy * dy) by (nonlinear_arith);
        isqrt_i32(dx * dx + dy * dy)
    }

    /// Like `new_rect_magnified`, keeping a padding from the edges when the
    /// rectangle goes to the top side.
    pub fn new_rect_magnified_padding(&self, new_rect: &Rect, padding_x: u32, padding_y: u32) -> (res: Rect)
        requires
            magnified_padded_ok(*self, *new_rect, padding_x, padding_y),
        ensures
            res == magnified_padded(*self, *new_rect, padding_x, padding_y),
    {
        let (center_x, center_y) = self.center();
        if new_rect.width > new_rect.height && new_rect.y < center_y {
            let x = clamp_i32(
                new_rect.x,
                self.x + to_i32(padding_x),
                self.x + to_i32(self.width) - to_i32(padding_x * 2),
            );
            let y = self.y + to_i32(padding_y);
            let width = min_u32(new_rect.width, to_u32(to_i32(self.width) - abs_i32(self.x - x)));
            let height = min_u32(new_rect.height, to_u32(to_i32(self.height) - abs_i32(self.y - y)));
            Rect { x, y, width, height }
        } else {
            self.new_rect_magnified(new_rect)
        }
    }

    /// The part of this rectangle left free once `added_rect` is magnified to
    /// one of its sides.
    pub fn available_rect_after_adding_rect(&self, added_rect: &Rect) -> (res: Rect)
        requires
            available_after_ok(*self, *added_rect),
        ensures
            res == available_after(*self, *added_rect),
            self.sizes_fit() && in_i32(self.right()) && in_i32(self.bottom()) ==> within(res, *self),
    {
        proof {
            if self.sizes_fit() && in_i32(self.right()) && in_i32(self.bottom()) {
                law_available_inside(*self, *added_rect);
            }
        }
        let (center_x, center_y) = self.center();
        let new_rect = self.new_rect_magnified(added_rect);
        if new_rect.width > new_rect.height {
            if new_rect.y < center_y {
                let x = self.x;
                let y = new_rect.y + to_i32(new_rect.height);
                let width = self.width;
                let height = to_u32((self.y + to_i32(self.height)) - y);
                Rect { x, y, width, height }
            } else {
                let x = self.x;
                let y = self.y;
                let width = self.width;
                let height = to_u32(new_rect.y - self.y);
                Rect { x, y, width, height }
            }
        } else {
            if new_rect.x < center_x {
                let x = new_rect.x + to_i32(new_rect.width);
                let y = self.y;
                let width = to_u32((self.x + to_i32(self.width)) - x);
                let height = self.height;
                Rect { x, y, width, height }
            } else {
                let x = self.x;
                let y = self.y;
                let width = to_u32(new_rect.x - self.x);
                let height = self.height;
                Rect { x, y, width, height }
            }
        }
    }

    /// The part of this rectangle left free once each of `child_rects` is
    /// added in turn.
    pub fn available_rect_after_adding_rects(&self, child_rects: &[Rect]) -> (res: Rect)
        requires
            available_after_all_ok(*self, child_rects@),
        ensures
            res == available_after_all(*self, child_rects@),
    {
        let mut avail_rect = *self;
        let mut i: usize = 0;
        while i < child_rects.len()
            invariant
                0 <= i <= child_rects@.len(),
                available_after_all_ok(*self, child_rects@),
                avail_rect == available_after_all(*self, child_rects@.take(i as int)),
            decreases child_rects@.len() - i,
        {
            assert(child_rects@.take(i + 1).drop_last() =~= child_rects@.take(i as int));
            assert(available_after_ok(available_after_all(*self, child_rects@.take(i as int)), child_rects@[i as int]));
            avail_rect = avail_rect.available_rect_after_adding_rect(&child_rects[i]);
            i = i + 1;
        }
        assert(child_rects@.take(i as int) =~= child_rects@);
        avail_rect
    }

    /// self is a parent rect / available rect
    ///
    /// calculates available space within the parent rectangle to the left of the first rect
    /// and to the right of the last rect
    pub fn available_space(&self, first_rect: &Rect, last_rect: &Rect) -> (res: (i32, i32))
        requires
            free_space_ok(*self, *first_rect, *last_rect),
        ensures
            res.0 == free_space(*self, *first_rect, *last_rect).0,
            res.1 == free_space(*self, *first_rect, *last_rect).1,
    {
        let free_space_left_side = first_rect.x - self.x;
        let free_space_right_side = self.x + to_i32(self.width) - last_rect.x - to_i32(last_rect.width);
        (free_space_left_side, free_space_right_side)
    }

    /// self is a parent rect / available rect
    ///
    /// Index of the first rectangle that starts within the horizontal span of
    /// this one.
    pub fn first_visible_rect_idx_horiz(&self, rects: &[Rect]) -> (res: Option<usize>)
        requires
            in_i32(self.right()) || forall|i: int| 0 <= i < rects@.len() ==> #[trigger] rects@[i].x < self.x,
        ensures
            res == to_index(first_visible(*self, rects@)),
            res matches Some(i) ==> i < rects@.len() && visible_horiz(*self, rects@[i as int])
                && forall|j: int| 0 <= j < i ==> !visible_horiz(*self, #[trigger] rects@[j]),
            res is None <==> forall|j: int| 0 <= j < rects@.len() ==> !visible_horiz(*self, #[trigger] rects@[j]),
    {
        let mut i: usize = 0;
        while i < rects.len()
            invariant
                0 <= i <= rects@.len(),
                in_i32(self.right()) || forall|k: int| 0 <= k < rects@.len() ==> #[trigger] rects@[k].x < self.x,
                forall|j: int| 0 <= j < i ==> !visible_horiz(*self, #[trigger] rects@[j]),
            decreases rects@.len() - i,
        {
            let r = &rects[i];
            if r.x >= self.x && r.x <= self.x + to_i32(self.width) {
                proof {
                    let c = choose|k: int| 0 <= k < rects@.len() && visible_horiz(*self, #[trigger] rects@[k])
                        && forall|j: int| 0 <= j < k ==> !visible_horiz(*self, #[trigger] rects@[j]);
                    assert(visible_horiz(*self, rects@[i as int]));
                    assert(c == i) by {
                        if c < i {
                            assert(!visible_horiz(*self, rects@[c]));
                        } else if c > i {
                            assert(!visible_horiz(*self, rects@[i as int]));
                        }
                    }
                }
                return Some(i);
            }
            i = i + 1;
        }
        None
    }

    /// self is a parent rect / available rect
    ///
    /// Index of the last rectangle that starts within the horizontal span of
    /// this one.
    pub fn last_visible_rect_idx_horiz(&self, rects: &[Rect]) -> (res: Option<usize>)
        requires
            in_i32(self.right()) || forall|i: int| 0 <= i < rects@.len() ==> #[trigger] rects@[i].x < self.x,
        ensures
            res == to_index(last_visible(*self, rects@)),
            res matches Some(i) ==> i < rects@.len() && visible_horiz(*self, rects@[i as int])
                && forall|j: int| i < j < rects@.len() ==> !visible_horiz(*self, #[trigger] rects@[j]),
            res is None <==> forall|j: int| 0 <= j < rects@.len() ==> !visible_horiz(*self, #[trigger] rects@[j]),
    {
        let mut i: usize = rects.len();
        while i > 0
            invariant
                0 <= i <= rects@.len(),
                in_i32(self.right()) || forall|k: int| 0 <= k < rects@.len() ==> #[trigger] rects@[k].x < self.x,
                forall|j: int| i <= j < rects@.len() ==> !visible_horiz(*self, #[trigger] rects@[j]),
            decreases i,
        {
            let r = &rects[i - 1];
            if r.x >= self.x && r.x <= self.x + to_i32(self.width) {
                proof {
                    let c = choose|k: int| 0 <= k < rects@.len() && visible_horiz(*self, #[trigger] rects@[k])
                        && forall|j: int| k < j < rects@.len() ==> !visible_horiz(*self, #[trigger] rects@[j]);
                    assert(visible_horiz(*self, rects@[i - 1]));
                    assert(c == i - 1) by {
                        if c < i - 1 {
                            assert(!visible_horiz(*self, rects@[i - 1]));
                        } else if c > i - 1 {
                            assert(!visible_horiz(*self, rects@[c]));
                        }
                    }
                }
                return Some(i - 1);
            }
            i = i - 1;
        }
        None
    }

    /// returns new rectangle and amount of pixels to move to the left and to the right of the focused rect
    ///
    /// self is a parent rect / available rect
    pub fn calc_new_rect_added_after_focused(
        &self,
        default_width: u32,
        default_height: u32,
        focused_idx: Option<usize>,
        existing_rects: &[Rect],
        inner_gap: u32,
    ) -> (res: (Rect, i32, i32))
        requires
            (Placement {
                parent: *self,
                default_width,
                default_height,
                focused_idx,
                rects: existing_rects@,
                inner_gap,
            }).ok(),
        ensures
            ({
                let pl = Placement {
                    parent: *self,
                    default_width,
                    default_height,
                    focused_idx,
                    rects: existing_rects@,
                    inner_gap,
                };
                &&& res.0 == pl.result().0
                &&& res.1 == pl.result().1
                &&& res.2 == pl.result().2
            }),
    {
        let ghost pl = Placement {
            parent: *self,
            default_width,
            default_height,
            focused_idx,
            rects: existing_rects@,
            inner_gap,
        };
        if existing_rects.len() == 0 {
            let new_rect = Rect {
                x: self.x + (to_i32(self.width) - to_i32(default_width)) / 2,
                y: self.y,
                width: default_width,
                height: default_height,
            };
            let move_lhs: i32 = 0;
            let move_rhs: i32 = 0;
            (new_rect, move_lhs, move_rhs)
        } else {
            let first_visible_opt = self.first_visible_rect_idx_horiz(existing_rects);
            let last_visible_opt = self.last_visible_rect_idx_horiz(existing_rects);
            let first_visible_idx = first_visible_opt.unwrap();
            let last_visible_idx = last_visible_opt.unwrap();
            assert(first_visible_idx == pl.first_idx());
            assert(last_visible_idx == pl.last_idx());
            let add_after_idx = match focused_idx {
                Some(focused_idx) => focused_idx,
                None => last_visible_idx,
            };
            assert(add_after_idx == pl.after_idx());
            let after = &existing_rects[add_after_idx];
            let mut new_rect = Rect {
                x: after.x + to_i32(after.width) + to_i32(inner_gap),
                y: self.y,
                width: default_width,
                height: default_height,
            };
            let mut move_left_rects_by: i32 = 0;
            let mut move_right_rects_by: i32 = if add_after_idx == last_visible_idx {
                0
            } else {
                to_i32(new_rect.width) + to_i32(inner_gap)
            };
            if new_rect.x + to_i32(new_rect.width) > self.x + to_i32(self.width) {
                let diff = new_rect.x + to_i32(new_rect.width) - (self.x + to_i32(self.width));
                new_rect.x = new_rect.x - diff;
                move_left_rects_by = move_left_rects_by - diff;
                if add_after_idx != last_visible_idx {
                    move_right_rects_by = move_right_rects_by - diff;
                }
            }
            assert(new_rect == pl.new_rect0());
            assert(move_left_rects_by == pl.move_left0());
            assert(move_right_rects_by == pl.move_right0());
            let last_rect = if add_after_idx == last_visible_idx {
                new_rect
            } else {
                let mut last_rect = existing_rects[last_visible_idx];
                last_rect.x = last_rect.x + move_right_rects_by;
                last_rect
            };
            let first_rect = if move_left_rects_by != 0 {
                let mut r = existing_rects[first_visible_idx];
                r.x = r.x + move_left_rects_by;
                r
            } else {
                existing_rects[first_visible_idx]
            };
            assert(last_rect == pl.last_rect());
            assert(first_rect == pl.first_rect());
            let (free_space_left_side, free_space_right_side) = self.available_space(
                &first_rect,
                &last_rect,
            );
            let move_free_space_balance = if free_space_right_side + free_space_left_side >= 0 {
                (free_space_right_side - free_space_left_side) / 2
            } else if free_space_left_side >= 0 {
                -free_space_left_side
            } else if free_space_right_side >= 0 {
                free_space_right_side
            } else {
                0
            };
            assert(move_free_space_balance == pl.shift());
            new_rect.x = new_rect.x + move_free_space_balance;
            move_left_rects_by = move_left_rects_by + move_free_space_balance;
            if add_after_idx != last_visible_idx {
                move_right_rects_by = move_right_rects_by + move_free_space_balance;
            }
            (new_rect, move_left_rects_by, move_right_rects_by)
        }
    }
}


/// Where a rectangle added to `parent` goes, by its shape and position: a wide
/// one to the top or bottom side, a tall one to the left or right side.
pub open spec fn side_of(parent: Rect, added: Rect) -> RectSide {
    if added.width > added.height {
        if (added.y as int) < parent.spec_center().1 {
            RectSide::Top
        } else {
            RectSide::Bottom
        }
    } else {
        if (added.x as int) < parent.spec_center().0 {
            RectSide::Left
        } else {
            RectSide::Right
        }
    }
}

/// `added` pushed against the top side of `parent`, cut to fit.
pub open spec fn magnified_top(p: Rect, n: Rect) -> Rect {
    let x = clamp(n.x as int, p.x as int, p.right());
    mk_rect(
        x,
        p.y as int,
        min(n.width as int, unsigned(signed(p.width) - abs(p.x - x))),
        min(n.height as int, unsigned(signed(p.height))),
    )
}

pub open spec fn magnified_bottom(p: Rect, n: Rect) -> Rect {
    let x = clamp(n.x as int, p.x as int, p.right());
    let height = min(n.height as int, p.height as int);
    mk_rect(
        x,
        p.bottom() - signed(height as u32),
        min(n.width as int, unsigned(signed(p.width) - abs(p.x - x))),
        height,
    )
}

pub open spec fn magnified_left(p: Rect, n: Rect) -> Rect {
    let y = clamp(n.y as int, p.y as int, p.bottom());
    mk_rect(
        p.x as int,
        y,
        min(n.width as int, unsigned(signed(p.width))),
        min(n.height as int, unsigned(signed(p.height) - abs(p.y - y))),
    )
}

pub open spec fn magnified_right(p: Rect, n: Rect) -> Rect {
    let y = clamp(n.y as int, p.y as int, p.bottom());
    let width = min(n.width as int, p.width as int);
    mk_rect(
        p.right() - signed(width as u32),
        y,
        width,
        min(n.height as int, unsigned(signed(p.height) - abs(p.y - y))),
    )
}

/// The rectangle `new_rect_magnified` returns.
pub open spec fn magnified(p: Rect, n: Rect) -> Rect {
    match side_of(p, n) {
        RectSide::Top => magnified_top(p, n),
        RectSide::Bottom => magnified_bottom(p, n),
        RectSide::Left => magnified_left(p, n),
        RectSide::Right => magnified_right(p, n),
    }
}

/// The inputs on which `new_rect_magnified` computes without overflow or a
/// `clamp` whose bounds are reversed.
pub open spec fn magnified_ok(p: Rect, n: Rect) -> bool {
    &&& p.center_ok()
    &&& match side_of(p, n) {
        RectSide::Top => in_i32(p.right()) && p.width <= i32::MAX,
        RectSide::Bottom => {
            &&& in_i32(p.right())
            &&& p.width <= i32::MAX
            &&& in_i32(p.bottom())
            &&& in_i32(p.bottom() - signed(min(n.height as int, p.height as int) as u32))
        },
        RectSide::Left => in_i32(p.bottom()) && p.height <= i32::MAX,
        RectSide::Right => {
            &&& in_i32(p.right())
            &&& in_i32(p.right() - signed(min(n.width as int, p.width as int) as u32))
            &&& in_i32(p.bottom())
            &&& p.height <= i32::MAX
        },
    }
}

/// The top-side case of `new_rect_magnified_padding`, which keeps a padding
/// from the parent's edges.
pub open spec fn magnified_top_padded(p: Rect, n: Rect, px: u32, py: u32) -> Rect {
    let x = clamp(n.x as int, p.x + signed(px), p.right() - signed((2 * px) as u32));
    let y = p.y + signed(py);
    mk_rect(
        x,
        y,
        min(n.width as int, unsigned(signed(p.width) - abs(p.x - x))),
        min(n.height as int, unsigned(signed(p.height) - abs(p.y - y))),
    )
}

pub open spec fn magnified_top_padded_ok(p: Rect, n: Rect, px: u32, py: u32) -> bool {
    let lo = p.x + signed(px);
    let hi = p.right() - signed((2 * px) as u32);
    let x = clamp(n.x as int, lo, hi);
    let y = p.y + signed(py);
    &&& 2 * px <= u32::MAX
    &&& in_i32(lo)
    &&& in_i32(p.right())
    &&& in_i32(hi)
    &&& lo <= hi
    &&& in_i32(y)
    &&& in_i32(p.x - x) && p.x - x != i32::MIN
    &&& in_i32(signed(p.width) - abs(p.x - x))
    &&& in_i32(p.y - y) && p.y - y != i32::MIN
    &&& in_i32(signed(p.height) - abs(p.y - y))
}

pub open spec fn magnified_padded(p: Rect, n: Rect, px: u32, py: u32) -> Rect {
    if side_of(p, n) == RectSide::Top {
        magnified_top_padded(p, n, px, py)
    } else {
        magnified(p, n)
    }
}

pub open spec fn magnified_padded_ok(p: Rect, n: Rect, px: u32, py: u32) -> bool {
    if side_of(p, n) == RectSide::Top {
        p.center_ok() && magnified_top_padded_ok(p, n, px, py)
    } else {
        magnified_ok(p, n)
    }
}

/// What is left of `p` once the rectangle `m`, already magnified to one of its
/// sides, takes its place.
pub open spec fn remaining_after(p: Rect, m: Rect) -> Rect {
    if m.width > m.height {
        if (m.y as int) < p.spec_center().1 {
            let y = m.bottom();
            mk_rect(p.x as int, y, p.width as int, unsigned(p.bottom() - y))
        } else {
            mk_rect(p.x as int, p.y as int, p.width as int, unsigned(m.y - p.y))
        }
    } else {
        if (m.x as int) < p.spec_center().0 {
            let x = m.right();
            mk_rect(x, p.y as int, unsigned(p.right() - x), p.height as int)
        } else {
            mk_rect(p.x as int, p.y as int, unsigned(m.x - p.x), p.height as int)
        }
    }
}

pub open spec fn remaining_after_ok(p: Rect, m: Rect) -> bool {
    if m.width > m.height {
        if (m.y as int) < p.spec_center().1 {
            in_i32(m.bottom()) && in_i32(p.bottom()) && in_i32(p.bottom() - m.bottom())
        } else {
            in_i32(m.y - p.y)
        }
    } else {
        if (m.x as int) < p.spec_center().0 {
            in_i32(m.right()) && in_i32(p.right()) && in_i32(p.right() - m.right())
        } else {
            in_i32(m.x - p.x)
        }
    }
}

/// The rectangle `available_rect_after_adding_rect` returns.
pub open spec fn available_after(p: Rect, added: Rect) -> Rect {
    remaining_after(p, magnified(p, added))
}

pub open spec fn available_after_ok(p: Rect, added: Rect) -> bool {
    magnified_ok(p, added) && remaining_after_ok(p, magnified(p, added))
}

/// The area left of `p` after adding each of `rects` in turn.
pub open spec fn available_after_all(p: Rect, rects: Seq<Rect>) -> Rect
    decreases rects.len(),
{
    if rects.len() == 0 {
        p
    } else {
        available_after(available_after_all(p, rects.drop_last()), rects.last())
    }
}

/// Each step of `available_after_all` computes without overflow.
pub open spec fn available_after_all_ok(p: Rect, rects: Seq<Rect>) -> bool {
    forall|i: int|
        0 <= i < rects.len() ==> #[trigger] available_after_ok(
            available_after_all(p, rects.take(i)),
            rects[i],
        )
}

/// An index as `usize`.
pub open spec fn to_index(o: Option<int>) -> Option<usize> {
    match o {
        Some(i) => Some(i as usize),
        None => None,
    }
}

/// `r` starts within the horizontal span of `p` (both ends included).
pub open spec fn visible_horiz(p: Rect, r: Rect) -> bool {
    p.x <= r.x && r.x <= p.right()
}

/// Free space left of `first` and right of `last` within `p`.
pub open spec fn free_space(p: Rect, first: Rect, last: Rect) -> (int, int) {
    (first.x - p.x, p.right() - last.x - signed(last.width))
}

pub open spec fn free_space_ok(p: Rect, first: Rect, last: Rect) -> bool {
    &&& in_i32(first.x - p.x)
    &&& in_i32(p.right())
    &&& in_i32(p.right() - last.x)
    &&& in_i32(p.right() - last.x - signed(last.width))
}

/// How far the windows move so that the free space on both sides evens out.
pub open spec fn balance_shift(left: int, right: int) -> int {
    if right + left >= 0 {
        half(right - left)
    } else if left >= 0 {
        -left
    } else if right >= 0 {
        right
    } else {
        0
    }
}

pub open spec fn balance_shift_ok(left: int, right: int) -> bool {
    &&& in_i32(right + left)
    &&& (right + left >= 0 ==> in_i32(right - left))
    &&& (right + left < 0 && left >= 0 ==> in_i32(-left))
}

/// Index of the first rectangle of `rects` visible in `p`, if any.
pub open spec fn first_visible(p: Rect, rects: Seq<Rect>) -> Option<int> {
    if exists|i: int| 0 <= i < rects.len() && visible_horiz(p, #[trigger] rects[i]) {
        Some(choose|i: int| 0 <= i < rects.len() && visible_horiz(p, #[trigger] rects[i])
            && forall|j: int| 0 <= j < i ==> !visible_horiz(p, #[trigger] rects[j]))
    } else {
        None
    }
}

/// Index of the last rectangle of `rects` visible in `p`, if any.
pub open spec fn last_visible(p: Rect, rects: Seq<Rect>) -> Option<int> {
    if exists|i: int| 0 <= i < rects.len() && visible_horiz(p, #[trigger] rects[i]) {
        Some(choose|i: int| 0 <= i < rects.len() && visible_horiz(p, #[trigger] rects[i])
            && forall|j: int| i < j < rects.len() ==> !visible_horiz(p, #[trigger] rects[j]))
    } else {
        None
    }
}

/// The inputs of `calc_new_rect_added_after_focused`, with the intermediate
/// values that the computation goes through.
pub struct Placement {
    pub parent: Rect,
    pub default_width: u32,
    pub default_height: u32,
    pub focused_idx: Option<usize>,
    pub rects: Seq<Rect>,
    pub inner_gap: u32,
}

impl Placement {
    pub open spec fn first_idx(self) -> int {
        first_visible(self.parent, self.rects)->0
    }

    pub open spec fn last_idx(self) -> int {
        last_visible(self.parent, self.rects)->0
    }

    /// The window after which the new one goes.
    pub open spec fn after_idx(self) -> int {
        match self.focused_idx {
            Some(f) => f as int,
            None => self.last_idx(),
        }
    }

    pub open spec fn after_last(self) -> bool {
        self.after_idx() == self.last_idx()
    }

    /// Where the new window starts before any correction.
    pub open spec fn start_x(self) -> int {
        let a = self.rects[self.after_idx()];
        a.x + signed(a.width) + signed(self.inner_gap)
    }

    /// How far the new window overflows the right edge of the parent.
    pub open spec fn overflow(self) -> int {
        self.start_x() + signed(self.default_width) - self.parent.right()
    }

    pub open spec fn shifted_x(self) -> int {
        if self.overflow() > 0 { self.start_x() - self.overflow() } else { self.start_x() }
    }

    pub open spec fn move_left0(self) -> int {
        if self.overflow() > 0 { -self.overflow() } else { 0 }
    }

    pub open spec fn move_right0(self) -> int {
        if self.after_last() {
            0
        } else {
            let m = signed(self.default_width) + signed(self.inner_gap);
            if self.overflow() > 0 { m - self.overflow() } else { m }
        }
    }

    pub open spec fn new_rect0(self) -> Rect {
        mk_rect(self.shifted_x(), self.parent.y as int, self.default_width as int, self.default_height as int)
    }

    pub open spec fn last_rect(self) -> Rect {
        if self.after_last() {
            self.new_rect0()
        } else {
            let r = self.rects[self.last_idx()];
            Rect { x: (r.x + self.move_right0()) as i32, ..r }
        }
    }

    pub open spec fn first_rect(self) -> Rect {
        let r = self.rects[self.first_idx()];
        Rect { x: (r.x + self.move_left0()) as i32, ..r }
    }

    pub open spec fn shift(self) -> int {
        let (l, r) = free_space(self.parent, self.first_rect(), self.last_rect());
        balance_shift(l, r)
    }

    /// The new window and how far the windows left and right of it move.
    pub open spec fn result(self) -> (Rect, int, int) {
        if self.rects.len() == 0 {
            (
                mk_rect(
                    self.parent.x + half(signed(self.parent.width) - signed(self.default_width)),
                    self.parent.y as int,
                    self.default_width as int,
                    self.default_height as int,
                ),
                0,
                0,
            )
        } else {
            (
                mk_rect(self.shifted_x() + self.shift(), self.parent.y as int, self.default_width as int, self.default_height as int),
                self.move_left0() + self.shift(),
                if self.after_last() { 0 } else { self.move_right0() + self.shift() },
            )
        }
    }

    /// The computation neither panics nor overflows.
    pub open spec fn ok(self) -> bool {
        if self.rects.len() == 0 {
            &&& in_i32(signed(self.parent.width) - signed(self.default_width))
            &&& in_i32(self.parent.x + half(signed(self.parent.width) - signed(self.default_width)))
        } else {
            let a = self.rects[self.after_idx()];
            let (l, r) = free_space(self.parent, self.first_rect(), self.last_rect());
            &&& in_i32(self.parent.right())
            &&& first_visible(self.parent, self.rects) is Some
            &&& (self.focused_idx matches Some(f) ==> f < self.rects.len())
            &&& in_i32(a.x + signed(a.width))
            &&& in_i32(self.start_x())
            &&& (!self.after_last() ==> in_i32(signed(self.default_width) + signed(self.inner_gap)))
            &&& in_i32(self.start_x() + signed(self.default_width))
            &&& (self.overflow() > 0 ==> {
                &&& in_i32(self.overflow())
                &&& in_i32(self.start_x() - self.overflow())
                &&& in_i32(-self.overflow())
                &&& (!self.after_last() ==> in_i32(self.move_right0()))
            })
            &&& (!self.after_last() ==> in_i32(self.rects[self.last_idx()].x + self.move_right0()))
            &&& (self.move_left0() != 0 ==> in_i32(self.rects[self.first_idx()].x + self.move_left0()))
            &&& free_space_ok(self.parent, self.first_rect(), self.last_rect())
            &&& balance_shift_ok(l, r)
            &&& in_i32(self.shifted_x() + self.shift())
            &&& in_i32(self.move_left0() + self.shift())
            &&& (!self.after_last() ==> in_i32(self.move_right0() + self.shift()))
        }
    }
}

/// `a.min(b)` on `u32`.
pub fn min_u32(a: u32, b: u32) -> (r: u32)
    ensures
        r == min(a as int, b as int),
{
    clamp_u32_from_zero(a, b)
}

/// Whether two rectangles share an area does not depend on which is named
/// first.
pub proof fn law_intersects_symmetric(a: Rect, b: Rect)
    ensures
        a.spec_intersects(b) == b.spec_intersects(a),
{
}

/// The distance between the centres of two rectangles is the same both ways.
pub proof fn law_center_distance_symmetric(a: Rect, b: Rect)
    ensures
        a.center_dist_sq(b) == b.center_dist_sq(a),
{
    let dx = b.spec_center().0 - a.spec_center().0;
    let dy = b.spec_center().1 - a.spec_center().1;
    assert(dx * dx == (-dx) * (-dx)) by (nonlinear_arith);
    assert(dy * dy == (-dy) * (-dy)) by (nonlinear_arith);
}

/// `r` lies within `p`.
pub open spec fn within(r: Rect, p: Rect) -> bool {
    &&& p.x <= r.x
    &&& r.right() <= p.right()
    &&& p.y <= r.y
    &&& r.bottom() <= p.bottom()
}

/// A rectangle magnified to a side of its parent lies within the parent and
/// lies against that side.
pub proof fn law_magnified_inside(p: Rect, n: Rect)
    requires
        magnified_ok(p, n),
        p.sizes_fit(),
        in_i32(p.right()),
        in_i32(p.bottom()),
    ensures
        within(magnified(p, n), p),
        ({
            let m = magnified(p, n);
            match side_of(p, n) {
                RectSide::Top => m.y == p.y,
                RectSide::Bottom => m.bottom() == p.bottom(),
                RectSide::Left => m.x == p.x,
                RectSide::Right => m.right() == p.right(),
            }
        }),
{
}

/// What is left of a parent once a rectangle is added lies within it.
pub proof fn law_available_inside(p: Rect, added: Rect)
    requires
        available_after_ok(p, added),
        p.sizes_fit(),
        in_i32(p.right()),
        in_i32(p.bottom()),
    ensures
        within(available_after(p, added), p),
{
    law_magnified_inside(p, added);
}

/// The shift that balances the free space left and right of the windows
/// leaves the two sides within a pixel of each other when there is enough
/// room; otherwise it closes the gap on the side that has one.
pub proof fn law_balance_evens(left: int, right: int)
    ensures
        ({
            let s = balance_shift(left, right);
            if left + right >= 0 {
                &&& abs((left + s) - (right - s)) <= 1
                &&& left + s >= 0
                &&& right - s >= 0
            } else if left >= 0 {
                left + s == 0
            } else if right >= 0 {
                right - s == 0
            } else {
                s == 0
            }
        }),
{
}

} // verus!
