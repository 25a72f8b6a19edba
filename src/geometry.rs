use vstd::prelude::*;

verus! {

/// Largest magnitude of a coordinate; keeps every sum of two coordinates
/// inside `i32`.
pub const COORD_LIMIT: i32 = 0x4000;

pub open spec fn coord_ok(v: int) -> bool {
    -COORD_LIMIT <= v <= COORD_LIMIT
}

#[derive(Copy, Clone, Debug, PartialEq, Eq, Structural)]
pub struct Point {
    pub x: i32,
    pub y: i32,
}

#[derive(Copy, Clone, Debug, PartialEq, Eq, Structural)]
pub struct Offset {
    pub x: i32,
    pub y: i32,
}

/// Axis-aligned rectangle; `x1` and `y1` are exclusive.
#[derive(Copy, Clone, Debug, PartialEq, Eq, Structural)]
pub struct Rect {
    pub x0: i32,
    pub y0: i32,
    pub x1: i32,
    pub y1: i32,
}

/// Distances from each edge of a rectangle.
#[derive(Copy, Clone, Debug, PartialEq, Eq, Structural)]
pub struct Insets {
    pub top: i32,
    pub right: i32,
    pub bottom: i32,
    pub left: i32,
}

impl Point {
    pub open spec fn wf(self) -> bool {
        coord_ok(self.x as int) && coord_ok(self.y as int)
    }

    pub fn new(x: i32, y: i32) -> (r: Point)
        ensures
            r.x == x,
            r.y == y,
    {
        Point { x, y }
    }

    pub open spec fn zero_spec() -> Point {
        Point { x: 0, y: 0 }
    }

    pub fn zero() -> (r: Point)
        ensures
            r == Point::zero_spec(),
    {
        Point { x: 0, y: 0 }
    }

    /// The point moved by an offset.
    pub fn add(self, o: Offset) -> (r: Point)
        requires
            self.wf(),
            o.wf(),
        ensures
            r.x == self.x + o.x,
            r.y == self.y + o.y,
    {
        Point { x: self.x + o.x, y: self.y + o.y }
    }
}

impl Offset {
    pub open spec fn wf(self) -> bool {
        coord_ok(self.x as int) && coord_ok(self.y as int)
    }

    pub fn new(x: i32, y: i32) -> (r: Offset)
        ensures
            r.x == x,
            r.y == y,
    {
        Offset { x, y }
    }
}

impl Insets {
    pub fn new(top: i32, right: i32, bottom: i32, left: i32) -> (r: Insets)
        ensures
            r.top == top,
            r.right == right,
            r.bottom == bottom,
            r.left == left,
    {
        Insets { top, right, bottom, left }
    }
}

impl Rect {
    /// Corners in order and every coordinate in range.
    pub open spec fn wf(self) -> bool {
        coord_ok(self.x0 as int) && coord_ok(self.y0 as int) && coord_ok(self.x1 as int)
            && coord_ok(self.y1 as int) && self.x0 <= self.x1 && self.y0 <= self.y1
    }

    pub open spec fn spec_width(self) -> int {
        self.x1 - self.x0
    }

    pub open spec fn spec_height(self) -> int {
        self.y1 - self.y0
    }

    pub open spec fn spec_contains(self, p: Point) -> bool {
        self.x0 <= p.x < self.x1 && self.y0 <= p.y < self.y1
    }

    pub fn new(p0: Point, p1: Point) -> (r: Rect)
        ensures
            r.x0 == p0.x && r.y0 == p0.y && r.x1 == p1.x && r.y1 == p1.y,
    {
        Rect { x0: p0.x, y0: p0.y, x1: p1.x, y1: p1.y }
    }

    pub open spec fn zero_spec() -> Rect {
        Rect { x0: 0, y0: 0, x1: 0, y1: 0 }
    }

    /// The unplaced rectangle.
    pub fn zero() -> (r: Rect)
        ensures
            r == Rect::zero_spec(),
            r.wf(),
    {
        Rect { x0: 0, y0: 0, x1: 0, y1: 0 }
    }

    pub open spec fn is_zero(self) -> bool {
        self.x0 == 0 && self.y0 == 0 && self.x1 == 0 && self.y1 == 0
    }

    pub fn width(&self) -> (r: i32)
        requires
            self.wf(),
        ensures
            r == self.spec_width(),
    {
        self.x1 - self.x0
    }

    pub fn height(&self) -> (r: i32)
        requires
            self.wf(),
        ensures
            r == self.spec_height(),
    {
        self.y1 - self.y0
    }

    pub fn bottom_left(&self) -> (r: Point)
        ensures
            r.x == self.x0,
            r.y == self.y1,
    {
        Point { x: self.x0, y: self.y1 }
    }

    pub fn top_left(&self) -> (r: Point)
        ensures
            r.x == self.x0,
            r.y == self.y0,
    {
        Point { x: self.x0, y: self.y0 }
    }

    /// The middle point, rounded towards the top left corner.
    pub fn center(&self) -> (r: Point)
        requires
            self.wf(),
        ensures
            r.x == self.x0 + self.spec_width() / 2,
            r.y == self.y0 + self.spec_height() / 2,
    {
        Point { x: self.x0 + (self.x1 - self.x0) / 2, y: self.y0 + (self.y1 - self.y0) / 2 }
    }

    pub fn contains(&self, p: Point) -> (r: bool)
        ensures
            r == self.spec_contains(p),
    {
        self.x0 <= p.x && p.x < self.x1 && self.y0 <= p.y && p.y < self.y1
    }

    /// Clamps a length to `0..=limit`.
    pub open spec fn clamp_len(v: int, limit: int) -> int {
        if v < 0 {
            0
        } else if v > limit {
            limit
        } else {
            v
        }
    }

    pub open spec fn spec_split_left(self, width: int) -> (Rect, Rect) {
        let w = Self::clamp_len(width, self.spec_width());
        (
            Rect { x0: self.x0, y0: self.y0, x1: (self.x0 + w) as i32, y1: self.y1 },
            Rect { x0: (self.x0 + w) as i32, y0: self.y0, x1: self.x1, y1: self.y1 },
        )
    }

    pub open spec fn spec_split_right(self, width: int) -> (Rect, Rect) {
        let w = Self::clamp_len(width, self.spec_width());
        (
            Rect { x0: self.x0, y0: self.y0, x1: (self.x1 - w) as i32, y1: self.y1 },
            Rect { x0: (self.x1 - w) as i32, y0: self.y0, x1: self.x1, y1: self.y1 },
        )
    }

    pub open spec fn spec_split_center(self, width: int) -> Rect {
        let w = Self::clamp_len(width, self.spec_width());
        let x0 = self.x0 + (self.spec_width() - w) / 2;
        Rect { x0: x0 as i32, y0: self.y0, x1: (x0 + w) as i32, y1: self.y1 }
    }

    pub open spec fn spec_split_bottom(self, height: int) -> (Rect, Rect) {
        let h = Self::clamp_len(height, self.spec_height());
        (
            Rect { x0: self.x0, y0: self.y0, x1: self.x1, y1: (self.y1 - h) as i32 },
            Rect { x0: self.x0, y0: (self.y1 - h) as i32, x1: self.x1, y1: self.y1 },
        )
    }

    /// Splits off a left part of the given width (clamped to the rectangle).
    pub fn split_left(self, width: i32) -> (r: (Rect, Rect))
        requires
            self.wf(),
        ensures
            r.0.wf() && r.1.wf(),
            r == self.spec_split_left(width as int),
            r.0.x0 == self.x0 && r.0.y0 == self.y0 && r.0.y1 == self.y1,
            r.0.x1 == self.x0 + Self::clamp_len(width as int, self.spec_width()),
            r.1.x0 == r.0.x1 && r.1.x1 == self.x1 && r.1.y0 == self.y0 && r.1.y1 == self.y1,
    {
        let w: i32 = if width < 0 {
            0
        } else if width > self.x1 - self.x0 {
            self.x1 - self.x0
        } else {
            width
        };
        (
            Rect { x0: self.x0, y0: self.y0, x1: self.x0 + w, y1: self.y1 },
            Rect { x0: self.x0 + w, y0: self.y0, x1: self.x1, y1: self.y1 },
        )
    }

    /// Splits off a right part of the given width (clamped to the rectangle).
    pub fn split_right(self, width: i32) -> (r: (Rect, Rect))
        requires
            self.wf(),
        ensures
            r.0.wf() && r.1.wf(),
            r == self.spec_split_right(width as int),
            r.1.x1 == self.x1 && r.1.y0 == self.y0 && r.1.y1 == self.y1,
            r.1.x0 == self.x1 - Self::clamp_len(width as int, self.spec_width()),
            r.0.x0 == self.x0 && r.0.x1 == r.1.x0 && r.0.y0 == self.y0 && r.0.y1 == self.y1,
    {
        let w: i32 = if width < 0 {
            0
        } else if width > self.x1 - self.x0 {
            self.x1 - self.x0
        } else {
            width
        };
        (
            Rect { x0: self.x0, y0: self.y0, x1: self.x1 - w, y1: self.y1 },
            Rect { x0: self.x1 - w, y0: self.y0, x1: self.x1, y1: self.y1 },
        )
    }

    /// Splits off a top part of the given height (clamped to the rectangle).
    pub fn split_top(self, height: i32) -> (r: (Rect, Rect))
        requires
            self.wf(),
        ensures
            r.0.wf() && r.1.wf(),
            r.0.x0 == self.x0 && r.0.x1 == self.x1 && r.0.y0 == self.y0,
            r.0.y1 == self.y0 + Self::clamp_len(height as int, self.spec_height()),
            r.1.y0 == r.0.y1 && r.1.y1 == self.y1 && r.1.x0 == self.x0 && r.1.x1 == self.x1,
    {
        let h: i32 = if height < 0 {
            0
        } else if height > self.y1 - self.y0 {
            self.y1 - self.y0
        } else {
            height
        };
        (
            Rect { x0: self.x0, y0: self.y0, x1: self.x1, y1: self.y0 + h },
            Rect { x0: self.x0, y0: self.y0 + h, x1: self.x1, y1: self.y1 },
        )
    }

    /// Splits off a bottom part of the given height (clamped to the rectangle).
    pub fn split_bottom(self, height: i32) -> (r: (Rect, Rect))
        requires
            self.wf(),
        ensures
            r.0.wf() && r.1.wf(),
            r == self.spec_split_bottom(height as int),
            r.1.x0 == self.x0 && r.1.x1 == self.x1 && r.1.y1 == self.y1,
            r.1.y0 == self.y1 - Self::clamp_len(height as int, self.spec_height()),
            r.0.y1 == r.1.y0 && r.0.y0 == self.y0 && r.0.x0 == self.x0 && r.0.x1 == self.x1,
    {
        let h: i32 = if height < 0 {
            0
        } else if height > self.y1 - self.y0 {
            self.y1 - self.y0
        } else {
            height
        };
        (
            Rect { x0: self.x0, y0: self.y0, x1: self.x1, y1: self.y1 - h },
            Rect { x0: self.x0, y0: self.y1 - h, x1: self.x1, y1: self.y1 },
        )
    }

    /// A part of the given width (clamped), horizontally centred, full height.
    pub fn split_center(self, width: i32) -> (r: Rect)
        requires
            self.wf(),
        ensures
            r.wf(),
            r == self.spec_split_center(width as int),
            r.y0 == self.y0 && r.y1 == self.y1,
            r.x0 == self.x0 + (self.spec_width() - Self::clamp_len(width as int, self.spec_width()))
                / 2,
            r.x1 == r.x0 + Self::clamp_len(width as int, self.spec_width()),
    {
        let w: i32 = if width < 0 {
            0
        } else if width > self.x1 - self.x0 {
            self.x1 - self.x0
        } else {
            width
        };
        let x0 = self.x0 + (self.x1 - self.x0 - w) / 2;
        Rect { x0, y0: self.y0, x1: x0 + w, y1: self.y1 }
    }

    /// The rectangle shrunk by the insets.
    pub fn inset(self, insets: Insets) -> (r: Rect)
        requires
            self.wf(),
            0 <= insets.top && 0 <= insets.bottom && 0 <= insets.left && 0 <= insets.right,
            insets.left + insets.right <= self.spec_width(),
            insets.top + insets.bottom <= self.spec_height(),
        ensures
            r.wf(),
            r.x0 == self.x0 + insets.left && r.x1 == self.x1 - insets.right,
            r.y0 == self.y0 + insets.top && r.y1 == self.y1 - insets.bottom,
    {
        Rect {
            x0: self.x0 + insets.left,
            y0: self.y0 + insets.top,
            x1: self.x1 - insets.right,
            y1: self.y1 - insets.bottom,
        }
    }
}

} // verus!
