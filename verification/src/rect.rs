use vstd::prelude::*;

verus! {

/// A rectangle representing a window's position and size.
#[derive(Debug, Clone, Copy, PartialEq, Eq, Structural)]
pub struct Rect {
    pub x: i32,
    pub y: i32,
    pub width: i32,
    pub height: i32,
}

/// Rust's integer division, which rounds toward zero.
pub open spec fn div_trunc(a: int, b: int) -> int
    recommends
        b > 0,
{
    if a >= 0 {
        a / b
    } else {
        -((-a) / b)
    }
}

pub open spec fn max_int(a: int, b: int) -> int {
    if a >= b {
        a
    } else {
        b
    }
}

pub open spec fn abs_int(a: int) -> int {
    if a >= 0 {
        a
    } else {
        -a
    }
}

pub open spec fn min_int(a: int, b: int) -> int {
    if a <= b {
        a
    } else {
        b
    }
}

impl Rect {
    pub open spec fn right(self) -> int {
        self.x + self.width
    }

    pub open spec fn bottom(self) -> int {
        self.y + self.height
    }

    pub open spec fn spec_center_x(self) -> int {
        self.x + div_trunc(self.width as int, 2)
    }

    pub open spec fn spec_center_y(self) -> int {
        self.y + div_trunc(self.height as int, 2)
    }

    /// Pixels shared by the vertical extents of the two rectangles.
    pub open spec fn spec_vertical_overlap(self, other: Rect) -> int {
        max_int(min_int(self.bottom(), other.bottom()) - max_int(self.y as int, other.y as int), 0)
    }

    /// Pixels shared by the horizontal extents of the two rectangles.
    pub open spec fn spec_horizontal_overlap(self, other: Rect) -> int {
        max_int(min_int(self.right(), other.right()) - max_int(self.x as int, other.x as int), 0)
    }

    pub fn new(x: i32, y: i32, width: i32, height: i32) -> (r: Self)
        ensures
            r == (Rect { x, y, width, height }),
    {
        Rect { x, y, width, height }
    }

    /// Horizontal center of the rectangle.
    pub fn center_x(&self) -> (c: i32)
        requires
            i32::MIN <= self.spec_center_x() <= i32::MAX,
        ensures
            c == self.spec_center_x(),
    {
        self.x + self.width / 2
    }

    /// Vertical center of the rectangle.
    pub fn center_y(&self) -> (c: i32)
        requires
            i32::MIN <= self.spec_center_y() <= i32::MAX,
        ensures
            c == self.spec_center_y(),
    {
        self.y + self.height / 2
    }

    /// Returns the number of overlapping pixels along the vertical axis.
    ///
    /// A positive value means the rectangles share vertical space,
    /// which is useful for determining left/right neighbors.
    pub fn vertical_overlap(&self, other: &Rect) -> (o: i32)
        requires
            i32::MIN <= self.bottom() <= i32::MAX,
            i32::MIN <= other.bottom() <= i32::MAX,
            i32::MIN <= min_int(self.bottom(), other.bottom()) - max_int(self.y as int, other.y as int) <= i32::MAX,
        ensures
            o == self.spec_vertical_overlap(*other),
            o >= 0,
    {
        let top = if self.y >= other.y { self.y } else { other.y };
        let a = self.y + self.height;
        let b = other.y + other.height;
        let bottom = if a <= b { a } else { b };
        let d = bottom - top;
        if d >= 0 { d } else { 0 }
    }

    /// Returns the number of overlapping pixels along the horizontal axis.
    ///
    /// A positive value means the rectangles share horizontal space,
    /// which is useful for determining up/down neighbors.
    pub fn horizontal_overlap(&self, other: &Rect) -> (o: i32)
        requires
            i32::MIN <= self.right() <= i32::MAX,
            i32::MIN <= other.right() <= i32::MAX,
            i32::MIN <= min_int(self.right(), other.right()) - max_int(self.x as int, other.x as int) <= i32::MAX,
        ensures
            o == self.spec_horizontal_overlap(*other),
            o >= 0,
    {
        let left = if self.x >= other.x { self.x } else { other.x };
        let a = self.x + self.width;
        let b = other.x + other.width;
        let right = if a <= b { a } else { b };
        let d = right - left;
        if d >= 0 { d } else { 0 }
    }
}

} // verus!
