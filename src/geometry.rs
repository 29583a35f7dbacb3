use vstd::prelude::*;

verus! {

/// A rectangle of terminal cells: top-left corner and size.
#[derive(Clone, Copy, Debug, PartialEq, Eq, Structural)]
pub struct Rect {
    pub x: u16,
    pub y: u16,
    pub width: u16,
    pub height: u16,
}

impl Rect {
    pub fn new(x: u16, y: u16, width: u16, height: u16) -> (r: Rect)
        ensures
            r == (Rect { x, y, width, height }),
    {
        Rect { x, y, width, height }
    }

    pub open spec fn contains_spec(&self, x: int, y: int) -> bool {
        self.x <= x < self.x + self.width && self.y <= y < self.y + self.height
    }

    /// Whether the cell `(x, y)` lies inside the rectangle.
    pub fn contains(&self, x: u16, y: u16) -> (r: bool)
        ensures
            r == self.contains_spec(x as int, y as int),
    {
        x >= self.x && y >= self.y && (x as u32) < self.x as u32 + self.width as u32
            && (y as u32) < self.y as u32 + self.height as u32
    }

    /// Shrinks the rectangle by `p` columns on both sides; the width bottoms out at zero.
    pub fn padding_hoz(self, p: u16) -> (r: Rect)
        requires
            self.x + p <= u16::MAX,
        ensures
            r.x == self.x + p,
            r.y == self.y,
            r.height == self.height,
            r.width == (if self.width >= 2 * p { self.width - 2 * p } else { 0 }),
    {
        let width = if self.width as u32 >= 2 * (p as u32) {
            self.width - 2 * p
        } else {
            0
        };
        Rect { x: self.x + p, y: self.y, width, height: self.height }
    }

    /// Shrinks the rectangle by `p` columns on the left; the width bottoms out at zero.
    pub fn padding_left(self, p: u16) -> (r: Rect)
        requires
            self.x + p <= u16::MAX,
        ensures
            r.x == self.x + p,
            r.y == self.y,
            r.height == self.height,
            r.width == (if self.width > p { self.width - p } else { 0 }),
    {
        let width = if self.width > p {
            self.width - p
        } else {
            0
        };
        Rect { x: self.x + p, y: self.y, width, height: self.height }
    }

    /// A rectangle of at most `width` by `height` centred inside this one.
    pub fn center(&self, width: u16, height: u16) -> (r: Rect)
        requires
            self.x + self.width <= u16::MAX,
            self.y + self.height <= u16::MAX,
        ensures
            r.width == (if width > self.width { self.width } else { width }),
            r.height == (if height > self.height { self.height } else { height }),
            r.x == self.x + (self.width - r.width) / 2,
            r.y == self.y + (self.height - r.height) / 2,
    {
        let w = if width > self.width { self.width } else { width };
        let h = if height > self.height { self.height } else { height };
        let left = (self.width - w) / 2;
        let top = (self.height - h) / 2;
        Rect { x: left + self.x, y: top + self.y, width: w, height: h }
    }
}

} // verus!
