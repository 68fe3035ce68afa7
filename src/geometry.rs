use vstd::prelude::*;

verus! {

/// A position in window coordinates, in whole device-independent pixels.
#[derive(Clone, Copy, Debug, PartialEq, Eq, Default)]
pub struct Point {
    pub x: i64,
    pub y: i64,
}

/// A width and a height, in whole pixels.
#[derive(Clone, Copy, Debug, PartialEq, Eq, Default)]
pub struct Size {
    pub width: i64,
    pub height: i64,
}

/// An axis-aligned rectangle: its top-left corner and its extent.
#[derive(Clone, Copy, Debug, PartialEq, Eq, Default)]
pub struct Bounds {
    pub origin: Point,
    pub size: Size,
}

pub open spec fn in_span(lo: int, extent: int, v: int) -> bool {
    lo <= v <= lo + extent
}

impl Bounds {
    /// Whether `p` lies inside these bounds, with points on an edge counting as inside.
    pub open spec fn contains(self, p: Point) -> bool {
        in_span(self.origin.x as int, self.size.width as int, p.x as int)
            && in_span(self.origin.y as int, self.size.height as int, p.y as int)
    }

    pub fn contains_point(&self, p: &Point) -> (r: bool)
        ensures
            r == self.contains(*p),
    {
        let x_ok = self.origin.x <= p.x && (p.x as i128) <= (self.origin.x as i128) + (self.size.width as i128);
        let y_ok = self.origin.y <= p.y && (p.y as i128) <= (self.origin.y as i128) + (self.size.height as i128);
        x_ok && y_ok
    }
}

} // verus!
