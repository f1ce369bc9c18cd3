use vstd::prelude::*;

verus! {

/// Saturating addition over the `usize` range, as a mathematical function.
pub open spec fn sadd(a: int, b: int) -> int {
    if a + b > usize::MAX as int {
        usize::MAX as int
    } else {
        a + b
    }
}

/// The larger of two numbers.
pub open spec fn imax(a: int, b: int) -> int {
    if a > b {
        a
    } else {
        b
    }
}

/// The smaller of two numbers.
pub open spec fn imin(a: int, b: int) -> int {
    if a < b {
        a
    } else {
        b
    }
}

/// Saturating subtraction, clamped at zero.
pub open spec fn ssub(a: int, b: int) -> int {
    if a - b < 0 {
        0
    } else {
        a - b
    }
}

/// A pair of cell counts: `x` columns, `y` rows.
///
/// Serves both as a size and as a position on the screen grid.
#[derive(Clone, Copy, PartialEq, Eq, Structural, Debug)]
pub struct XY {
    pub x: usize,
    pub y: usize,
}

impl XY {
    pub fn new(x: usize, y: usize) -> (r: XY)
        ensures
            r == (XY { x, y }),
    {
        XY { x, y }
    }

    pub open spec fn spec_sat_add(self, other: XY) -> XY {
        XY { x: sadd(self.x as int, other.x as int) as usize, y: sadd(self.y as int, other.y as int) as usize }
    }

    /// Component-wise addition, saturating at the `usize` ceiling.
    pub fn sat_add(self, other: XY) -> (r: XY)
        ensures
            r == self.spec_sat_add(other),
    {
        XY { x: self.x.saturating_add(other.x), y: self.y.saturating_add(other.y) }
    }

    pub open spec fn spec_sat_sub(self, other: XY) -> XY {
        XY { x: ssub(self.x as int, other.x as int) as usize, y: ssub(self.y as int, other.y as int) as usize }
    }

    /// Component-wise subtraction, clamped at zero.
    pub fn sat_sub(self, other: XY) -> (r: XY)
        ensures
            r == self.spec_sat_sub(other),
    {
        XY { x: self.x.saturating_sub(other.x), y: self.y.saturating_sub(other.y) }
    }

    pub open spec fn spec_checked_sub(self, other: XY) -> Option<XY> {
        if self.x >= other.x && self.y >= other.y {
            Some(XY { x: (self.x - other.x) as usize, y: (self.y - other.y) as usize })
        } else {
            None
        }
    }

    /// Component-wise subtraction; `None` as soon as either axis would
    /// go negative.
    pub fn checked_sub(self, other: XY) -> (r: Option<XY>)
        ensures
            r == self.spec_checked_sub(other),
    {
        if self.x >= other.x && self.y >= other.y {
            Some(XY { x: self.x - other.x, y: self.y - other.y })
        } else {
            None
        }
    }
}

/// Four per-side cell counts: an inset made of padding or of borders.
#[derive(Clone, Copy, PartialEq, Eq, Structural, Debug)]
pub struct Margins {
    pub left: usize,
    pub right: usize,
    pub top: usize,
    pub bottom: usize,
}

impl Margins {
    pub fn new(left: usize, right: usize, top: usize, bottom: usize) -> (r: Margins)
        ensures
            r == (Margins { left, right, top, bottom }),
    {
        Margins { left, right, top, bottom }
    }

    pub open spec fn spec_horizontal(self) -> int {
        sadd(self.left as int, self.right as int)
    }

    /// Total number of columns the inset takes.
    pub fn horizontal(self) -> (r: usize)
        ensures
            r as int == self.spec_horizontal(),
    {
        self.left.saturating_add(self.right)
    }

    pub open spec fn spec_vertical(self) -> int {
        sadd(self.top as int, self.bottom as int)
    }

    /// Total number of rows the inset takes.
    pub fn vertical(self) -> (r: usize)
        ensures
            r as int == self.spec_vertical(),
    {
        self.top.saturating_add(self.bottom)
    }

    pub open spec fn spec_combined(self) -> XY {
        XY { x: self.spec_horizontal() as usize, y: self.spec_vertical() as usize }
    }

    /// Both totals at once, as a size.
    pub fn combined(self) -> (r: XY)
        ensures
            r == self.spec_combined(),
    {
        XY { x: self.horizontal(), y: self.vertical() }
    }

    pub open spec fn spec_top_left(self) -> XY {
        XY { x: self.left, y: self.top }
    }

    /// The top-left corner of the region that remains inside the inset.
    pub fn top_left(self) -> (r: XY)
        ensures
            r == self.spec_top_left(),
    {
        XY { x: self.left, y: self.top }
    }

    pub open spec fn spec_sat_add(self, other: Margins) -> Margins {
        Margins {
            left: sadd(self.left as int, other.left as int) as usize,
            right: sadd(self.right as int, other.right as int) as usize,
            top: sadd(self.top as int, other.top as int) as usize,
            bottom: sadd(self.bottom as int, other.bottom as int) as usize,
        }
    }

    /// Side-by-side sum of two insets, saturating at the `usize` ceiling.
    pub fn sat_add(self, other: Margins) -> (r: Margins)
        ensures
            r == self.spec_sat_add(other),
    {
        Margins {
            left: self.left.saturating_add(other.left),
            right: self.right.saturating_add(other.right),
            top: self.top.saturating_add(other.top),
            bottom: self.bottom.saturating_add(other.bottom),
        }
    }
}

} // verus!
