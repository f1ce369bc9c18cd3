use vstd::prelude::*;

verus! {

/// Horizontal placement of a block inside the space granted to it.
#[derive(Clone, Copy, PartialEq, Eq, Structural, Debug)]
pub enum HAlign {
    Left,
    Center,
    Right,
}

/// Vertical placement of a block inside the space granted to it.
#[derive(Clone, Copy, PartialEq, Eq, Structural, Debug)]
pub enum VAlign {
    Top,
    Center,
    Bottom,
}

/// Where the column offset of a block of width `content` falls inside
/// `available` columns; a block too wide to place starts at the left.
pub open spec fn spec_h_offset(h: HAlign, content: int, available: int) -> int {
    if content >= available {
        0
    } else {
        match h {
            HAlign::Left => 0,
            HAlign::Center => (available - content) / 2,
            HAlign::Right => available - content,
        }
    }
}

impl HAlign {
    /// The column at which a block of width `content` starts inside
    /// `available` columns.
    pub fn get_offset(self, content: usize, available: usize) -> (r: usize)
        ensures
            r as int == spec_h_offset(self, content as int, available as int),
            r as int + content as int <= available as int || r == 0,
    {
        if content >= available {
            0
        } else {
            match self {
                HAlign::Left => 0,
                HAlign::Center => (available - content) / 2,
                HAlign::Right => available - content,
            }
        }
    }
}

/// Placement of the button row inside a dialog.
#[derive(Clone, Copy, PartialEq, Eq, Structural, Debug)]
pub struct Align {
    pub h: HAlign,
    pub v: VAlign,
}

impl Align {
    pub fn new(h: HAlign, v: VAlign) -> (r: Align)
        ensures
            r == (Align { h, v }),
    {
        Align { h, v }
    }

    /// Top-right placement, the dialog's default for its button row.
    pub fn top_right() -> (r: Align)
        ensures
            r == (Align { h: HAlign::Right, v: VAlign::Top }),
    {
        Align { h: HAlign::Right, v: VAlign::Top }
    }
}

} // verus!
