use vstd::prelude::*;
use crate::geom::{imin, ssub, XY};
use crate::theme::ColorStyle;

verus! {

/// One screen cell: the character shown and the style it is shown in.
#[derive(Clone, Copy, PartialEq, Eq, Structural, Debug)]
pub struct Cell {
    pub ch: char,
    pub style: ColorStyle,
}

/// The screen as a grid of cells, row-major.
pub struct Canvas {
    width: usize,
    height: usize,
    cells: Vec<Cell>,
}

/// Row-major cell indices stay inside the backing store.
pub proof fn lemma_cell_index(x: int, y: int, w: int, h: int)
    requires
        0 <= x < w,
        0 <= y < h,
    ensures
        0 <= y * w + x < w * h,
        forall|x2: int, y2: int|
            0 <= x2 < w && 0 <= y2 < h && (x2 != x || y2 != y) ==> #[trigger] (y2 * w + x2) != y * w
                + x,
{
    assert(0 <= y * w + x < w * h) by (nonlinear_arith)
        requires
            0 <= x < w,
            0 <= y < h,
    ;
    assert forall|x2: int, y2: int|
        0 <= x2 < w && 0 <= y2 < h && (x2 != x || y2 != y) implies #[trigger] (y2 * w + x2) != y * w
        + x by {
        assert(y2 * w + x2 != y * w + x) by (nonlinear_arith)
            requires
                0 <= x < w,
                0 <= x2 < w,
                x2 != x || y2 != y,
        ;
    }
}

impl Canvas {
    pub closed spec fn spec_width(&self) -> int {
        self.width as int
    }

    pub closed spec fn spec_height(&self) -> int {
        self.height as int
    }

    /// The backing store holds exactly one cell per grid position.
    pub closed spec fn wf(&self) -> bool {
        self.cells@.len() == self.width * self.height
    }

    /// The cell shown at a position.
    pub closed spec fn at(&self, x: int, y: int) -> Cell {
        self.cells@[y * self.spec_width() + x]
    }

    /// A canvas of the given size, every cell blank.
    pub fn new(width: usize, height: usize, blank: Cell) -> (r: Canvas)
        requires
            width as int * height as int <= usize::MAX as int,
        ensures
            r.wf(),
            r.spec_width() == width,
            r.spec_height() == height,
            forall|x: int, y: int| 0 <= x < width && 0 <= y < height ==> r.at(x, y) == blank,
    {
        proof {
            assert(width as int * height as int >= 0) by (nonlinear_arith);
        }
        let n: usize = width * height;
        let mut cells: Vec<Cell> = Vec::new();
        let mut i: usize = 0;
        while i < n
            invariant
                0 <= i <= n,
                cells@.len() == i,
                forall|j: int| 0 <= j < i ==> cells@[j] == blank,
            decreases n - i,
        {
            cells.push(blank);
            i = i + 1;
        }
        let r = Canvas { width, height, cells };
        proof {
            assert forall|x: int, y: int| 0 <= x < width && 0 <= y < height implies r.at(x, y)
                == blank by {
                lemma_cell_index(x, y, width as int, height as int);
            }
        }
        r
    }

    pub fn width(&self) -> (r: usize)
        ensures
            r as int == self.spec_width(),
    {
        self.width
    }

    pub fn height(&self) -> (r: usize)
        ensures
            r as int == self.spec_height(),
    {
        self.height
    }

    /// Reads one cell.
    pub fn get(&self, x: usize, y: usize) -> (r: Cell)
        requires
            self.wf(),
            x < self.spec_width(),
            y < self.spec_height(),
        ensures
            r == self.at(x as int, y as int),
    {
        let stored = self.cells.len();
        proof {
            lemma_cell_index(x as int, y as int, self.width as int, self.height as int);
            assert(y * self.spec_width() + x < stored);
        }
        self.cells[y * self.width + x]
    }

    /// Writes one cell; every other position keeps its value.
    fn set(&mut self, x: usize, y: usize, cell: Cell)
        requires
            old(self).wf(),
            x < old(self).spec_width(),
            y < old(self).spec_height(),
        ensures
            final(self).wf(),
            final(self).spec_width() == old(self).spec_width(),
            final(self).spec_height() == old(self).spec_height(),
            final(self).at(x as int, y as int) == cell,
            forall|x2: int, y2: int|
                0 <= x2 < old(self).spec_width() && 0 <= y2 < old(self).spec_height() && (x2 != x
                    || y2 != y) ==> final(self).at(x2, y2) == old(self).at(x2, y2),
    {
        let stored = self.cells.len();
        proof {
            lemma_cell_index(x as int, y as int, self.width as int, self.height as int);
            assert(y * self.spec_width() + x < stored);
        }
        let idx: usize = y * self.width + x;
        self.cells[idx] = cell;
        proof {
            assert forall|x2: int, y2: int|
                0 <= x2 < old(self).spec_width() && 0 <= y2 < old(self).spec_height() && (x2 != x
                    || y2 != y) implies self.at(x2, y2) == old(self).at(x2, y2) by {
                lemma_cell_index(x2, y2, self.width as int, self.height as int);
                lemma_cell_index(x as int, y as int, self.width as int, self.height as int);
            }
        }
    }
}

/// A scoped handle on a rectangular region of the canvas: everything a
/// widget draws through it lands inside that region.
#[derive(Clone, Copy, PartialEq, Eq, Structural, Debug)]
pub struct Printer {
    /// Top-left corner of the granted region, in canvas coordinates.
    pub offset: XY,
    /// Extent of the granted region.
    pub size: XY,
    /// Whether the widget drawn through this handle has focus.
    pub focused: bool,
    /// The style cells are written with.
    pub style: ColorStyle,
}

/// Whether a region-relative position lies on the outline of the
/// rectangle at `start` of extent `size`.
pub open spec fn on_box_outline(start: XY, size: XY, px: int, py: int) -> bool {
    let x0 = start.x as int;
    let y0 = start.y as int;
    let x1 = x0 + size.x - 1;
    let y1 = y0 + size.y - 1;
    ||| (x0 <= px <= x1 && (py == y0 || py == y1))
    ||| (y0 <= py <= y1 && (px == x0 || px == x1))
}

/// The glyph each outline position carries: a corner, or a horizontal
/// or vertical edge.
pub open spec fn box_glyph(start: XY, size: XY, px: int, py: int) -> char {
    let x0 = start.x as int;
    let y0 = start.y as int;
    let x1 = x0 + size.x - 1;
    let y1 = y0 + size.y - 1;
    if px == x0 && py == y0 {
        '\u{250c}'
    } else if px == x1 && py == y0 {
        '\u{2510}'
    } else if px == x0 && py == y1 {
        '\u{2514}'
    } else if px == x1 && py == y1 {
        '\u{2518}'
    } else if py == y0 || py == y1 {
        '\u{2500}'
    } else {
        '\u{2502}'
    }
}

impl Printer {
    /// Whether a canvas position lies inside the granted region.
    pub open spec fn in_region(&self, x: int, y: int) -> bool {
        &&& self.offset.x <= x < self.offset.x + self.size.x
        &&& self.offset.y <= y < self.offset.y + self.size.y
    }

    /// The frame every drawing call honors: the canvas keeps its shape,
    /// and every cell outside the granted region keeps its value.
    pub open spec fn only_paints_inside(&self, before: Canvas, after: Canvas) -> bool {
        &&& after.wf()
        &&& after.spec_width() == before.spec_width()
        &&& after.spec_height() == before.spec_height()
        &&& forall|x: int, y: int|
            0 <= x < before.spec_width() && 0 <= y < before.spec_height() && !self.in_region(x, y)
                ==> after.at(x, y) == before.at(x, y)
    }

    /// Whether the canvas shows `ch`, in this handle's style, at the
    /// region-relative position — trivially true where the position is
    /// clipped away by the region or by the canvas edge.
    pub open spec fn shows(&self, canvas: Canvas, px: int, py: int, ch: char) -> bool {
        (0 <= px < self.size.x && 0 <= py < self.size.y && self.offset.x + px
            < canvas.spec_width() && self.offset.y + py < canvas.spec_height()) ==> canvas.at(
            self.offset.x + px,
            self.offset.y + py,
        ) == (Cell { ch, style: self.style })
    }

    /// A handle on the whole of a canvas of the given size.
    pub fn root(size: XY, style: ColorStyle) -> (r: Printer)
        ensures
            r == (Printer { offset: XY { x: 0, y: 0 }, size, focused: true, style }),
    {
        Printer { offset: XY { x: 0, y: 0 }, size, focused: true, style }
    }

    /// A handle on a sub-region: `offset` relative to this region, the
    /// requested size clipped so that the child cannot leave the parent.
    pub fn sub_printer(&self, offset: XY, size: XY, focused: bool) -> (r: Printer)
        ensures
            r.offset == self.offset.spec_sat_add(offset),
            r.size.x as int == imin(size.x as int, ssub(self.size.x as int, offset.x as int)),
            r.size.y as int == imin(size.y as int, ssub(self.size.y as int, offset.y as int)),
            r.style == self.style,
            r.focused == focused,
            forall|x: int, y: int| r.in_region(x, y) ==> self.in_region(x, y),
    {
        let sx = if size.x < self.size.x.saturating_sub(offset.x) {
            size.x
        } else {
            self.size.x.saturating_sub(offset.x)
        };
        let sy = if size.y < self.size.y.saturating_sub(offset.y) {
            size.y
        } else {
            self.size.y.saturating_sub(offset.y)
        };
        Printer {
            offset: self.offset.sat_add(offset),
            size: XY { x: sx, y: sy },
            focused,
            style: self.style,
        }
    }

    /// The same region, with another style to write with.
    pub fn with_style(&self, style: ColorStyle) -> (r: Printer)
        ensures
            r == (Printer { style, ..*self }),
    {
        Printer { offset: self.offset, size: self.size, focused: self.focused, style }
    }

    /// Writes one character at a region-relative position; outside the
    /// region or the canvas, nothing happens.
    pub fn put(&self, canvas: &mut Canvas, pos: XY, ch: char)
        requires
            old(canvas).wf(),
        ensures
            self.only_paints_inside(*old(canvas), *final(canvas)),
            (pos.x < self.size.x && pos.y < self.size.y
                && self.offset.x + pos.x < old(canvas).spec_width()
                && self.offset.y + pos.y < old(canvas).spec_height())
                ==> final(canvas).at(self.offset.x + pos.x, self.offset.y + pos.y)
                    == (Cell { ch, style: self.style }),
            forall|x: int, y: int|
                (0 <= x < old(canvas).spec_width() && 0 <= y < old(canvas).spec_height()
                    && !(x == self.offset.x + pos.x && y == self.offset.y + pos.y))
                    ==> final(canvas).at(x, y) == old(canvas).at(x, y),
    {
        if pos.x >= self.size.x || pos.y >= self.size.y {
            return ;
        }
        let x = match self.offset.x.checked_add(pos.x) {
            Some(x) => x,
            None => {
                return ;
            },
        };
        let y = match self.offset.y.checked_add(pos.y) {
            Some(y) => y,
            None => {
                return ;
            },
        };
        if x < canvas.width() && y < canvas.height() {
            canvas.set(x, y, Cell { ch, style: self.style });
        }
    }

    /// Writes a string left to right from a region-relative position,
    /// one cell per character, clipped to the region and the canvas.
    pub fn print(&self, canvas: &mut Canvas, pos: XY, text: &str)
        requires
            old(canvas).wf(),
        ensures
            self.only_paints_inside(*old(canvas), *final(canvas)),
            forall|i: int|
                (0 <= i < text@.len() && pos.y < self.size.y && pos.x + i < self.size.x
                    && self.offset.x + pos.x + i < old(canvas).spec_width()
                    && self.offset.y + pos.y < old(canvas).spec_height())
                    ==> final(canvas).at(self.offset.x + pos.x + i, self.offset.y + pos.y)
                        == (Cell { ch: text@[i], style: self.style }),
            forall|x: int, y: int|
                0 <= x < old(canvas).spec_width() && 0 <= y < old(canvas).spec_height() && !(y
                    == self.offset.y + pos.y && self.offset.x + pos.x <= x < self.offset.x + pos.x
                    + text@.len()) ==> final(canvas).at(x, y) == old(canvas).at(x, y),
    {
        let n = text.unicode_len();
        let mut i: usize = 0;
        while i < n
            invariant
                0 <= i <= n,
                n == text@.len(),
                canvas.wf(),
                self.only_paints_inside(*old(canvas), *canvas),
                forall|j: int|
                    (0 <= j < i && pos.y < self.size.y && pos.x + j < self.size.x
                        && self.offset.x + pos.x + j < old(canvas).spec_width()
                        && self.offset.y + pos.y < old(canvas).spec_height())
                        ==> canvas.at(self.offset.x + pos.x + j, self.offset.y + pos.y)
                            == (Cell { ch: text@[j], style: self.style }),
                forall|x: int, y: int|
                    0 <= x < old(canvas).spec_width() && 0 <= y < old(canvas).spec_height() && !(y
                        == self.offset.y + pos.y && self.offset.x + pos.x <= x < self.offset.x
                        + pos.x + i) ==> canvas.at(x, y) == old(canvas).at(x, y),
            decreases n - i,
        {
            let ch = text.get_char(i);
            let col = match pos.x.checked_add(i) {
                Some(c) => c,
                None => {
                    return ;
                },
            };
            self.put(canvas, XY { x: col, y: pos.y }, ch);
            i = i + 1;
        }
    }

    /// Draws the outline of a rectangle, `start` region-relative; does
    /// nothing when the rectangle is thinner than two cells either way.
    /// Writes stay inside the rectangle (and inside the region), and
    /// every outline position that the region and the canvas show holds
    /// its corner or edge glyph in this handle's style.
    pub fn print_box(&self, canvas: &mut Canvas, start: XY, size: XY)
        requires
            old(canvas).wf(),
        ensures
            self.only_paints_inside(*old(canvas), *final(canvas)),
            forall|x: int, y: int|
                0 <= x < old(canvas).spec_width() && 0 <= y < old(canvas).spec_height() && !(
                self.offset.x + start.x <= x < self.offset.x + start.x + size.x && self.offset.y
                    + start.y <= y < self.offset.y + start.y + size.y) ==> final(canvas).at(x, y)
                    == old(canvas).at(x, y),
            forall|px: int, py: int|
                (size.x >= 2 && size.y >= 2 && start.x + size.x - 1 <= usize::MAX as int
                    && start.y + size.y - 1 <= usize::MAX as int && #[trigger] on_box_outline(
                    start,
                    size,
                    px,
                    py,
                )) ==> self.shows(*final(canvas), px, py, box_glyph(start, size, px, py)),
    {
        if size.x < 2 || size.y < 2 {
            return ;
        }
        let right: usize = match start.x.checked_add(size.x - 1) {
            Some(r) => r,
            None => {
                return ;
            },
        };
        let bottom: usize = match start.y.checked_add(size.y - 1) {
            Some(b) => b,
            None => {
                return ;
            },
        };
        self.put(canvas, XY { x: start.x, y: start.y }, '┌');
        self.put(canvas, XY { x: right, y: start.y }, '┐');
        self.put(canvas, XY { x: start.x, y: bottom }, '└');
        self.put(canvas, XY { x: right, y: bottom }, '┘');
        let mut x: usize = start.x + 1;
        while x < right
            invariant
                canvas.wf(),
                start.x + 1 <= x,
                start.x < right,
                start.y < bottom,
                right < start.x + size.x,
                bottom < start.y + size.y,
                size.x >= 2,
                size.y >= 2,
                right == start.x + size.x - 1,
                bottom == start.y + size.y - 1,
                self.only_paints_inside(*old(canvas), *canvas),
                forall|x2: int, y2: int|
                    0 <= x2 < old(canvas).spec_width() && 0 <= y2 < old(canvas).spec_height() && !(
                    self.offset.x + start.x <= x2 < self.offset.x + start.x + size.x
                        && self.offset.y + start.y <= y2 < self.offset.y + start.y + size.y)
                        ==> canvas.at(x2, y2) == old(canvas).at(x2, y2),
                forall|px: int, py: int|
                    (#[trigger] on_box_outline(start, size, px, py) && (py == start.y || py
                        == bottom) && (px == start.x || px == right || px < x)) ==> self.shows(
                        *canvas,
                        px,
                        py,
                        box_glyph(start, size, px, py),
                    ),
            decreases right - x,
        {
            self.put(canvas, XY { x, y: start.y }, '─');
            self.put(canvas, XY { x, y: bottom }, '─');
            x = x + 1;
        }
        let mut y: usize = start.y + 1;
        while y < bottom
            invariant
                canvas.wf(),
                start.y + 1 <= y,
                start.x < right,
                start.y < bottom,
                right < start.x + size.x,
                bottom < start.y + size.y,
                size.x >= 2,
                size.y >= 2,
                right == start.x + size.x - 1,
                bottom == start.y + size.y - 1,
                self.only_paints_inside(*old(canvas), *canvas),
                forall|x2: int, y2: int|
                    0 <= x2 < old(canvas).spec_width() && 0 <= y2 < old(canvas).spec_height() && !(
                    self.offset.x + start.x <= x2 < self.offset.x + start.x + size.x
                        && self.offset.y + start.y <= y2 < self.offset.y + start.y + size.y)
                        ==> canvas.at(x2, y2) == old(canvas).at(x2, y2),
                forall|px: int, py: int|
                    (#[trigger] on_box_outline(start, size, px, py) && ((py == start.y || py
                        == bottom) || ((px == start.x || px == right) && py < y))) ==> self.shows(
                        *canvas,
                        px,
                        py,
                        box_glyph(start, size, px, py),
                    ),
            decreases bottom - y,
        {
            self.put(canvas, XY { x: start.x, y }, '│');
            self.put(canvas, XY { x: right, y }, '│');
            y = y + 1;
        }
    }
}

} // verus!
