use vstd::prelude::*;
use crate::align::{Align, HAlign, VAlign};
use crate::event::{Action, Direction, Event, EventResult, Key};
use crate::geom::{imax, sadd, ssub, Margins, XY};
use crate::printer::{Canvas, Printer};
use crate::theme::ColorStyle;
use crate::views::{Button, DummyView, TextView};
use crate::widget::{Selector, Widget};
use crate::width::display_width;

verus! {

/// Where a dialog's keyboard focus rests.
#[derive(Clone, Copy, PartialEq, Eq, Structural, Debug)]
pub enum Focus {
    /// On the content widget.
    Content,
    /// On the button at this position of the button row.
    Button(usize),
}

/// A button owned by a dialog, paired with the size its last layout
/// pass assigned to it.
pub struct SizedButton {
    pub button: Button,
    pub size: XY,
}

/// The width of the button row: each button's desired width, plus one
/// separating column between neighbours.
pub open spec fn row_width_from(bs: Seq<SizedButton>, i: int, acc: int) -> int
    decreases bs.len() - i,
{
    if 0 <= i < bs.len() {
        row_width_from(bs, i + 1, sadd(acc, bs[i].button.desired().x as int))
    } else {
        acc
    }
}

pub open spec fn spec_row_width(bs: Seq<SizedButton>) -> int {
    row_width_from(bs, 0, if bs.len() > 0 { bs.len() - 1 } else { 0 })
}

/// The height of the button row: the tallest button, plus one blank
/// separator row above the row; zero with no buttons.
pub open spec fn row_height_from(bs: Seq<SizedButton>, i: int, acc: int) -> int
    decreases bs.len() - i,
{
    if 0 <= i < bs.len() {
        row_height_from(bs, i + 1, imax(acc, sadd(bs[i].button.desired().y as int, 1)))
    } else {
        acc
    }
}

pub open spec fn spec_row_height(bs: Seq<SizedButton>) -> int {
    row_height_from(bs, 0, 0)
}

/// The height of the button row as it is drawn: over the sizes the last
/// layout pass stored, not the desired ones.
pub open spec fn stored_row_height_from(bs: Seq<SizedButton>, i: int, acc: int) -> int
    decreases bs.len() - i,
{
    if 0 <= i < bs.len() {
        stored_row_height_from(bs, i + 1, imax(acc, sadd(bs[i].size.y as int, 1)))
    } else {
        acc
    }
}

pub open spec fn spec_stored_row_height(bs: Seq<SizedButton>) -> int {
    stored_row_height_from(bs, 0, 0)
}

/// A popup-like composite widget: a bordered, padded box holding a
/// title, one content widget, and a row of buttons under the content.
pub struct Dialog<C: Widget> {
    pub title: String,
    /// Display width of `title`, kept alongside it.
    pub title_width: usize,
    pub content: C,
    pub buttons: Vec<SizedButton>,
    pub padding: Margins,
    pub borders: Margins,
    pub focus: Focus,
    pub align: Align,
}

impl<C: Widget> Dialog<C> {
    /// What happens when a focused button ignores an event that offers
    /// focus back to the content: the content claims it (entered from
    /// `d`) and the event is consumed, or everything stays as it was.
    pub open spec fn focus_back_to_content(&self, d: Direction) -> (Self, EventResult) {
        match self.content.claim(d) {
            Some(c2) => (
                Dialog { content: c2, focus: Focus::Content, ..*self },
                EventResult::Consumed(None),
            ),
            None => (*self, EventResult::Ignored),
        }
    }

    /// Whether a frame is drawn at all into a region of this size: the
    /// horizontal insets fit, the bottom insets with the separator row
    /// fit, and the interior remains once the drawn button row and the
    /// insets are taken.
    pub open spec fn spec_draw_fits(&self, size: XY) -> bool {
        let bh = spec_stored_row_height(self.buttons@);
        let taken = (XY { x: 0, y: bh as usize }).spec_sat_add(
            self.borders.spec_combined(),
        ).spec_sat_add(self.padding.spec_combined());
        &&& self.padding.spec_sat_add(self.borders).spec_horizontal() <= size.x as int
        &&& sadd(sadd(self.padding.bottom as int, self.borders.bottom as int), 1) <= size.y as int
        &&& taken.x <= size.x && taken.y <= size.y
    }

    /// Whether the title is rendered: it exists, and it fits beside its
    /// two-column corner decorations.
    pub open spec fn spec_title_fits(&self, size: XY) -> bool {
        self.title@.len() > 0 && self.title_width + 4 <= size.x as int
    }

    /// Creates a dialog around the given content widget.
    pub fn around(view: C) -> (r: Dialog<C>)
        requires
            view.wf(),
        ensures
            r.wf(),
            r.content == view,
            r.title@ =~= Seq::<char>::empty(),
            r.buttons@.len() == 0,
            r.focus is Content,
            r.padding == (Margins { left: 1, right: 1, top: 0, bottom: 0 }),
            r.borders == (Margins { left: 1, right: 1, top: 1, bottom: 1 }),
            r.align == (Align { h: HAlign::Right, v: VAlign::Top }),
    {
        let title = String::new();
        let title_width = display_width(title.as_str());
        Dialog {
            title,
            title_width,
            content: view,
            buttons: Vec::new(),
            padding: Margins { left: 1, right: 1, top: 0, bottom: 0 },
            borders: Margins { left: 1, right: 1, top: 1, bottom: 1 },
            focus: Focus::Content,
            align: Align::top_right(),
        }
    }

    /// Replaces the content; the previous content is dropped.
    pub fn set_content(&mut self, view: C)
        requires
            old(self).wf(),
            view.wf(),
        ensures
            final(self).wf(),
            final(self).content == view,
            *final(self) == (Dialog { content: view, ..*old(self) }),
    {
        self.content = view;
    }

    /// Replaces the content, chainable; the content's type may change.
    pub fn content<D: Widget>(self, view: D) -> (r: Dialog<D>)
        requires
            self.wf(),
            view.wf(),
        ensures
            r.wf(),
            r.content == view,
            r.title == self.title,
            r.buttons == self.buttons,
            r.focus == self.focus,
            r.padding == self.padding,
            r.borders == self.borders,
            r.align == self.align,
    {
        Dialog {
            title: self.title,
            title_width: self.title_width,
            content: view,
            buttons: self.buttons,
            padding: self.padding,
            borders: self.borders,
            focus: self.focus,
            align: self.align,
        }
    }

    /// Adds a button with the given label and deferred action.
    pub fn button(self, label: &str, action: Action) -> (r: Dialog<C>)
        requires
            self.wf(),
        ensures
            r.wf(),
            r.buttons@.len() == self.buttons@.len() + 1,
            r.buttons@.last().button.label@ == label@,
            r.buttons@.last().button.action == action,
            forall|i: int| 0 <= i < self.buttons@.len() ==> r.buttons@[i] == self.buttons@[i],
            r.content == self.content,
            r.title == self.title,
            r.title_width == self.title_width,
            r.focus == self.focus,
            r.padding == self.padding,
            r.borders == self.borders,
            r.align == self.align,
    {
        let mut s = self;
        s.buttons.push(SizedButton { button: Button::new(label, action), size: XY { x: 0, y: 0 } });
        s
    }

    /// Adds a button whose action dismisses the dialog's layer.
    pub fn dismiss_button(self, label: &str) -> (r: Dialog<C>)
        requires
            self.wf(),
        ensures
            r.wf(),
            r.buttons@.len() == self.buttons@.len() + 1,
            r.buttons@.last().button.label@ == label@,
            r.buttons@.last().button.action == Action::Dismiss,
            forall|i: int| 0 <= i < self.buttons@.len() ==> r.buttons@[i] == self.buttons@[i],
            r.content == self.content,
            r.title == self.title,
            r.focus == self.focus,
    {
        self.button(label, Action::Dismiss)
    }

    /// Sets the title shown on the top border, chainable.
    pub fn title(self, label: &str) -> (r: Dialog<C>)
        requires
            self.wf(),
        ensures
            r.wf(),
            r.title@ == label@,
            r == (Dialog { title: r.title, title_width: r.title_width, ..self }),
    {
        let mut s = self;
        s.set_title(label);
        s
    }

    /// Sets the title shown on the top border.
    pub fn set_title(&mut self, label: &str)
        requires
            old(self).wf(),
        ensures
            final(self).wf(),
            final(self).title@ == label@,
            *final(self) == (Dialog {
                title: final(self).title,
                title_width: final(self).title_width,
                ..*old(self)
            }),
    {
        self.title_width = display_width(label);
        self.title = label.to_owned();
    }

    /// Sets the horizontal placement of the button row, chainable.
    pub fn h_align(self, h: HAlign) -> (r: Dialog<C>)
        requires
            self.wf(),
        ensures
            r.wf(),
            r == (Dialog { align: (Align { h, v: self.align.v }), ..self }),
    {
        let mut s = self;
        s.align.h = h;
        s
    }

    /// Sets the vertical placement of the button row, chainable.
    pub fn v_align(self, v: VAlign) -> (r: Dialog<C>)
        requires
            self.wf(),
        ensures
            r.wf(),
            r == (Dialog { align: (Align { h: self.align.h, v }), ..self }),
    {
        let mut s = self;
        s.align.v = v;
        s
    }

    /// Sets all four padding sides at once, chainable.
    pub fn padding(self, padding: Margins) -> (r: Dialog<C>)
        requires
            self.wf(),
        ensures
            r.wf(),
            r == (Dialog { padding, ..self }),
    {
        let mut s = self;
        s.padding = padding;
        s
    }

    /// Sets the padding under the title, chainable.
    pub fn padding_top(self, padding: usize) -> (r: Dialog<C>)
        requires
            self.wf(),
        ensures
            r.wf(),
            r == (Dialog { padding: (Margins { top: padding, ..self.padding }), ..self }),
    {
        let mut s = self;
        s.padding.top = padding;
        s
    }

    /// Sets the padding under the buttons, chainable.
    pub fn padding_bottom(self, padding: usize) -> (r: Dialog<C>)
        requires
            self.wf(),
        ensures
            r.wf(),
            r == (Dialog { padding: (Margins { bottom: padding, ..self.padding }), ..self }),
    {
        let mut s = self;
        s.padding.bottom = padding;
        s
    }

    /// Sets the left padding, chainable.
    pub fn padding_left(self, padding: usize) -> (r: Dialog<C>)
        requires
            self.wf(),
        ensures
            r.wf(),
            r == (Dialog { padding: (Margins { left: padding, ..self.padding }), ..self }),
    {
        let mut s = self;
        s.padding.left = padding;
        s
    }

    /// Sets the right padding, chainable.
    pub fn padding_right(self, padding: usize) -> (r: Dialog<C>)
        requires
            self.wf(),
        ensures
            r.wf(),
            r == (Dialog { padding: (Margins { right: padding, ..self.padding }), ..self }),
    {
        let mut s = self;
        s.padding.right = padding;
        s
    }
}

impl Dialog<DummyView> {
    /// Creates a dialog with empty content: a placeholder widget until
    /// real content is set. The same dialog `around(DummyView)` builds.
    pub fn new() -> (r: Dialog<DummyView>)
        ensures
            r.wf(),
            r.content == DummyView,
            r.title@ =~= Seq::<char>::empty(),
            r.buttons@.len() == 0,
            r.focus is Content,
            r.padding == (Margins { left: 1, right: 1, top: 0, bottom: 0 }),
            r.borders == (Margins { left: 1, right: 1, top: 1, bottom: 1 }),
            r.align == (Align { h: HAlign::Right, v: VAlign::Top }),
    {
        Dialog::around(DummyView)
    }
}

impl Default for Dialog<DummyView> {
    /// The same dialog `new` builds: empty content, no buttons.
    fn default() -> (r: Dialog<DummyView>)
        ensures
            r.wf(),
            r.content == DummyView,
            r.title@ =~= Seq::<char>::empty(),
            r.buttons@.len() == 0,
            r.focus is Content,
            r.padding == (Margins { left: 1, right: 1, top: 0, bottom: 0 }),
            r.borders == (Margins { left: 1, right: 1, top: 1, bottom: 1 }),
            r.align == (Align { h: HAlign::Right, v: VAlign::Top }),
    {
        Dialog::new()
    }
}

impl Dialog<TextView> {
    /// A dialog around a single line of text.
    pub fn text(text: &str) -> (r: Dialog<TextView>)
        ensures
            r.wf(),
            r.content.content@ == text@,
            r.buttons@.len() == 0,
    {
        Dialog::around(TextView::new(text))
    }

    /// An infobox: the given text and an `Ok` button that dismisses it.
    pub fn info(text: &str) -> (r: Dialog<TextView>)
        ensures
            r.wf(),
            r.content.content@ == text@,
            r.buttons@.len() == 1,
            r.buttons@.last().button.label@ == "Ok"@,
            r.buttons@.last().button.action == Action::Dismiss,
    {
        Dialog::text(text).dismiss_button("Ok")
    }
}

impl<C: Widget> Widget for Dialog<C> {
    /// Focus points at an existing button (or the content), the stored
    /// title width fits the title, and every owned widget is itself
    /// well formed.
    open spec fn wf(&self) -> bool {
        &&& self.content.wf()
        &&& forall|i: int| 0 <= i < self.buttons@.len() ==> (#[trigger] self.buttons@[i]).button.wf()
        &&& match self.focus {
            Focus::Content => true,
            Focus::Button(i) => i < self.buttons@.len(),
        }
        &&& self.title_width as nat == crate::width::text_width(self.title@)
    }

    /// The dialog's desired size: content and button row stacked, the
    /// wider of the two across, plus padding and borders; wide enough
    /// for the title and its corner decorations. When the overhead
    /// alone exceeds the bound, the overhead is reported unreduced.
    open spec fn spec_required_size(&self, req: XY) -> XY {
        let nomans = self.padding.spec_combined().spec_sat_add(self.borders.spec_combined());
        let bw = spec_row_width(self.buttons@);
        let bh = spec_row_height(self.buttons@);
        let taken = XY { x: nomans.x, y: sadd(nomans.y as int, bh) as usize };
        match req.spec_checked_sub(taken) {
            None => taken,
            Some(content_req) => {
                let cs = self.content.spec_required_size(content_req);
                let ix = sadd(imax(cs.x as int, bw), nomans.x as int) as usize;
                let iy = sadd(sadd(cs.y as int, bh), nomans.y as int) as usize;
                if self.title@.len() > 0 {
                    XY { x: imax(ix as int, sadd(self.title_width as int, 6)) as usize, y: iy }
                } else {
                    XY { x: ix, y: iy }
                }
            },
        }
    }

    /// The focus machine. On the content: the content answers first; if
    /// it ignores the event and buttons exist, Down, Tab or Shift+Tab
    /// moves to the first button. On button `i`: the button answers
    /// first; if it ignores the event, Up, Shift+Tab or Tab offer focus
    /// back to the content (each from its own direction), Right and
    /// Left move along the row while an index exists. Whatever is not
    /// consumed is ignored.
    open spec fn step(&self, e: Event) -> (Self, EventResult) {
        match self.focus {
            Focus::Content => {
                let (c2, res) = self.content.step(e);
                let moved = Dialog { content: c2, ..*self };
                if res is Ignored && self.buttons@.len() > 0 {
                    if e == Event::Key(Key::Down) || e == Event::Key(Key::Tab) || e == Event::Shift(
                        Key::Tab,
                    ) {
                        (
                            Dialog { content: c2, focus: Focus::Button(0), ..*self },
                            EventResult::Consumed(None),
                        )
                    } else {
                        (moved, EventResult::Ignored)
                    }
                } else {
                    (moved, res)
                }
            },
            Focus::Button(i) => {
                let res = self.buttons@[i as int].button.step(e).1;
                if res is Ignored {
                    if e == Event::Key(Key::Up) {
                        self.focus_back_to_content(Direction::Down)
                    } else if e == Event::Shift(Key::Tab) {
                        self.focus_back_to_content(Direction::Back)
                    } else if e == Event::Key(Key::Tab) {
                        self.focus_back_to_content(Direction::Front)
                    } else if e == Event::Key(Key::Right) && i + 1 < self.buttons@.len() {
                        (
                            Dialog { focus: Focus::Button((i + 1) as usize), ..*self },
                            EventResult::Consumed(None),
                        )
                    } else if e == Event::Key(Key::Left) && i > 0 {
                        (
                            Dialog { focus: Focus::Button((i - 1) as usize), ..*self },
                            EventResult::Consumed(None),
                        )
                    } else {
                        (*self, EventResult::Ignored)
                    }
                } else {
                    (*self, res)
                }
            },
        }
    }

    /// Focus from outside: the content is offered focus first whatever
    /// the direction; failing that, the first button takes it; with no
    /// buttons the dialog refuses.
    open spec fn claim(&self, source: Direction) -> Option<Self> {
        match self.content.claim(source) {
            Some(c2) => Some(Dialog { content: c2, focus: Focus::Content, ..*self }),
            None => if self.buttons@.len() > 0 {
                Some(Dialog { focus: Focus::Button(0), ..*self })
            } else {
                None
            },
        }
    }

    /// Layout subtracts borders and padding, gives every button its
    /// desired size, clamps the row height to what is available, and
    /// hands the content the rest.
    open spec fn after_layout(&self, size: XY, after: Self) -> bool {
        let inner = size.spec_sat_sub(
            self.borders.spec_combined().spec_sat_add(self.padding.spec_combined()),
        );
        let bh = spec_row_height(self.buttons@);
        let bh_clamped = if bh > inner.y as int {
            inner.y as int
        } else {
            bh
        };
        &&& after.title == self.title
        &&& after.title_width == self.title_width
        &&& after.padding == self.padding
        &&& after.borders == self.borders
        &&& after.focus == self.focus
        &&& after.align == self.align
        &&& after.buttons@.len() == self.buttons@.len()
        &&& forall|i: int|
            0 <= i < self.buttons@.len() ==> #[trigger] after.buttons@[i] == (SizedButton {
                button: self.buttons@[i].button,
                size: self.buttons@[i].button.desired(),
            })
        &&& self.content.after_layout(
            XY { x: inner.x, y: ssub(inner.y as int, bh_clamped) as usize },
            after.content,
        )
    }

    fn required_size(&mut self, req: XY) -> (r: XY) {
        let nomans = self.padding.combined().sat_add(self.borders.combined());
        let ghost bs = self.buttons@;
        let n = self.buttons.len();
        let mut bw: usize = if n > 0 {
            n - 1
        } else {
            0
        };
        let mut bh: usize = 0;
        let mut i: usize = 0;
        while i < n
            invariant
                *self == *old(self),
                self.wf(),
                bs == self.buttons@,
                n == bs.len(),
                0 <= i <= n,
                row_width_from(bs, 0, if n > 0 { n - 1 } else { 0 }) == row_width_from(
                    bs,
                    i as int,
                    bw as int,
                ),
                row_height_from(bs, 0, 0) == row_height_from(bs, i as int, bh as int),
            decreases n - i,
        {
            let s = self.buttons[i].button.desired_size();
            bw = bw.saturating_add(s.x);
            let h1 = s.y.saturating_add(1);
            if h1 > bh {
                bh = h1;
            }
            i = i + 1;
        }
        let taken = XY { x: nomans.x, y: nomans.y.saturating_add(bh) };
        match req.checked_sub(taken) {
            None => taken,
            Some(content_req) => {
                let cs = self.content.required_size(content_req);
                let wide = if cs.x > bw {
                    cs.x
                } else {
                    bw
                };
                let ix = wide.saturating_add(nomans.x);
                let iy = cs.y.saturating_add(bh).saturating_add(nomans.y);
                if !self.title.as_str().is_empty() {
                    let tw = self.title_width.saturating_add(6);
                    let x = if ix > tw {
                        ix
                    } else {
                        tw
                    };
                    XY { x, y: iy }
                } else {
                    XY { x: ix, y: iy }
                }
            },
        }
    }

    fn layout(&mut self, size: XY) {
        let taken = self.borders.combined().sat_add(self.padding.combined());
        let inner = size.sat_sub(taken);
        let ghost bs = old(self).buttons@;
        let mut rebuilt: Vec<SizedButton> = Vec::new();
        let mut bh: usize = 0;
        while self.buttons.len() > 0
            invariant
                self.content == old(self).content,
                self.title == old(self).title,
                self.title_width == old(self).title_width,
                self.padding == old(self).padding,
                self.borders == old(self).borders,
                self.focus == old(self).focus,
                self.align == old(self).align,
                old(self).wf(),
                rebuilt@.len() + self.buttons@.len() == bs.len(),
                self.buttons@ =~= bs.skip(rebuilt@.len() as int),
                forall|i: int|
                    0 <= i < rebuilt@.len() ==> #[trigger] rebuilt@[i] == (SizedButton {
                        button: bs[i].button,
                        size: bs[i].button.desired(),
                    }),
                row_height_from(bs, 0, 0) == row_height_from(bs, rebuilt@.len() as int, bh as int),
            decreases self.buttons@.len(),
        {
            let ghost k = rebuilt@.len() as int;
            let mut b = self.buttons.remove(0);
            proof {
                assert(b == bs[k]);
                assert(self.buttons@ =~= bs.skip(k + 1));
            }
            let s = b.button.desired_size();
            let h1 = s.y.saturating_add(1);
            if h1 > bh {
                bh = h1;
            }
            b.size = s;
            rebuilt.push(b);
        }
        self.buttons = rebuilt;
        let row = if bh > inner.y {
            inner.y
        } else {
            bh
        };
        self.content.layout(XY { x: inner.x, y: inner.y - row });
    }

    #[verifier::rlimit(60)]
    fn draw(&self, printer: &Printer, canvas: &mut Canvas)
        ensures
            // Defensive geometry: a region too narrow for the horizontal
            // insets, or too short for the bottom insets and the blank
            // row above the buttons, is not drawn into at all this frame.
            (printer.size.x as int) < self.padding.spec_sat_add(self.borders).spec_horizontal()
                ==> *final(canvas) == *old(canvas),
            (printer.size.y as int) < sadd(
                sadd(self.padding.bottom as int, self.borders.bottom as int),
                1,
            ) ==> *final(canvas) == *old(canvas),
            // The border box: when a frame is drawn, every outline cell
            // of the region holds its glyph — the top row only when no
            // title is rendered over it.
            forall|px: int, py: int|
                (self.spec_draw_fits(printer.size) && printer.size.x >= 2 && printer.size.y >= 2
                    && #[trigger] crate::printer::on_box_outline(
                    (XY { x: 0, y: 0 }),
                    printer.size,
                    px,
                    py,
                ) && (py >= 1 || !self.spec_title_fits(printer.size))) ==> printer.shows(
                    *final(canvas),
                    px,
                    py,
                    crate::printer::box_glyph((XY { x: 0, y: 0 }), printer.size, px, py),
                ),
            // The title, centered on the top border between its corner
            // brackets, in the title style; a title that does not fit is
            // omitted (the clause above then gives the plain border).
            self.spec_draw_fits(printer.size) && self.spec_title_fits(printer.size) ==> ({
                let cx = (printer.size.x - self.title_width) / 2;
                &&& printer.shows(*final(canvas), cx - 2, 0, '\u{2524}')
                &&& printer.shows(*final(canvas), cx - 1, 0, ' ')
                &&& forall|k: int|
                    0 <= k < self.title@.len() ==> (Printer {
                        style: ColorStyle::TitlePrimary,
                        ..*printer
                    }).shows(*final(canvas), cx + k, 0, self.title@[k])
                &&& self.title@.len() <= self.title_width ==> (printer.shows(
                    *final(canvas),
                    cx + self.title_width,
                    0,
                    ' ',
                ) && printer.shows(*final(canvas), cx + self.title_width + 1, 0, '\u{251c}'))
            }),
    {
        let n = self.buttons.len();
        let mut width: usize = 0;
        let mut i: usize = 0;
        while i < n
            invariant
                n == self.buttons@.len(),
                0 <= i <= n,
            decreases n - i,
        {
            width = width.saturating_add(self.buttons[i].size.x);
            i = i + 1;
        }
        width = width.saturating_add(if n > 0 {
            n - 1
        } else {
            0
        });
        let overhead = self.padding.sat_add(self.borders);
        if printer.size.x < overhead.horizontal() {
            return ;
        }
        let hoffset = self.align.h.get_offset(width, printer.size.x - overhead.horizontal());
        let mut offset = overhead.left.saturating_add(hoffset);
        let overhead_bottom = self.padding.bottom.saturating_add(self.borders.bottom).saturating_add(
            1,
        );
        let y = match printer.size.y.checked_sub(overhead_bottom) {
            Some(y) => y,
            None => {
                return ;
            },
        };
        let mut buttons_height: usize = 0;
        let mut i: usize = 0;
        while i < n
            invariant
                self.wf(),
                canvas.wf(),
                n == self.buttons@.len(),
                0 <= i <= n,
                printer.only_paints_inside(*old(canvas), *canvas),
                stored_row_height_from(self.buttons@, 0, 0) == stored_row_height_from(
                    self.buttons@,
                    i as int,
                    buttons_height as int,
                ),
            decreases n - i,
        {
            let size = self.buttons[i].size;
            let has_focus = match self.focus {
                Focus::Button(j) => j == i,
                Focus::Content => false,
            };
            let sub = printer.sub_printer(XY { x: offset, y }, size, has_focus);
            self.buttons[i].button.draw(&sub, canvas);
            offset = offset.saturating_add(size.x).saturating_add(1);
            let h1 = size.y.saturating_add(1);
            if h1 > buttons_height {
                buttons_height = h1;
            }
            i = i + 1;
        }
        let taken = XY { x: 0, y: buttons_height }.sat_add(self.borders.combined()).sat_add(
            self.padding.combined(),
        );
        let inner_size = match printer.size.checked_sub(taken) {
            Some(s) => s,
            None => {
                return ;
            },
        };
        let content_focused = match self.focus {
            Focus::Content => true,
            Focus::Button(_) => false,
        };
        let csub = printer.sub_printer(
            self.borders.top_left().sat_add(self.padding.top_left()),
            inner_size,
            content_focused,
        );
        self.content.draw(&csub, canvas);
        printer.print_box(canvas, XY { x: 0, y: 0 }, printer.size);
        if !self.title.as_str().is_empty() {
            let len = self.title_width;
            let needed = match len.checked_add(4) {
                Some(l) => l,
                None => {
                    return ;
                },
            };
            if needed > printer.size.x {
                return ;
            }
            let x = (printer.size.x - len) / 2;
            printer.put(canvas, XY { x: x - 2, y: 0 }, '┤');
            printer.put(canvas, XY { x: x - 1, y: 0 }, ' ');
            printer.put(canvas, XY { x: x.saturating_add(len), y: 0 }, ' ');
            printer.put(canvas, XY { x: x.saturating_add(len).saturating_add(1), y: 0 }, '├');
            let tp = printer.with_style(ColorStyle::TitlePrimary);
            tp.print(canvas, XY { x, y: 0 }, self.title.as_str());
        }
    }

    fn on_event(&mut self, e: Event) -> (r: EventResult) {
        match self.focus {
            Focus::Content => {
                let res = self.content.on_event(e);
                match res {
                    EventResult::Ignored => {
                        if self.buttons.len() > 0 {
                            match e {
                                Event::Key(Key::Down) | Event::Key(Key::Tab) | Event::Shift(
                                    Key::Tab,
                                ) => {
                                    self.focus = Focus::Button(0);
                                    EventResult::Consumed(None)
                                },
                                _ => EventResult::Ignored,
                            }
                        } else {
                            EventResult::Ignored
                        }
                    },
                    r => r,
                }
            },
            Focus::Button(i) => {
                let nb = self.buttons.len();
                proof {
                    assert(i < nb);
                }
                let res = self.buttons[i].button.respond(e);
                match res {
                    EventResult::Ignored => {
                        match e {
                            Event::Key(Key::Up) => {
                                if self.content.take_focus(Direction::Down) {
                                    self.focus = Focus::Content;
                                    EventResult::Consumed(None)
                                } else {
                                    EventResult::Ignored
                                }
                            },
                            Event::Shift(Key::Tab) => {
                                if self.content.take_focus(Direction::Back) {
                                    self.focus = Focus::Content;
                                    EventResult::Consumed(None)
                                } else {
                                    EventResult::Ignored
                                }
                            },
                            Event::Key(Key::Tab) => {
                                if self.content.take_focus(Direction::Front) {
                                    self.focus = Focus::Content;
                                    EventResult::Consumed(None)
                                } else {
                                    EventResult::Ignored
                                }
                            },
                            Event::Key(Key::Right) => {
                                if i + 1 < nb {
                                    self.focus = Focus::Button(i + 1);
                                    EventResult::Consumed(None)
                                } else {
                                    EventResult::Ignored
                                }
                            },
                            Event::Key(Key::Left) => {
                                if i > 0 {
                                    self.focus = Focus::Button(i - 1);
                                    EventResult::Consumed(None)
                                } else {
                                    EventResult::Ignored
                                }
                            },
                            _ => EventResult::Ignored,
                        }
                    },
                    r => r,
                }
            },
        }
    }

    fn take_focus(&mut self, source: Direction) -> (r: bool) {
        if self.content.take_focus(source) {
            self.focus = Focus::Content;
            true
        } else if self.buttons.len() > 0 {
            self.focus = Focus::Button(0);
            true
        } else {
            false
        }
    }

    /// The lookup goes to the content, as the dialog's buttons carry no
    /// identifier; the dialog's own focus is left as it is.
    open spec fn sel_claim(&self, sel: Selector) -> Option<Self> {
        match self.content.sel_claim(sel) {
            Some(c2) => Some(Dialog { content: c2, ..*self }),
            None => None,
        }
    }

    fn focus_view(&mut self, sel: &Selector) -> (r: Result<(), ()>) {
        self.content.focus_view(sel)
    }
}

} // verus!
