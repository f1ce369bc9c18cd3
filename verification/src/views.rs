use vstd::prelude::*;
use crate::event::{Action, Direction, Event, EventResult, Key};
use crate::geom::{sadd, XY};
use crate::printer::{Canvas, Printer};
use crate::widget::{Selector, Widget};
use crate::width::{display_width, text_width};

verus! {

/// A widget that shows nothing, asks for one cell, and ignores every
/// event: the neutral placeholder a dialog is built around.
#[derive(Clone, Copy, PartialEq, Eq, Structural, Debug)]
pub struct DummyView;

impl Widget for DummyView {
    open spec fn wf(&self) -> bool {
        true
    }

    open spec fn spec_required_size(&self, req: XY) -> XY {
        XY { x: 1, y: 1 }
    }

    open spec fn step(&self, e: Event) -> (Self, EventResult) {
        (*self, EventResult::Ignored)
    }

    open spec fn claim(&self, source: Direction) -> Option<Self> {
        None
    }

    open spec fn after_layout(&self, size: XY, after: Self) -> bool {
        after == *self
    }

    fn required_size(&mut self, req: XY) -> (r: XY) {
        XY { x: 1, y: 1 }
    }

    fn layout(&mut self, size: XY) {
    }

    fn draw(&self, printer: &Printer, canvas: &mut Canvas) {
    }

    fn on_event(&mut self, e: Event) -> (r: EventResult) {
        EventResult::Ignored
    }

    fn take_focus(&mut self, source: Direction) -> (r: bool) {
        false
    }

    open spec fn sel_claim(&self, sel: Selector) -> Option<Self> {
        None
    }

    fn focus_view(&mut self, sel: &Selector) -> (r: Result<(), ()>) {
        Err(())
    }
}

/// A blank widget of a fixed desired size: it reserves room, shows
/// nothing, and takes part in neither input nor focus.
#[derive(Clone, Copy, PartialEq, Eq, Structural, Debug)]
pub struct SpacerView {
    pub size: XY,
}

impl SpacerView {
    pub fn new(size: XY) -> (r: SpacerView)
        ensures
            r == (SpacerView { size }),
    {
        SpacerView { size }
    }
}

impl Widget for SpacerView {
    open spec fn wf(&self) -> bool {
        true
    }

    open spec fn spec_required_size(&self, req: XY) -> XY {
        self.size
    }

    open spec fn step(&self, e: Event) -> (Self, EventResult) {
        (*self, EventResult::Ignored)
    }

    open spec fn claim(&self, source: Direction) -> Option<Self> {
        None
    }

    open spec fn after_layout(&self, size: XY, after: Self) -> bool {
        after == *self
    }

    fn required_size(&mut self, req: XY) -> (r: XY) {
        self.size
    }

    fn layout(&mut self, size: XY) {
    }

    fn draw(&self, printer: &Printer, canvas: &mut Canvas) {
    }

    fn on_event(&mut self, e: Event) -> (r: EventResult) {
        EventResult::Ignored
    }

    fn take_focus(&mut self, source: Direction) -> (r: bool) {
        false
    }

    open spec fn sel_claim(&self, sel: Selector) -> Option<Self> {
        None
    }

    fn focus_view(&mut self, sel: &Selector) -> (r: Result<(), ()>) {
        Err(())
    }
}

/// A single line of text. It asks for its display width, draws itself
/// at the region's origin, and takes part in neither input nor focus.
pub struct TextView {
    pub content: String,
    /// Display width of `content`, computed once at construction.
    pub width: usize,
}

impl TextView {
    pub fn new(text: &str) -> (r: TextView)
        ensures
            r.wf(),
            r.content@ == text@,
    {
        let width = display_width(text);
        TextView { content: text.to_owned(), width }
    }
}

impl Widget for TextView {
    open spec fn wf(&self) -> bool {
        self.width as nat == text_width(self.content@)
    }

    open spec fn spec_required_size(&self, req: XY) -> XY {
        XY { x: self.width, y: 1 }
    }

    open spec fn step(&self, e: Event) -> (Self, EventResult) {
        (*self, EventResult::Ignored)
    }

    open spec fn claim(&self, source: Direction) -> Option<Self> {
        None
    }

    open spec fn after_layout(&self, size: XY, after: Self) -> bool {
        after == *self
    }

    fn required_size(&mut self, req: XY) -> (r: XY) {
        XY { x: self.width, y: 1 }
    }

    fn layout(&mut self, size: XY) {
    }

    fn draw(&self, printer: &Printer, canvas: &mut Canvas)
        ensures
            forall|k: int|
                0 <= k < self.content@.len() ==> printer.shows(
                    *final(canvas),
                    k,
                    0,
                    self.content@[k],
                ),
    {
        printer.print(canvas, XY { x: 0, y: 0 }, self.content.as_str());
    }

    fn on_event(&mut self, e: Event) -> (r: EventResult) {
        EventResult::Ignored
    }

    fn take_focus(&mut self, source: Direction) -> (r: bool) {
        false
    }

    open spec fn sel_claim(&self, sel: Selector) -> Option<Self> {
        None
    }

    fn focus_view(&mut self, sel: &Selector) -> (r: Result<(), ()>) {
        Err(())
    }
}

/// A labelled push button: `< label >`. Pressing it (Enter or space)
/// consumes the event and hands back the button's deferred action.
pub struct Button {
    pub label: String,
    /// Display width of `label`, computed once at construction.
    pub label_width: usize,
    pub action: Action,
}

impl Button {
    pub fn new(label: &str, action: Action) -> (r: Button)
        ensures
            r.wf(),
            r.label@ == label@,
            r.action == action,
    {
        let label_width = display_width(label);
        Button { label: label.to_owned(), label_width, action }
    }

    /// The size the button asks for: its decoration takes two columns
    /// on each side of the label.
    pub open spec fn desired(&self) -> XY {
        XY { x: sadd(self.label_width as int, 4) as usize, y: 1 }
    }

    /// `desired`, computed.
    pub fn desired_size(&self) -> (r: XY)
        ensures
            r == self.desired(),
    {
        XY { x: self.label_width.saturating_add(4), y: 1 }
    }

    /// The button's answer to an event, without going through the
    /// trait: pressing never changes the button itself.
    pub fn respond(&self, e: Event) -> (r: EventResult)
        ensures
            (*self, r) == self.step(e),
    {
        match e {
            Event::Key(Key::Enter) => EventResult::Consumed(Some(self.action)),
            Event::Char(c) => if c == ' ' {
                EventResult::Consumed(Some(self.action))
            } else {
                EventResult::Ignored
            },
            _ => EventResult::Ignored,
        }
    }
}

impl Widget for Button {
    open spec fn wf(&self) -> bool {
        self.label_width as nat == text_width(self.label@)
    }

    open spec fn spec_required_size(&self, req: XY) -> XY {
        self.desired()
    }

    open spec fn step(&self, e: Event) -> (Self, EventResult) {
        let r = match e {
            Event::Key(Key::Enter) => EventResult::Consumed(Some(self.action)),
            Event::Char(c) => if c == ' ' {
                EventResult::Consumed(Some(self.action))
            } else {
                EventResult::Ignored
            },
            _ => EventResult::Ignored,
        };
        (*self, r)
    }

    open spec fn claim(&self, source: Direction) -> Option<Self> {
        Some(*self)
    }

    open spec fn after_layout(&self, size: XY, after: Self) -> bool {
        after == *self
    }

    fn required_size(&mut self, req: XY) -> (r: XY) {
        self.desired_size()
    }

    fn layout(&mut self, size: XY) {
    }

    fn draw(&self, printer: &Printer, canvas: &mut Canvas)
        ensures
            printer.shows(*final(canvas), 0, 0, '<'),
            forall|k: int|
                0 <= k < self.label@.len() && k <= self.label_width ==> printer.shows(
                    *final(canvas),
                    2 + k,
                    0,
                    self.label@[k],
                ),
            printer.shows(*final(canvas), self.label_width + 3, 0, '>'),
    {
        printer.put(canvas, XY { x: 0, y: 0 }, '<');
        printer.print(canvas, XY { x: 2, y: 0 }, self.label.as_str());
        printer.put(canvas, XY { x: self.label_width.saturating_add(3), y: 0 }, '>');
    }

    fn on_event(&mut self, e: Event) -> (r: EventResult) {
        self.respond(e)
    }

    fn take_focus(&mut self, source: Direction) -> (r: bool) {
        true
    }

    open spec fn sel_claim(&self, sel: Selector) -> Option<Self> {
        None
    }

    fn focus_view(&mut self, sel: &Selector) -> (r: Result<(), ()>) {
        Err(())
    }
}

} // verus!
