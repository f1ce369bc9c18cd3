use vstd::prelude::*;
use crate::event::{Direction, Event, EventResult};
use crate::geom::XY;
use crate::printer::{Canvas, Printer};

verus! {

/// Picks widgets out of a tree, by the identifier a wrapping widget
/// gave them. None of this crate's widgets carries an identifier, so
/// here every lookup misses; composites still forward it to their
/// descendants.
pub enum Selector {
    Id(String),
}

/// The contract every on-screen element implements: two-pass geometry
/// (measure, then layout), bounded drawing, deterministic event
/// handling, and focus negotiation.
///
/// Each implementation gives the specification functions that model its
/// behaviour; the method contracts below then hold of every widget, so
/// a composite can reason about children it only knows by this trait.
pub trait Widget: Sized {
    /// The widget's internal invariant.
    spec fn wf(&self) -> bool;

    /// The size the widget asks for, against an upper bound.
    spec fn spec_required_size(&self, req: XY) -> XY;

    /// The state after one event, and the answer given: handling is
    /// deterministic in the current state and the event.
    spec fn step(&self, e: Event) -> (Self, EventResult);

    /// `Some(state)` when the widget claims focus entered from the
    /// given direction, `None` when it refuses.
    spec fn claim(&self, source: Direction) -> Option<Self>;

    /// How the state after a layout pass relates to the state before.
    spec fn after_layout(&self, size: XY, after: Self) -> bool;

    /// Reports the desired size for the given upper bound. May be asked
    /// any number of times: it never changes the widget.
    fn required_size(&mut self, req: XY) -> (r: XY)
        requires
            old(self).wf(),
        ensures
            *final(self) == *old(self),
            r == old(self).spec_required_size(req),
    ;

    /// Assigns the definitive size; the widget caches whatever geometry
    /// its `draw` will need.
    fn layout(&mut self, size: XY)
        requires
            old(self).wf(),
        ensures
            final(self).wf(),
            old(self).after_layout(size, *final(self)),
    ;

    /// Paints the widget through the given region handle. Whatever the
    /// widget and its state: cells outside the granted region keep
    /// their value, and the canvas keeps its shape.
    fn draw(&self, printer: &Printer, canvas: &mut Canvas)
        requires
            self.wf(),
            old(canvas).wf(),
        ensures
            printer.only_paints_inside(*old(canvas), *final(canvas)),
    ;

    /// Hands the widget one event; the outcome is exactly `step`.
    fn on_event(&mut self, e: Event) -> (r: EventResult)
        requires
            old(self).wf(),
        ensures
            final(self).wf(),
            (*final(self), r) == old(self).step(e),
    ;

    /// Asks the widget to take focus, entered from `source`; the
    /// outcome is exactly `claim`.
    fn take_focus(&mut self, source: Direction) -> (r: bool)
        requires
            old(self).wf(),
        ensures
            final(self).wf(),
            r == (old(self).claim(source) is Some),
            r ==> old(self).claim(source) == Some(*final(self)),
            !r ==> *final(self) == *old(self),
    ;

    /// `Some(state)` when a descendant matching the selector exists and
    /// took focus; `None` when the lookup misses.
    spec fn sel_claim(&self, sel: Selector) -> Option<Self>;

    /// Moves focus to the descendant the selector names; the outcome is
    /// exactly `sel_claim`.
    fn focus_view(&mut self, sel: &Selector) -> (r: Result<(), ()>)
        requires
            old(self).wf(),
        ensures
            final(self).wf(),
            (r is Ok) == (old(self).sel_claim(*sel) is Some),
            r is Ok ==> old(self).sel_claim(*sel) == Some(*final(self)),
            r is Err ==> *final(self) == *old(self),
    ;
}

} // verus!
