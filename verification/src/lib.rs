//! Interactive core of a terminal widget toolkit: geometry negotiation,
//! a keyboard-focus machine for a composite dialog widget, a color-pair
//! cache with deterministic eviction, and a total raw-code decoder that
//! turns terminal input codes into a closed event vocabulary.

pub mod align;
pub mod backend;
pub mod decoder;
pub mod dialog;
pub mod event;
pub mod geom;
pub mod palette;
pub mod printer;
pub mod theme;
pub mod utf8;
pub mod views;
pub mod widget;
pub mod width;

pub use dialog::{Dialog, Focus};
pub use event::{Action, Direction, Event, EventResult, Key};
pub use geom::{Margins, XY};
pub use palette::{Define, Palette};
pub use printer::{Canvas, Cell, Printer};
pub use theme::{BaseColor, Color, ColorPair, ColorStyle, Effect};
pub use views::{Button, DummyView, SpacerView, TextView};
pub use widget::{Selector, Widget};
