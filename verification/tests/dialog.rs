use tui_core::align::{HAlign, VAlign};
use tui_core::dialog::{Dialog, Focus};
use tui_core::event::{Action, Direction, Event, EventResult, Key};
use tui_core::geom::{Margins, XY};
use tui_core::views::{DummyView, SpacerView};
use tui_core::widget::{Selector, Widget};

#[test]
fn dialog_sizing_adds_padding_and_borders() {
    // Content asks for 10 x 5; padding contributes one column on each
    // side and one row on top; borders one cell all around.
    let mut d = Dialog::around(SpacerView::new(XY::new(10, 5)))
        .padding(Margins::new(1, 1, 1, 0));
    let size = d.required_size(XY::new(100, 100));
    assert_eq!(size, XY::new(14, 8));
}

#[test]
fn dialog_sizing_with_default_padding() {
    let mut d = Dialog::around(SpacerView::new(XY::new(10, 5)));
    // Default padding: left 1, right 1, no top, no bottom.
    let size = d.required_size(XY::new(100, 100));
    assert_eq!(size, XY::new(14, 7));
}

#[test]
fn dialog_sizing_counts_buttons_and_title() {
    let mut d = Dialog::around(SpacerView::new(XY::new(4, 2)))
        .padding(Margins::new(0, 0, 0, 0))
        .button("Ok", Action::Dismiss);
    // Button row: "< Ok >" is 6 wide, 1 high plus the separator row.
    // Width: max(4, 6) + borders 2 = 8; height: 2 + 2 + borders 2 = 6.
    let size = d.required_size(XY::new(100, 100));
    assert_eq!(size, XY::new(8, 6));
    // A title forces room for itself plus decorations: width + 6.
    let mut titled = Dialog::around(SpacerView::new(XY::new(4, 2)))
        .padding(Margins::new(0, 0, 0, 0))
        .title("A title");
    let size = titled.required_size(XY::new(100, 100));
    assert_eq!(size, XY::new(13, 4));
}

#[test]
fn dialog_reports_overhead_when_the_bound_is_too_small() {
    let mut d = Dialog::around(SpacerView::new(XY::new(10, 5)));
    // Bound smaller than borders + padding + button row: the unreduced
    // overhead is reported instead of negative geometry.
    let size = d.required_size(XY::new(3, 1));
    assert_eq!(size, XY::new(4, 2));
}

#[test]
fn focus_moves_from_content_to_first_button_on_down() {
    let mut d = Dialog::around(DummyView).button("Ok", Action::Command(1));
    assert_eq!(d.focus, Focus::Content);
    let r = d.on_event(Event::Key(Key::Down));
    assert_eq!(r, EventResult::Consumed(None));
    assert_eq!(d.focus, Focus::Button(0));
    // Left at the leftmost button changes nothing and stays ignored.
    let r = d.on_event(Event::Key(Key::Left));
    assert_eq!(r, EventResult::Ignored);
    assert_eq!(d.focus, Focus::Button(0));
}

#[test]
fn focus_moves_along_the_button_row() {
    let mut d = Dialog::around(DummyView)
        .button("Yes", Action::Command(1))
        .button("No", Action::Command(2));
    assert_eq!(d.on_event(Event::Key(Key::Tab)), EventResult::Consumed(None));
    assert_eq!(d.focus, Focus::Button(0));
    assert_eq!(d.on_event(Event::Key(Key::Right)), EventResult::Consumed(None));
    assert_eq!(d.focus, Focus::Button(1));
    // No further button to the right.
    assert_eq!(d.on_event(Event::Key(Key::Right)), EventResult::Ignored);
    assert_eq!(d.focus, Focus::Button(1));
    assert_eq!(d.on_event(Event::Key(Key::Left)), EventResult::Consumed(None));
    assert_eq!(d.focus, Focus::Button(0));
    // The content refuses focus, so Up stays ignored.
    assert_eq!(d.on_event(Event::Key(Key::Up)), EventResult::Ignored);
    assert_eq!(d.focus, Focus::Button(0));
}

#[test]
fn pressing_a_button_hands_back_its_action() {
    let mut d = Dialog::around(DummyView).button("Ok", Action::Command(7));
    d.on_event(Event::Key(Key::Down));
    let r = d.on_event(Event::Key(Key::Enter));
    assert_eq!(r, EventResult::Consumed(Some(Action::Command(7))));
    let r = d.on_event(Event::Char(' '));
    assert_eq!(r, EventResult::Consumed(Some(Action::Command(7))));
}

#[test]
fn events_ignored_without_buttons() {
    let mut d = Dialog::around(DummyView);
    assert_eq!(d.on_event(Event::Key(Key::Down)), EventResult::Ignored);
    assert_eq!(d.focus, Focus::Content);
    assert_eq!(d.on_event(Event::Char('x')), EventResult::Ignored);
}

#[test]
fn take_focus_prefers_content_then_buttons() {
    // The placeholder content refuses focus; the first button takes it.
    let mut d = Dialog::around(DummyView).button("Ok", Action::Dismiss);
    assert!(d.take_focus(Direction::Front));
    assert_eq!(d.focus, Focus::Button(0));
    // Without buttons the dialog refuses focus altogether.
    let mut empty = Dialog::around(DummyView);
    assert!(!empty.take_focus(Direction::Front));
    assert_eq!(empty.focus, Focus::Content);
}

#[test]
fn layout_gives_buttons_their_desired_size() {
    let mut d = Dialog::around(SpacerView::new(XY::new(10, 5)))
        .button("Ok", Action::Dismiss)
        .button("Cancel", Action::Command(0));
    d.layout(XY::new(30, 10));
    assert_eq!(d.buttons[0].size, XY::new(6, 1));
    assert_eq!(d.buttons[1].size, XY::new(10, 1));
}

#[test]
fn builders_keep_their_fields() {
    let d = Dialog::text("Hello").title("Hi").padding_top(2).padding_bottom(1);
    assert_eq!(d.title, "Hi");
    assert_eq!(d.padding.top, 2);
    assert_eq!(d.padding.bottom, 1);
    assert_eq!(d.padding.left, 1);
    assert_eq!(d.padding.right, 1);
    let e = d.padding_left(3).padding_right(4);
    assert_eq!(e.padding.left, 3);
    assert_eq!(e.padding.right, 4);
    let info = Dialog::info("Done");
    assert_eq!(info.buttons.len(), 1);
    assert_eq!(info.buttons[0].button.action, Action::Dismiss);
    assert_eq!(info.buttons[0].button.label, "Ok");
}

#[test]
fn alignment_builders_set_the_row_placement() {
    let d = Dialog::around(DummyView);
    assert_eq!(d.align.h, HAlign::Right);
    assert_eq!(d.align.v, VAlign::Top);
    let d = d.h_align(HAlign::Center).v_align(VAlign::Bottom);
    assert_eq!(d.align.h, HAlign::Center);
    assert_eq!(d.align.v, VAlign::Bottom);
    let fresh: Dialog<DummyView> = Default::default();
    assert_eq!(fresh.focus, Focus::Content);
    assert_eq!(fresh.buttons.len(), 0);
}

#[test]
fn selector_lookups_miss_and_leave_the_dialog_alone() {
    // No widget of this crate carries an identifier, so every lookup
    // misses; the dialog forwards it to its content and stays as it is.
    let mut d = Dialog::around(DummyView).button("Ok", Action::Dismiss);
    d.on_event(Event::Key(Key::Down));
    let sel = Selector::Id(String::from("content"));
    assert_eq!(d.focus_view(&sel), Err(()));
    assert_eq!(d.focus, Focus::Button(0));
}

#[test]
fn set_content_and_set_title_replace_in_place() {
    let mut d = Dialog::around(SpacerView::new(XY::new(2, 2)));
    d.set_content(SpacerView::new(XY::new(7, 3)));
    d.set_title("After");
    assert_eq!(d.content.size, XY::new(7, 3));
    assert_eq!(d.title, "After");
    let renamed = d.content(SpacerView::new(XY::new(1, 1)));
    assert_eq!(renamed.title, "After");
    assert_eq!(renamed.content.size, XY::new(1, 1));
}
