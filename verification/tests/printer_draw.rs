use tui_core::align::{Align, HAlign, VAlign};
use tui_core::dialog::Dialog;
use tui_core::event::Action;
use tui_core::geom::{Margins, XY};
use tui_core::printer::{Canvas, Cell, Printer};
use tui_core::theme::ColorStyle;
use tui_core::views::{SpacerView, TextView};
use tui_core::widget::Widget;

fn blank() -> Cell {
    Cell { ch: ' ', style: ColorStyle::Primary }
}

#[test]
fn canvas_starts_blank_and_prints_clip() {
    let mut canvas = Canvas::new(6, 3, blank());
    assert_eq!(canvas.get(5, 2), blank());
    let p = Printer::root(XY::new(6, 3), ColorStyle::Primary);
    p.print(&mut canvas, XY::new(4, 1), "abcd");
    assert_eq!(canvas.get(4, 1).ch, 'a');
    assert_eq!(canvas.get(5, 1).ch, 'b');
    // 'c' and 'd' fell outside the region and were clipped.
    assert_eq!(canvas.get(0, 1), blank());
    assert_eq!(canvas.get(0, 2), blank());
}

#[test]
fn sub_printer_cannot_leave_its_parent() {
    let mut canvas = Canvas::new(8, 4, blank());
    let root = Printer::root(XY::new(8, 4), ColorStyle::Primary);
    let sub = root.sub_printer(XY::new(6, 1), XY::new(10, 10), false);
    // The child was clipped to the room that remains.
    assert_eq!(sub.size, XY::new(2, 3));
    sub.print(&mut canvas, XY::new(0, 0), "xyz");
    assert_eq!(canvas.get(6, 1).ch, 'x');
    assert_eq!(canvas.get(7, 1).ch, 'y');
    for y in 0..4usize {
        for x in 0..6usize {
            assert_eq!(canvas.get(x, y), blank());
        }
    }
}

#[test]
fn print_box_draws_the_outline() {
    let mut canvas = Canvas::new(5, 4, blank());
    let p = Printer::root(XY::new(5, 4), ColorStyle::Primary);
    p.print_box(&mut canvas, XY::new(0, 0), XY::new(5, 4));
    assert_eq!(canvas.get(0, 0).ch, '┌');
    assert_eq!(canvas.get(4, 0).ch, '┐');
    assert_eq!(canvas.get(0, 3).ch, '└');
    assert_eq!(canvas.get(4, 3).ch, '┘');
    assert_eq!(canvas.get(2, 0).ch, '─');
    assert_eq!(canvas.get(2, 3).ch, '─');
    assert_eq!(canvas.get(0, 1).ch, '│');
    assert_eq!(canvas.get(4, 2).ch, '│');
    assert_eq!(canvas.get(2, 2), blank());
}

#[test]
fn dialog_draw_shows_border_title_and_content() {
    let mut canvas = Canvas::new(10, 5, blank());
    let root = Printer::root(XY::new(10, 5), ColorStyle::Primary);
    let d = Dialog::text("Hi").title("T");
    d.draw(&root, &mut canvas);
    // Borders.
    assert_eq!(canvas.get(0, 0).ch, '┌');
    assert_eq!(canvas.get(9, 0).ch, '┐');
    assert_eq!(canvas.get(0, 4).ch, '└');
    assert_eq!(canvas.get(9, 4).ch, '┘');
    // The title sits centered on the top border between its brackets,
    // in the title style.
    assert_eq!(canvas.get(2, 0).ch, '┤');
    assert_eq!(canvas.get(3, 0).ch, ' ');
    assert_eq!(canvas.get(4, 0), Cell { ch: 'T', style: ColorStyle::TitlePrimary });
    assert_eq!(canvas.get(5, 0).ch, ' ');
    assert_eq!(canvas.get(6, 0).ch, '├');
    // The content starts inside border and padding.
    assert_eq!(canvas.get(2, 1).ch, 'H');
    assert_eq!(canvas.get(3, 1).ch, 'i');
}

#[test]
fn dialog_draw_skips_a_title_that_does_not_fit() {
    let mut canvas = Canvas::new(8, 4, blank());
    let root = Printer::root(XY::new(8, 4), ColorStyle::Primary);
    let d = Dialog::text("x").title("much too long");
    d.draw(&root, &mut canvas);
    // The border is there, the title is not.
    assert_eq!(canvas.get(0, 0).ch, '┌');
    for x in 1..7usize {
        assert_eq!(canvas.get(x, 0).ch, '─');
    }
}

#[test]
fn drawing_stays_inside_the_granted_region() {
    // A dialog drawn through a small region of a larger screen leaves
    // everything outside that region untouched.
    let mut canvas = Canvas::new(20, 10, blank());
    let root = Printer::root(XY::new(20, 10), ColorStyle::Primary);
    let region = root.sub_printer(XY::new(3, 2), XY::new(9, 5), true);
    let mut d = Dialog::text("Hello").button("Ok", Action::Dismiss).title("T");
    let want = d.required_size(XY::new(9, 5));
    d.layout(want);
    d.draw(&region, &mut canvas);
    let mut touched: u32 = 0;
    for y in 0..10usize {
        for x in 0..20usize {
            let inside = 3 <= x && x < 12 && 2 <= y && y < 7;
            if !inside {
                assert_eq!(canvas.get(x, y), blank());
            } else if canvas.get(x, y) != blank() {
                touched += 1;
            }
        }
    }
    assert!(touched > 0);
}

#[test]
fn too_short_region_is_left_untouched() {
    // One row cannot hold the bottom border plus the blank separator
    // row, so the whole frame is skipped.
    let mut canvas = Canvas::new(10, 3, blank());
    let short = Printer::root(XY::new(10, 1), ColorStyle::Primary);
    let d = Dialog::text("Hi");
    d.draw(&short, &mut canvas);
    for y in 0..3usize {
        for x in 0..10usize {
            assert_eq!(canvas.get(x, y), blank());
        }
    }
}

#[test]
fn alignment_offsets() {
    assert_eq!(HAlign::Left.get_offset(4, 10), 0);
    assert_eq!(HAlign::Center.get_offset(4, 10), 3);
    assert_eq!(HAlign::Right.get_offset(4, 10), 6);
    // A block too wide to place starts at the left edge.
    assert_eq!(HAlign::Right.get_offset(12, 10), 0);
    assert_eq!(Align::top_right(), Align::new(HAlign::Right, VAlign::Top));
}

#[test]
fn geometry_saturates_instead_of_failing() {
    let a = XY::new(usize::MAX - 1, 3);
    assert_eq!(a.sat_add(XY::new(5, 1)), XY::new(usize::MAX, 4));
    assert_eq!(XY::new(2, 3).sat_sub(XY::new(5, 1)), XY::new(0, 2));
    assert_eq!(XY::new(2, 3).checked_sub(XY::new(1, 4)), None);
    assert_eq!(XY::new(2, 3).checked_sub(XY::new(1, 1)), Some(XY::new(1, 2)));
    let m = Margins::new(1, 2, 3, 4);
    assert_eq!(m.horizontal(), 3);
    assert_eq!(m.vertical(), 7);
    assert_eq!(m.combined(), XY::new(3, 7));
    assert_eq!(m.top_left(), XY::new(1, 3));
}

#[test]
fn widths_come_from_the_unicode_tables() {
    // The display width is not the byte count: a two-byte character is
    // one column wide, and a wide CJK character two.
    let mut narrow = TextView::new("\u{e9}\u{e9}");
    assert_eq!(narrow.required_size(XY::new(50, 50)), XY::new(2, 1));
    let mut wide = TextView::new("\u{4e16}\u{754c}");
    assert_eq!(wide.required_size(XY::new(50, 50)), XY::new(4, 1));
    let mut spacer_like = TextView::new("abc");
    assert_eq!(spacer_like.required_size(XY::new(50, 50)), XY::new(3, 1));
    // A dialog around a fixed-size spacer is unaffected by widths.
    let _ = SpacerView::new(XY::new(1, 1));
}
