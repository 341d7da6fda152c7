use thatsit::border::{AddBorder, Flat, Inset, Outset, Tall, Wide};
use thatsit::collect::{Collected, Collection};
use thatsit::focus::Focus;
use thatsit::layouts::{Columns, FocusStack, Layers, Rows, Stacked, Surface};
use thatsit::output::{Error, Outcome, Output};
use thatsit::scroll::ScrollState;
use thatsit::space::{Align, Area, Axis, Point, Rect};
use thatsit::tabs::{TabSide, Tabbed};
use thatsit::tui::TUI;
use thatsit::wrappers::{Aligned, Fixed, Max, Min, Offset};

type Size = (u16, u16);

fn terminal(area: Area) -> TUI {
    let (mut engine, _sender) = TUI::harness();
    engine.set_area(area);
    engine
}

struct StackedWidget1;

impl Output<(), ()> for StackedWidget1 {
    fn render(&self, engine: &mut ()) -> Outcome<Option<()>> {
        Stacked::x(|add| {
            add.add("String");
            add.add(String::from("String"));
            add.add(Collected::Box(Box::new(Stacked::y(|add| {
                add.add("String");
                add.add(String::from("String"));
                add.add(Collected::Box(Box::new(Stacked::z(|add| {
                    add.add("String");
                    add.add(String::from("String"));
                }))));
            }))));
        })
        .render(engine)
    }
}

#[test]
fn _scratch_should_stack_callback() -> Result<(), Error> {
    StackedWidget1.render(&mut ())?;
    Ok(())
}

#[test]
fn stacked_should_stack_callback() -> Result<(), Error> {
    StackedWidget1.render(&mut ())?;
    Ok(())
}

struct StackedWidget2;

impl Output<(), ()> for StackedWidget2 {
    fn render(&self, engine: &mut ()) -> Outcome<Option<()>> {
        let mut layers = Layers::new();
        layers.add("String").add(String::from("String"));
        let mut rows = Rows::new();
        rows.add("String").add(String::from("String")).add(Collected::Box(Box::new(layers)));
        let mut columns = Columns::new();
        columns.add("String").add(String::from("String")).add(Collected::Box(Box::new(rows)));
        columns.render(engine)
    }
}

#[test]
fn stacked_should_stack_builder() -> Result<(), Error> {
    StackedWidget2.render(&mut ())?;
    Ok(())
}

#[test]
fn mod_should_stack_builder() -> Result<(), Error> {
    Output::<(), ()>::render(&StackedWidget2, &mut ())?;
    Ok(())
}

#[test]
fn should_stack() {
    let mut engine = terminal(Area(0, 0, 20, 5));
    let stack: Stacked<TUI, Size> = Stacked::y(|add| {
        add.add("one");
        add.add("three");
    });
    assert_eq!(stack.render(&mut engine), Ok(Some((5, 2))));
    assert_eq!(engine.output, b"\x1b[1;1Hone\x1b[2;1Hthree".to_vec());
    assert_eq!(engine.get_area(), Area(0, 0, 20, 5));
}

#[test]
fn test_row_column() {
    let mut engine = terminal(Area(10, 10, 20, 20));
    let layout: Stacked<TUI, Size> = Stacked::z(|layer| {
        layer.add(Collected::Box(Box::new(Stacked::x(|row| {
            row.add(String::from("R1"));
            row.add(String::from("R2"));
            row.add(String::from("R3"));
        }))));
        layer.add(Collected::Box(Box::new(Stacked::y(|column| {
            column.add(String::from("C1"));
            column.add(String::from("C2"));
            column.add(String::from("C3"));
        }))));
    });
    assert_eq!(layout.render(&mut engine), Ok(Some((6, 3))));
    let expected = "\x1b[11;11HC1\x1b[12;11HC2\x1b[13;11HC3\x1b[11;11HR1\x1b[11;13HR2\x1b[11;15HR3";
    assert_eq!(String::from_utf8(engine.output).unwrap(), expected);
}

#[test]
fn test_focus_stack() {
    let mut layout = FocusStack::<TUI, Size>::y(|item| {
        item.add(String::from("Item1"));
        item.add(String::from("Item1"));
        item.add(String::from("Item1"));
    });
    assert_eq!(layout.len(), 3);
    assert!(layout.select_next());
    let mut engine = terminal(Area(0, 0, 10, 10));
    assert_eq!(layout.render(&mut engine), Ok(Some((5, 1))));
}

#[test]
fn row_of_unit_widths_offsets_each_child_by_its_index() {
    let mut engine = terminal(Area(2, 0, 10, 1));
    let mut columns: Columns<TUI, Size> = Columns::new();
    columns.add("a").add("b").add("c").add("d");
    assert_eq!(columns.render(&mut engine), Ok(Some((4, 1))));
    assert_eq!(engine.output, b"\x1b[1;3Ha\x1b[1;4Hb\x1b[1;5Hc\x1b[1;6Hd".to_vec());
}

#[test]
fn stack_fails_fast_when_too_small() {
    let mut engine = terminal(Area(0, 0, 2, 1));
    let mut columns: Columns<TUI, Size> = Columns::new();
    columns.add("a").add("b").add("c");
    assert_eq!(columns.render(&mut engine), Err(Error::NoSpace(Area(0, 0, 2, 1), 3, 1)));
    assert!(engine.output.is_empty());
    let rows: Rows<TUI, Size> = Rows::new();
    let mut narrow = terminal(Area(0, 0, 0, 3));
    assert_eq!(rows.render(&mut narrow), Err(Error::NoSpace(Area(0, 0, 0, 3), 1, 0)));
    let mut flat = terminal(Area(0, 0, 5, 0));
    assert_eq!(rows.render(&mut flat), Ok(Some((0, 0))));
    let layers: Layers<TUI, Size> = Layers::new();
    assert_eq!(layers.render(&mut flat), Err(Error::NoSpace(Area(0, 0, 5, 0), 1, 1)));
}

#[test]
fn area_min_is_a_boundary_check() {
    let area = Area(1, 2, 3, 4);
    assert_eq!(area.min((3, 4)), Ok(&area));
    assert_eq!(area.min((3, 4)), area.min((3, 4)));
    assert_eq!(area.min((4, 4)), Err(Error::NoSpace(area, 4, 4)));
    assert_eq!(area.min((3, 5)), Err(Error::NoSpace(area, 3, 5)));
    assert_eq!(area.min((0, 0)), Ok(&area));
    assert_eq!((area.x(), area.y(), area.w(), area.h(), area.size()), (1, 2, 3, 4, (3, 4)));
}

#[test]
fn offset_on_empty_area_saturates() {
    assert_eq!(Offset(3, 2, "x").constrain(Area(1, 1, 0, 0)), Area(4, 3, 0, 0));
    assert_eq!(Offset(3, 2, "x").constrain(Area(0, 0, 10, 1)), Area(3, 2, 7, 0));
    assert_eq!(Area(u16::MAX - 1, 0, 5, 5).offset(4, 0), Area(u16::MAX, 0, 1, 5));
    let mut engine = terminal(Area(0, 0, 0, 0));
    assert_eq!(Offset(1, 1, "x").render(&mut engine), Ok(Some((1, 1))));
    assert_eq!(engine.output, b"\x1b[2;2Hx".to_vec());
}

#[test]
fn fixed_reports_its_own_size() {
    let mut engine = terminal(Area(0, 0, 20, 20));
    assert_eq!(Fixed::X(7, "ab").render(&mut engine), Ok(Some((7, 1))));
    assert_eq!(Fixed::Y(4, "ab").render(&mut engine), Ok(Some((2, 4))));
    assert_eq!(Fixed::XY((9, 9), "ab").render(&mut engine), Ok(Some((9, 9))));
    assert_eq!(Fixed::X(7, "ab").constrain(Area(1, 2, 3, 4)), Area(1, 2, 7, 4));
    assert_eq!(Fixed::XY((5, 6), "ab").measure((1, 1)), (5, 6));
}

#[test]
fn min_and_max_bound_the_offered_area() {
    let area = Area(0, 0, 10, 3);
    assert_eq!(Min::X(12, "").constrain(area), Area(0, 0, 12, 3));
    assert_eq!(Min::X(4, "").constrain(area), Area(0, 0, 10, 3));
    assert_eq!(Min::XY((1, 5), "").constrain(area), Area(0, 0, 10, 5));
    assert_eq!(Max::X(4, "").constrain(area), Area(0, 0, 4, 3));
    assert_eq!(Max::Y(1, "").constrain(area), Area(0, 0, 10, 1));
    assert_eq!(Max::XY((20, 2), "").constrain(area), Area(0, 0, 10, 2));
    let mut engine = terminal(area);
    assert_eq!(Max::X(1, "abc").render(&mut engine), Ok(Some((3, 1))));
    assert_eq!(engine.get_area(), area);
}

#[test]
fn aligned_renders_as_is() {
    let mut engine = terminal(Area(3, 4, 10, 3));
    assert_eq!(Aligned(Align::default(), "hi").render(&mut engine), Ok(Some((2, 1))));
    assert_eq!(engine.output, b"\x1b[5;4Hhi".to_vec());
    assert_eq!(Align::default(), Align::Center);
}

#[test]
fn spacer_reports_a_square() {
    assert_eq!(Output::<(), Size>::render(&3u16, &mut ()), Ok(Some((3, 3))));
}

#[test]
fn points_and_rects() {
    assert_eq!(((3u16, 4u16).x(), (3u16, 4u16).y()), (3, 4));
    assert_eq!(([5u16, 6u16].x(), [5u16, 6u16].y()), (5, 6));
    let tuple = (1u16, 2u16, 3u16, 4u16);
    assert_eq!(Rect::size(&tuple), (3, 4));
    assert_eq!((Rect::x(&tuple), Rect::y(&tuple)), (1, 2));
    let array = [5u16, 6, 7, 8];
    assert_eq!((Rect::w(&array), Rect::h(&array), Rect::size(&array)), (7, 8, (7, 8)));
    assert_eq!(Axis::X, Axis::X);
}

#[test]
fn scroll_keeps_index_visible() {
    let mut scroll = ScrollState { size: 3, offset: 5, total: 20 };
    scroll.to(6);
    assert_eq!(scroll.offset, 5);
    scroll.to(2);
    assert_eq!(scroll.offset, 2);
    scroll.to(9);
    assert_eq!(scroll.offset, 7);
    scroll.to(30);
    assert_eq!(scroll.offset, 20);
    let mut empty = ScrollState { size: 0, offset: 0, total: 0 };
    empty.to(usize::MAX);
    assert_eq!(empty.offset, 0);
}

fn pages() -> Vec<(String, String)> {
    vec![
        (String::from("one"), String::from("first page")),
        (String::from("two"), String::from("second page")),
        (String::from("three"), String::from("third page")),
    ]
}

#[test]
fn tab_labels_follow_range() {
    let mut tabs = Tabbed::top(pages());
    assert_eq!(tabs.layout_tabs_in(Rows::<TUI, Size>::new()).0.len(), 3);
    tabs.range = Some((1, 1));
    assert_eq!(tabs.layout_tabs_in(Rows::<TUI, Size>::new()).0.len(), 1);
    tabs.range = Some((2, 0));
    assert_eq!(tabs.layout_tabs_in(Rows::<TUI, Size>::new()).0.len(), 1);
    tabs.range = Some((5, 9));
    assert_eq!(tabs.layout_tabs_in(Rows::<TUI, Size>::new()).0.len(), 0);
}

#[test]
fn tabs_render_beside_page() {
    let mut tabs = Tabbed::left(pages());
    assert_eq!(tabs.side, Some(TabSide::Left));
    tabs.focus = Some(1);
    let mut engine = terminal(Area(0, 0, 40, 10));
    let layout = tabs.layout::<TUI, Size>();
    assert!(matches!(layout, Collected::Box(_)));
    assert_eq!(layout.render(&mut engine), Ok(Some((23, 1))));
    let output = String::from_utf8(engine.output).unwrap();
    assert_eq!(output, "\x1b[1;1Hone\x1b[1;4Htwo\x1b[1;7Hthree\x1b[1;13Hsecond page");
    let plain = Tabbed::new(None, pages());
    assert!(matches!(plain.layout::<TUI, Size>(), Collected::Empty));
    let mut shown = Tabbed::new(None, pages());
    shown.focus = Some(0);
    assert!(matches!(shown.layout::<TUI, Size>(), Collected::Ref(_)));
    assert!(Tabbed::right(pages()).layout_tabs::<TUI, Size>().is_some());
    assert!(Tabbed::bottom(pages()).layout_tabs::<TUI, Size>().is_some());
    assert!(plain.layout_tabs::<TUI, Size>().is_none());
}

#[test]
fn test_borders() {
    let mut engine = terminal(Area(0, 0, 5, 5));
    assert_eq!("foo".border(Tall, Inset).render(&mut engine), Ok(Some((3, 1))));
    assert_eq!(engine.get_area(), Area(0, 0, 5, 5));
    let mut engine = terminal(Area(0, 0, 5, 5));
    assert_eq!("foo".border(Wide, Outset).render(&mut engine), Ok(Some((3, 1))));
    let output = String::from_utf8(engine.output).unwrap();
    assert!(output.ends_with("\x1b[0m\x1b[48;5;235m\x1b[2;2Hfoo"));
}

#[test]
fn flat_border_draws_box_around_content() {
    let mut engine = terminal(Area(0, 0, 4, 3));
    assert_eq!("ab".border(Flat, Inset).render(&mut engine), Ok(Some((2, 1))));
    let output = String::from_utf8(engine.output).unwrap();
    let visible: String = output.split('\x1b').map(|part| part.trim_start_matches(|c: char| c != 'H' && c != 'm').trim_start_matches(['H', 'm'])).collect();
    assert_eq!(visible, "\u{250c}\u{2500}\u{2500}\u{2510}\u{2502}  \u{2502}\u{2514}\u{2500}\u{2500}\u{2518}ab");
    let mut tiny = terminal(Area(0, 0, 1, 5));
    assert_eq!("ab".border(Flat, Inset).render(&mut tiny), Ok(None));
    assert!(tiny.output.is_empty());
}
