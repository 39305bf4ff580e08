use toon::elements::containers::container_1d;
use toon::elements::dev::{Dev, Event, EventKind, Focus};
use toon::events::Vector;
use toon::{
    empty, fill, flow, row, span, stack, stretch, text, Alignment, Attributes, Border, Buffer,
    CellKind, Color, Cursor, CursorShape, Element, ElementExt, End, Grid, Input, Key,
    KeyPress, Line, Modifiers, Mouse, MouseButton, MouseKind, Output, ScrollOffset, Static, Style,
    Vec2,
};

#[test]
fn test_block() {
    let grid = Grid::new((5, 10));

    let grid = fill::<_, ()>(Color::Red).draw(grid);

    for line in grid.lines() {
        for cell in line.cells() {
            assert_eq!(
                cell.kind(),
                CellKind::Char {
                    contents: " ",
                    double: false,
                    style: Style::new(Color::Default, Color::Red, Attributes::new()),
                },
            );
        }
    }

    let old_grid = grid.clone();
    let grid = empty::<()>().draw(grid);
    assert_eq!(grid, old_grid);
}

#[test]
fn test_span() {
    let grid = Grid::new((3, 2));

    let style = Style::new(Color::Black, Color::White, Attributes::new());
    let mut element = span::<_, ()>("asdf");
    element.style = style;
    let grid = element.draw(grid);

    assert_eq!(grid.contents(), ["asd", "   ",]);

    for (top, bottom) in grid.lines()[0].cells().iter().zip(grid.lines()[1].cells()) {
        assert_eq!(top.style().unwrap(), style);
        assert_eq!(bottom.style().unwrap(), Style::default());
    }
}

#[test]
fn flow_test_too_large() {
    let grid = Grid::new((5, 6));

    let grid = container_1d::column(
        flow(),
        (
            span::<_, ()>("Foo"),
            span("Bar"),
            span("Baz"),
            span("Foo2"),
            span("Bar2"),
            span("Baz2"),
            span("Extra Line"),
        ),
    )
    .draw(grid);

    assert_eq!(grid.contents(), ["Foo  ", "Bar  ", "Baz  ", "Foo2 ", "Bar2 ", "Baz2 ",]);
}

#[test]
fn flow_test_biases() {
    let grid = Grid::new((5, 6));

    let mut three_lines = container_1d::column(
        flow(),
        (
            span::<_, ()>("Top Line").tile_y(0),
            empty(),
            span("Middle Line").tile_y(0),
            empty(),
            span("Bottom Line").tile_y(0),
        ),
    );

    let mut grid = three_lines.draw(grid);
    assert_eq!(grid.contents(), ["Top L", "Middl", "Botto", "     ", "     ", "     ",]);

    three_lines.layout.bias = Some(End::Start);
    grid.clear();
    let mut grid = three_lines.draw(grid);
    assert_eq!(grid.contents(), ["Top L", "Top L", "     ", "Middl", "Middl", "Botto",]);

    three_lines.layout.bias = Some(End::End);
    grid.clear();
    let grid = three_lines.draw(grid);
    assert_eq!(grid.contents(), ["Top L", "Middl", "Middl", "     ", "Botto", "Botto",]);

    let grid = row(
        flow().bias(End::Start),
        (
            empty::<()>(),
            span("1"),
            empty(),
            empty(),
            span("2"),
            empty(),
            span("34"),
            span("5"),
            empty(),
            span("6"),
            empty(),
        ),
    )
    .draw(grid);

    assert_eq!(grid.contents(), ["12345", "Middl", "Middl", "     ", "Botto", "Botto",]);
}

#[test]
fn test_static() {
    let grid = Grid::new((7, 3));

    let grid = container_1d::column(
        Static,
        (
            span::<_, ()>("Some text"),
            empty(),
            container_1d::column(Static, (span("Foo"), span("Bar"))),
            span("Cut off"),
        ),
    )
    .draw(grid);

    assert_eq!(grid.contents(), ["Some te", "Foo    ", "Bar    ",]);
}

#[test]
fn test_stack() {
    let grid = Grid::new((12, 10));

    let grid = stack((
        span::<_, ()>("x").tile((0, 0)),
        span("Foo").float((Alignment::Middle, Alignment::Middle)),
    ))
    .draw(grid);

    assert_eq!(
        grid.contents(),
        [
            "xxxxxxxxxxxx",
            "xxxxxxxxxxxx",
            "xxxxxxxxxxxx",
            "xxxxxxxxxxxx",
            "xxxxxxxxxxxx",
            "xxxxxFooxxxx",
            "xxxxxxxxxxxx",
            "xxxxxxxxxxxx",
            "xxxxxxxxxxxx",
            "xxxxxxxxxxxx",
        ]
    );
}

#[test]
fn test_out_of_range() {
    let grid = Grid::new((6, 5));

    let grid = container_1d::column(stretch(5), (span::<_, ()>("1"), span("2"), span("3"))).draw(grid);

    assert_eq!(grid.contents(), ["1     ", "2     ", "3     ", "      ", "      ",]);
}

#[test]
fn test_grow() {
    let grid = Grid::new((3, 5));

    let grid = container_1d::column(
        stretch(1),
        (
            span::<_, ()>("1").tile((0, 0)),
            span("2").tile((0, 0)),
            span("3").tile((0, 0)),
        ),
    )
    .draw(grid);

    assert_eq!(grid.contents(), ["111", "222", "222", "222", "333",]);
}

#[test]
fn test_shrink() {
    let grid = Grid::new((3, 2));

    let grid = container_1d::column(
        stretch(1),
        (
            span::<_, ()>("1").tile((0, 0)),
            span("2").tile((0, 0)),
            span("3").tile((0, 0)),
        ),
    )
    .draw(grid);

    assert_eq!(grid.contents(), ["111", "333"]);
}

#[test]
fn test_fill_background() {
    let grid = Grid::new((5, 2));

    let grid = stack((
        span::<_, ()>("x").tile((0, 0)),
        span("Hi").fill_background(Color::Red),
    ))
    .draw(grid);

    assert_eq!(grid.contents(), ["Hi   ", "     "]);
}

#[test]
fn test_float_x() {
    let grid = Grid::new((10, 3));

    let mut grid = span::<_, ()>("Foo").tile_y(0).float_x(Alignment::Middle).draw(grid);

    assert_eq!(grid.contents(), ["    Foo   "; 3]);

    grid.resize_width(2);
    grid.clear();

    let grid = span::<_, ()>("Foo").tile_y(0).float_x(Alignment::Middle).draw(grid);

    assert_eq!(grid.contents(), ["Fo"; 3]);
}

#[test]
fn test_float_y() {
    let grid = Grid::new((2, 8));

    let mut grid = span::<_, ()>("X")
        .tile((0, 0))
        .height(2)
        .float_y(Alignment::Middle)
        .draw(grid);

    assert_eq!(grid.contents(), ["  ", "  ", "  ", "XX", "XX", "  ", "  ", "  ",]);

    grid.clear();

    let grid = span::<_, ()>("X").tile((0, 0)).height(2).float_y(Alignment::End).draw(grid);

    assert_eq!(grid.contents(), ["  ", "  ", "  ", "  ", "  ", "  ", "XX", "XX",]);
}

#[test]
fn test_scroll_no_fill() {
    let grid = Grid::new((5, 5));

    let no_fill = &container_1d::column(Static, vec![span::<_, ()>("abc"); 3]);

    let grid = no_fill.scroll((ScrollOffset::Start(5), ScrollOffset::End(3))).draw(grid);
    assert_eq!(grid.contents(), ["abc  ", "abc  ", "abc  ", "     ", "     "]);

    let grid = no_fill.scroll_x(ScrollOffset::End(0)).draw(grid);
    assert_eq!(grid.contents(), ["abc  ", "abc  ", "abc  ", "     ", "     "]);

    let grid = no_fill.scroll_y(ScrollOffset::Start(0)).draw(grid);
    assert_eq!(grid.contents(), ["abc  ", "abc  ", "abc  ", "     ", "     "]);
}

#[test]
fn test_scroll_start() {
    let line = Line::new(2);

    let line = span::<_, ()>("abcde").scroll_x(ScrollOffset::Start(2)).draw(line);
    assert_eq!(line.contents(), "cd");

    let line = span::<_, ()>("abcde").scroll_x(ScrollOffset::Start(1000)).draw(line);
    assert_eq!(line.contents(), "de");
}

#[test]
fn test_scroll_end() {
    let line = Line::new(2);

    let line = span::<_, ()>("abcde").scroll_x(ScrollOffset::End(2)).draw(line);
    assert_eq!(line.contents(), "bc");

    let line = span::<_, ()>("abcde").scroll_x(ScrollOffset::End(1000)).draw(line);
    assert_eq!(line.contents(), "ab");
}

fn test_el() -> impl Element<Event = ()> {
    container_1d::column(Static, (span("abc"), span("def")))
}

#[test]
fn test_tile_x() {
    let grid = Grid::new((12, 3));

    let grid = test_el().tile_x(2).draw(grid);
    assert_eq!(grid.contents(), ["bcabcabcabca", "efdefdefdefd", "            ",]);

    let grid = test_el().tile_x(3).draw(grid);
    assert_eq!(grid.contents(), ["abcabcabcabc", "defdefdefdef", "            ",]);
}

#[test]
fn test_tile_y() {
    let grid = Grid::new((4, 6));

    let grid = test_el().tile_y(1).draw(grid);
    assert_eq!(grid.contents(), ["def ", "abc ", "def ", "abc ", "def ", "abc ",]);

    let grid = test_el().tile_y(2).draw(grid);
    assert_eq!(grid.contents(), ["abc ", "def ", "abc ", "def ", "abc ", "def ",]);
}

#[test]
fn test_tile_both() {
    let grid = Grid::new((13, 7));

    let grid = test_el().tile((2, 1)).draw(grid);
    assert_eq!(
        grid.contents(),
        [
            "efdefdefdefde",
            "bcabcabcabcab",
            "efdefdefdefde",
            "bcabcabcabcab",
            "efdefdefdefde",
            "bcabcabcabcab",
            "efdefdefdefde",
        ]
    );
}

#[test]
fn border_frames_the_element_and_shows_its_title() {
    let grid = Grid::new((12, 4));
    let element = span::<_, ()>("Hi").title("Box").filter(
        Border::ascii_plus().top_title(Alignment::Start).bottom_title(Alignment::End),
    );
    let buffer = element.draw(Buffer::from(grid));
    assert_eq!(
        buffer.grid.contents(),
        ["+Box-------+", "| Hi       |", "|          |", "+-------Box+",]
    );
    assert_eq!(buffer.title, "Box");

    let grid = span::<_, ()>("Hi").filter(Border::thin().no_padding()).draw(Grid::new((4, 3)));
    assert_eq!(grid.contents(), ["┌──┐", "│Hi│", "└──┘"]);

    // A title that does not fit is cut off before the right side.
    let grid = span::<_, ()>("")
        .title("Long title")
        .filter(Border::ascii_plus().top_title(Alignment::Middle))
        .draw(Grid::new((6, 2)));
    assert_eq!(grid.contents(), ["+Long+", "+----+"]);

    assert_eq!(
        span::<_, ()>("Hi").filter(Border::thick()).ideal_size(Vec2::new(None, None)),
        Vec2::new(6, 3)
    );
}

fn click(at: (u16, u16), size: (u16, u16)) -> Input {
    Input::Mouse(Mouse {
        kind: MouseKind::Press(MouseButton::Left),
        at: Vec2::from(at),
        size: Vec2::from(size),
        modifiers: Modifiers::default(),
    })
}

fn handled<E: Element>(element: &E, input: Input) -> Vec<E::Event> {
    let mut events = Vector(Vec::new());
    element.handle(input, &mut events);
    events.0
}

#[test]
fn on_makes_events_of_inputs() {
    let quit = span::<_, u8>("q").on('q', |_| 1);
    assert_eq!(handled(&quit, Input::Key(KeyPress::from('q'))), [1]);
    assert_eq!(handled(&quit, Input::Key(KeyPress::from('x'))), []);

    let both = quit.on_passive(Key::Char('q'), |_| 2);
    assert_eq!(handled(&both, Input::Key(KeyPress::from('q'))), [2, 1]);

    let masked = both.mask_inputs(MouseKind::Move);
    assert_eq!(handled(&masked, Input::Key(KeyPress::from('q'))), []);

    let mapped = span::<_, u8>("q").on('q', |_| 1).map_event(|event| u32::from(event) + 10);
    assert_eq!(handled(&mapped, Input::Key(KeyPress::from('q'))), [11]);
}

#[test]
fn containers_pass_inputs_on() {
    let at = |input: Input| input.mouse().map(|mouse| (mouse.at.x, mouse.at.y, mouse.size.x));
    let cell = |name: &'static str| {
        span::<_, (&'static str, Option<(u16, u16, u16)>)>(name)
            .on(MouseKind::Press(MouseButton::Left), move |input| (name, at(input)))
            .on(Key::Up, move |input| (name, at(input)))
    };
    let container = row(Static, (cell("ab"), cell("cde"), cell("f")));
    assert_eq!(handled(&container, click((3, 0), (10, 1))), [("cde", Some((1, 0, 3)))]);
    assert_eq!(handled(&container, click((5, 0), (10, 1))), [("f", Some((0, 0, 1)))]);
    assert_eq!(handled(&container, click((6, 0), (10, 1))), []);
    let up = Input::Key(KeyPress { key: Key::Up, modifiers: Modifiers::default() });
    assert_eq!(handled(&container, up), []);
    let focused = container.focus(1);
    assert_eq!(handled(&focused, up), [("cde", None)]);
    let all = focused.broadcast_keys();
    assert_eq!(handled(&all, up), [("ab", None), ("cde", None), ("f", None)]);

    let pile = stack((cell("low"), cell("high")));
    assert_eq!(handled(&pile, up), [("high", None)]);
    assert_eq!(handled(&pile.broadcast_inputs(), up), [("low", None), ("high", None)]);

    let floating = cell("ab").float((Alignment::End, Alignment::End));
    assert_eq!(handled(&floating, click((9, 4), (10, 5))), [("ab", Some((1, 0, 2)))]);
    assert_eq!(handled(&floating, click((7, 4), (10, 5))), []);

    let bordered = cell("ab").filter(Border::thin());
    assert_eq!(handled(&bordered, click((2, 1), (8, 3))), [("ab", Some((0, 0, 4)))]);
    assert_eq!(handled(&bordered, click((1, 1), (8, 3))), []);

    let scrolled = cell("abcdef").scroll_x(ScrollOffset::Start(2));
    assert_eq!(handled(&scrolled, click((1, 0), (3, 1))), [("abcdef", Some((3, 0, 6)))]);

    let tiled = cell("abc").tile_x(1);
    assert_eq!(handled(&tiled, click((0, 0), (9, 1))), [("abc", Some((2, 0, 3)))]);
    assert_eq!(handled(&tiled, click((4, 0), (9, 1))), [("abc", Some((0, 0, 3)))]);
}

#[test]
fn only_the_focused_element_sets_the_cursor() {
    struct Pointer;
    impl Element for Pointer {
        type Event = ();
        fn draw<O: Output>(&self, mut output: O) -> O {
            output.set_cursor(Some(Cursor {
                shape: CursorShape::Bar,
                blinking: false,
                pos: Vec2::new(0, 0),
            }));
            output
        }
        fn ideal_width(&self, _height: u16, _max_width: Option<u16>) -> u16 {
            2
        }
        fn ideal_height(&self, _width: u16, _max_height: Option<u16>) -> u16 {
            1
        }
        fn ideal_size(&self, _maximum: Vec2<Option<u16>>) -> Vec2<u16> {
            Vec2::new(2, 1)
        }
        fn handle<C: toon::Events<()>>(&self, _input: Input, _events: &mut C) {}
    }
    let container = row(Static, (Pointer, Pointer, Pointer));
    let buffer = container.draw(Buffer::from(Grid::new((8, 1))));
    assert_eq!(buffer.cursor, None);
    let buffer = container.focus(2).draw(buffer);
    assert_eq!(buffer.cursor.map(|cursor| cursor.pos), Some(Vec2::new(4, 0)));
}

#[test]
fn text_is_a_line_in_a_style() {
    let style = Style::new(Color::Green, Color::Default, Attributes::new());
    let line = text("héllo", style).draw(Line::new(4));
    assert_eq!(line.contents(), "héll");
    assert_eq!(line.cells()[0].style(), Some(style));
    assert_eq!(text("漢字", style).ideal_width(1, None), 4);
    assert_eq!(span::<_, ()>(String::from("a\u{301}b")).ideal_width(1, None), 2);
}

#[test]
fn dev_applies_events() {
    let mut dev = Dev::new();
    assert_eq!(dev.focus, Focus::Element);
    assert_eq!((dev.right_panel_width, dev.bottom_panel_height), (64, 16));
    dev.apply(Event(EventKind::Focus(Focus::Element.tab(false))));
    assert_eq!(dev.focus, Focus::RightDev);
    assert_eq!(Focus::RightDev.tab(false), Focus::BottomDev);
    assert_eq!(Focus::BottomDev.tab(false), Focus::Element);
    assert_eq!(Focus::RightDev.tab(true), Focus::Element);
    assert_eq!(Focus::BottomDev.tab(true), Focus::RightDev);
    assert_eq!(Focus::Element.tab(true), Focus::BottomDev);
    dev.apply(Event(EventKind::ToggleAbortConfirm));
    assert!(dev.abort_confirm);
    dev.apply(Event(EventKind::Resize(Some(10), Some(20))));
    assert_eq!((dev.right_panel_width, dev.bottom_panel_height), (32, 20));
    dev.apply(Event(EventKind::Resize(None, Some(3))));
    assert_eq!((dev.right_panel_width, dev.bottom_panel_height), (32, 8));
    dev.apply(Event(EventKind::SetRightPanelResizing));
    dev.apply(Event(EventKind::SetBottomPanelResizing));
    assert!(dev.right_panel_resizing && dev.bottom_panel_resizing);
    dev.apply(Event(EventKind::StopResizing));
    assert!(!dev.right_panel_resizing && !dev.bottom_panel_resizing);
    dev.apply(Event(EventKind::CapturedData(b"out\xFF".to_vec())));
    dev.apply(Event(EventKind::CapturedData(b"put".to_vec())));
    assert_eq!(dev.captured, "out\u{FFFD}put");
}
