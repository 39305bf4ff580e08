use toon::backend::{Bound, Dummy, Operation, TerminalEvent};
use toon::diff::{diff, Pen};
use toon::output::Ext;
use toon::terminal::{Step, Terminal};
use toon::{
    Attributes, Buffer, Color, Cursor, CursorShape, Element, Events, Grid, Input, Intensity, Key,
    KeyPress, Output, Style, Vec2,
};
use unicode_width::UnicodeWidthChar;

fn write_at(grid: &mut Grid, at: (u16, u16), text: &str, style: Style) {
    let mut pos = at.0;
    for c in text.chars() {
        grid.write_char(Vec2::new(pos, at.1), c, style);
        pos += c.width().unwrap_or(0) as u16;
    }
}

#[test]
fn test_diff_grid() {
    let mut old_grid = Grid::new(Vec2::new(16, 8));
    write_at(&mut old_grid, (2, 5), "Hello World!", Style::default());
    write_at(&mut old_grid, (3, 6), "😃", Style::default());
    let old_grid = old_grid;

    // old grid:
    // +----------------+
    // |                |
    // |                |
    // |                |
    // |                |
    // |                |
    // |  Hello World!  |
    // |   😃           |
    // |                |
    // +----------------+

    let mut new_grid = old_grid.clone();

    let mut style = Style::new(
        Color::Red,
        Color::Blue,
        Attributes::new().bold().underlined(),
    );

    write_at(&mut new_grid, (15, 2), "abcd", style);
    style.foreground = Color::Green;
    write_at(&mut new_grid, (1, 5), "foo", style);
    write_at(&mut new_grid, (4, 6), "😃", style);

    let new_grid = new_grid;

    // new grid:
    // +----------------+
    // |                |
    // |                |
    // |               a| (bcd is cut off)
    // |                |
    // |                |
    // | foollo World!  |
    // |    😃          | (moved one to the right)
    // |                |
    // +----------------+

    let mut backend = Dummy::new(old_grid.size());
    backend.buffer.grid = old_grid.clone();

    let mut terminal: Terminal<Dummy> = Terminal::new(backend).unwrap();
    terminal.backend_mut().operations.clear();
    assert!(terminal.set_frames(Buffer::from(old_grid), Buffer::from(new_grid.clone())));
    terminal.diff().unwrap();

    assert_eq!(terminal.backend().buffer.grid, new_grid);

    assert_eq!(
        terminal.backend().operations,
        &[
            Operation::SetForeground(Color::Red),
            Operation::SetBackground(Color::Blue),
            Operation::SetIntensity(Intensity::Bold),
            Operation::SetUnderlined(true),
            Operation::SetCursorPos(Vec2::new(15, 2)),
            Operation::Write("a".to_owned()),
            Operation::SetForeground(Color::Green),
            Operation::SetCursorPos(Vec2::new(1, 5)),
            Operation::Write("f".to_owned()),
            Operation::Write("o".to_owned()),
            Operation::Write("o".to_owned()),
            Operation::SetForeground(Color::Default),
            Operation::SetBackground(Color::Default),
            Operation::SetIntensity(Intensity::Normal),
            Operation::SetUnderlined(false),
            Operation::SetCursorPos(Vec2::new(3, 6)),
            Operation::Write(" ".to_owned()),
            Operation::SetForeground(Color::Green),
            Operation::SetBackground(Color::Blue),
            Operation::SetIntensity(Intensity::Bold),
            Operation::SetUnderlined(true),
            Operation::Write("😃".to_owned()),
            Operation::SetBackground(Color::Default),
        ],
    );
}

fn row(text: &str) -> Buffer {
    let mut grid = Grid::new((12, 1));
    grid.write((0, 0), text, Style::default());
    Buffer::from(grid)
}

fn plain_pen() -> Pen {
    Pen { style: Style::default(), pos: Vec2::new(0, 0) }
}

/// A dummy that shows the frame, with its cursor where the pen has it.
fn showing(frame: &Buffer, pen: Pen) -> Dummy {
    let mut backend = Dummy::new(frame.size());
    backend.buffer = frame.clone();
    backend.cursor_pos = pen.pos;
    backend.style = pen.style;
    backend
}

#[test]
fn changed_cells_in_a_row_need_one_move() {
    let prev = row("Hello World!");
    let next = row("Hello Rustd!");
    let mut pen = plain_pen();
    let mut backend = showing(&prev, pen);
    diff(&mut backend, &prev, &next, &mut pen).unwrap();
    assert_eq!(
        backend.operations,
        &[
            Operation::SetCursorPos(Vec2::new(6, 0)),
            Operation::Write("R".to_owned()),
            Operation::Write("u".to_owned()),
            Operation::Write("s".to_owned()),
            Operation::Write("t".to_owned()),
            Operation::SetBackground(Color::Default),
        ],
    );
    assert_eq!(backend.buffer.grid, next.grid);
    assert_eq!(pen, Pen { style: Style::default(), pos: Vec2::new(10, 0) });
}

#[test]
fn an_unchanged_cell_between_changed_ones_costs_a_move() {
    // The second "o" of the next row stands where the "o" of "World" stood.
    let prev = row("Hello World!");
    let next = row("Hello fooo!!");
    let mut pen = plain_pen();
    let mut backend = showing(&prev, pen);
    diff(&mut backend, &prev, &next, &mut pen).unwrap();
    assert_eq!(
        backend.operations,
        &[
            Operation::SetCursorPos(Vec2::new(6, 0)),
            Operation::Write("f".to_owned()),
            Operation::SetCursorPos(Vec2::new(8, 0)),
            Operation::Write("o".to_owned()),
            Operation::Write("o".to_owned()),
            Operation::Write("!".to_owned()),
            Operation::SetBackground(Color::Default),
        ],
    );
    assert_eq!(backend.buffer.grid, next.grid);
}

#[test]
fn equal_frames_need_the_background_reset_only() {
    let mut frame = row("Hello World!");
    let mut pen = plain_pen();
    let mut backend = showing(&frame, pen);
    diff(&mut backend, &frame, &frame, &mut pen).unwrap();
    assert_eq!(backend.operations, &[Operation::SetBackground(Color::Default)]);
    assert_eq!(pen, plain_pen());

    // A cursor that is shown away from the pen is moved there.
    frame.cursor =
        Some(Cursor { shape: CursorShape::Bar, blinking: false, pos: Vec2::new(3, 0) });
    let mut backend = showing(&frame, pen);
    diff(&mut backend, &frame, &frame, &mut pen).unwrap();
    assert_eq!(
        backend.operations,
        &[Operation::SetBackground(Color::Default), Operation::SetCursorPos(Vec2::new(3, 0))],
    );
    assert_eq!(pen, Pen { style: Style::default(), pos: Vec2::new(3, 0) });

    // Now the pen is where the cursor is shown, and nothing is left to do.
    backend.operations.clear();
    diff(&mut backend, &frame, &frame, &mut pen).unwrap();
    assert_eq!(backend.operations, &[Operation::SetBackground(Color::Default)]);
    assert_eq!(backend.buffer, frame);
}

fn busy_frame() -> Buffer {
    let red = Style::new(Color::Red, Color::Default, Attributes::new().italic());
    let mut grid = Grid::new((6, 3));
    write_at(&mut grid, (0, 0), "a😃b漢", Style::default());
    write_at(&mut grid, (1, 1), "漢字", red);
    write_at(&mut grid, (0, 2), "e", red);
    grid.write_char(Vec2::new(0, 2), '\u{301}', red);
    write_at(&mut grid, (4, 2), "zz", Style::default());
    let mut buffer = Buffer::from(grid);
    buffer.title = "busy".to_owned();
    buffer
}

fn other_frame() -> Buffer {
    let blue = Style::new(Color::Default, Color::Blue, Attributes::new().bold().crossed_out());
    let mut grid = Grid::new((6, 3));
    write_at(&mut grid, (0, 0), "😃ab", blue);
    write_at(&mut grid, (0, 1), "x字y", Style::default());
    write_at(&mut grid, (1, 2), "漢", blue);
    grid.write_char(Vec2::new(5, 2), 'o', blue);
    grid.write_char(Vec2::new(5, 2), '\u{308}', blue);
    let mut buffer = Buffer::from(grid);
    buffer.cursor =
        Some(Cursor { shape: CursorShape::Underline, blinking: true, pos: Vec2::new(5, 2) });
    buffer
}

fn assert_round_trip(prev: &Buffer, next: &Buffer, pen: Pen) {
    let start = pen.pos;
    let mut pen = pen;
    let mut backend = showing(prev, pen);
    diff(&mut backend, prev, next, &mut pen).unwrap();
    assert_eq!(backend.buffer.grid, next.grid);
    assert_eq!(backend.buffer.cursor, next.cursor);
    assert_eq!(backend.buffer.title, next.title);
    assert_eq!(backend.style, pen.style);
    assert_eq!(backend.cursor_pos, pen.pos);
    assert_writes_fit(&backend.operations, start, next.size().x);
}

/// Every text is one glyph with its marks, written where the row has the columns for it.
fn assert_writes_fit(operations: &[Operation], start: Vec2<u16>, width: u16) {
    let mut pos = start;
    for operation in operations {
        match operation {
            Operation::SetCursorPos(to) => pos = *to,
            Operation::Write(text) => {
                let mut chars = text.chars();
                let columns = chars.next().unwrap().width().unwrap() as u16;
                assert!(columns == 1 || columns == 2);
                assert!(chars.all(|c| c.width() == Some(0)));
                assert!(pos.x + columns <= width);
                pos.x = (pos.x + columns).min(width - 1);
            }
            _ => {}
        }
    }
}

#[test]
fn replaying_a_pass_shows_the_next_frame() {
    let blank = Buffer::from(Grid::new((6, 3)));
    let busy = busy_frame();
    let other = other_frame();
    let pen = plain_pen();
    assert_round_trip(&blank, &busy, pen);
    assert_round_trip(&busy, &blank, pen);
    assert_round_trip(&busy, &other, pen);
    assert_round_trip(&blank, &other, pen);
    let styled = Pen {
        style: Style::new(Color::Green, Color::Yellow, Attributes::new().underlined()),
        pos: Vec2::new(5, 2),
    };
    let mut shown = other_frame();
    shown.cursor = Some(Cursor { pos: styled.pos, ..shown.cursor.unwrap() });
    assert_round_trip(&shown, &busy, styled);
    assert_round_trip(&shown, &blank, styled);
    assert_round_trip(&busy, &shown, styled);
}

#[test]
fn passes_follow_each_other() {
    let blank = Buffer::from(Grid::new((6, 3)));
    let frames = [busy_frame(), other_frame(), other_frame(), busy_frame(), blank.clone()];
    let mut pen = plain_pen();
    let mut backend = showing(&blank, pen);
    let mut shown = blank;
    for next in frames {
        diff(&mut backend, &shown, &next, &mut pen).unwrap();
        assert_eq!(backend.buffer, next);
        assert_eq!(backend.style, pen.style);
        assert_eq!(backend.cursor_pos, pen.pos);
        shown = next;
    }
}

#[test]
fn cursor_calls_follow_the_change() {
    let blank = Buffer::from(Grid::new((4, 2)));
    let mut with_cursor = blank.clone();
    with_cursor.cursor =
        Some(Cursor { shape: CursorShape::Bar, blinking: true, pos: Vec2::new(2, 1) });

    let mut pen = plain_pen();
    let mut backend = showing(&blank, pen);
    diff(&mut backend, &blank, &with_cursor, &mut pen).unwrap();
    assert_eq!(
        backend.operations,
        &[
            Operation::SetBackground(Color::Default),
            Operation::ShowCursor,
            Operation::SetCursorShape(CursorShape::Bar),
            Operation::SetCursorBlinking(true),
            Operation::SetCursorPos(Vec2::new(2, 1)),
        ],
    );
    assert_eq!(backend.buffer.cursor, with_cursor.cursor);
    // The pen follows the cursor.
    assert_eq!(pen.pos, Vec2::new(2, 1));

    // The next pass starts from there: a write at the first cell needs a move.
    let mut grid = Grid::new((4, 2));
    grid.write_char(Vec2::new(0, 0), 'x', Style::default());
    let mut written = Buffer::from(grid);
    written.cursor = with_cursor.cursor;
    backend.operations.clear();
    diff(&mut backend, &with_cursor, &written, &mut pen).unwrap();
    assert_eq!(
        backend.operations,
        &[
            Operation::SetCursorPos(Vec2::new(0, 0)),
            Operation::Write("x".to_owned()),
            Operation::SetBackground(Color::Default),
            Operation::SetCursorPos(Vec2::new(2, 1)),
        ],
    );
    assert_eq!(backend.buffer, written);
    assert_eq!(pen.pos, Vec2::new(2, 1));

    let mut pen = Pen { style: Style::default(), pos: Vec2::new(2, 1) };
    let mut backend = showing(&with_cursor, pen);
    diff(&mut backend, &with_cursor, &blank, &mut pen).unwrap();
    assert_eq!(
        backend.operations,
        &[Operation::SetBackground(Color::Default), Operation::HideCursor],
    );
    assert_eq!(backend.buffer.cursor, None);

    let mut retitled = blank.clone();
    retitled.title = "New".to_owned();
    let mut pen = plain_pen();
    let mut backend = showing(&blank, pen);
    diff(&mut backend, &blank, &retitled, &mut pen).unwrap();
    assert_eq!(
        backend.operations,
        &[Operation::SetTitle("New".to_owned()), Operation::SetBackground(Color::Default)],
    );
    assert_eq!(backend.buffer.title, "New");
}

#[test]
fn the_pen_stops_at_the_last_column() {
    let prev = Buffer::from(Grid::new((3, 1)));
    let mut grid = Grid::new((3, 1));
    grid.write_char(Vec2::new(2, 0), 'x', Style::default());
    let next = Buffer::from(grid);
    let mut pen = plain_pen();
    let mut backend = showing(&prev, pen);
    diff(&mut backend, &prev, &next, &mut pen).unwrap();
    assert_eq!(pen.pos, Vec2::new(2, 0));
    assert_eq!(backend.cursor_pos, Vec2::new(2, 0));
}

#[test]
fn dummy_keeps_a_terminal() {
    let mut dummy = Dummy::new(Vec2::new(4, 2));
    assert_eq!(dummy.size().unwrap(), Vec2::new(4, 2));
    dummy.set_title("T").unwrap();
    dummy.show_cursor().unwrap();
    dummy.set_cursor_shape(CursorShape::Bar).unwrap();
    dummy.set_cursor_blinking(true).unwrap();
    dummy.set_cursor_pos(Vec2::new(1, 1)).unwrap();
    dummy.set_foreground(Color::Red).unwrap();
    dummy.set_background(Color::Blue).unwrap();
    dummy.set_intensity(Intensity::Dim).unwrap();
    dummy.set_italic(true).unwrap();
    dummy.set_underlined(true).unwrap();
    dummy.set_blinking(true).unwrap();
    dummy.set_crossed_out(true).unwrap();
    dummy.write("e\u{301}😃x").unwrap();
    dummy.flush().unwrap();
    let style = Style::new(
        Color::Red,
        Color::Blue,
        Attributes::new().dim().italic().underlined().blinking().crossed_out(),
    );
    assert_eq!(dummy.style, style);
    assert_eq!(dummy.buffer.title, "T");
    // The wide glyph left the cursor in the last column, where the last glyph then cut it
    // in half.
    assert_eq!(dummy.buffer.grid.contents(), ["    ", " e\u{301} x"]);
    assert_eq!(dummy.buffer.grid.lines()[1].cells()[1].style(), Some(style));
    assert_eq!(dummy.cursor_pos, Vec2::new(3, 1));
    assert_eq!(
        dummy.buffer.cursor,
        Some(Cursor { shape: CursorShape::Bar, blinking: true, pos: Vec2::new(3, 1) })
    );
    assert_eq!(dummy.operations.len(), 14);
    assert_eq!(dummy.operations[12], Operation::Write("e\u{301}😃x".to_owned()));
    assert_eq!(dummy.operations[13], Operation::Flush);
    dummy.hide_cursor().unwrap();
    assert_eq!(dummy.buffer.cursor, None);
    dummy.set_cursor_shape(CursorShape::Block).unwrap();
    assert_eq!(dummy.buffer.cursor, None);
    dummy.reset().unwrap();
}

#[test]
fn dummy_hands_out_its_events() {
    let mut dummy = Dummy::new(Vec2::new(4, 4));
    dummy.set_cursor_pos(Vec2::new(0, 3)).unwrap();
    dummy.write("x").unwrap();
    let key = TerminalEvent::Input(Input::Key(KeyPress::from('a')));
    dummy.events.push_back(key);
    dummy.events.push_back(TerminalEvent::Resize(Vec2::new(2, 2)));
    assert_eq!(dummy.next_event(), Some(key));
    assert_eq!(dummy.buffer.size(), Vec2::new(4, 4));
    assert_eq!(dummy.cursor_pos, Vec2::new(1, 3));
    assert_eq!(dummy.next_event(), Some(TerminalEvent::Resize(Vec2::new(2, 2))));
    assert_eq!(dummy.buffer.grid.contents(), ["  ", "x "]);
    // The cursor is pulled back into the terminal.
    assert_eq!(dummy.cursor_pos, Vec2::new(1, 1));
    assert_eq!(dummy.next_event(), None);
}

struct Label {
    text: &'static str,
    title: &'static str,
}

impl Element for Label {
    type Event = char;

    fn draw<O: Output>(&self, mut output: O) -> O {
        output.set_title(self.title);
        for (x, c) in self.text.chars().enumerate() {
            output.write_char(Vec2::new(x as u16, 0), c, Style::default());
        }
        output
    }
    fn ideal_width(&self, _height: u16, _max_width: Option<u16>) -> u16 {
        self.text.len() as u16
    }
    fn ideal_height(&self, _width: u16, _max_height: Option<u16>) -> u16 {
        1
    }
    fn ideal_size(&self, _maximum: Vec2<Option<u16>>) -> Vec2<u16> {
        Vec2::new(self.text.len() as u16, 1)
    }
    fn handle<C: Events<char>>(&self, input: Input, events: &mut C) {
        if let Input::Key(KeyPress { key: Key::Char(c), .. }) = input {
            events.add(c);
        }
    }
}

#[test]
fn terminal_renders_and_reacts() {
    let mut terminal = Terminal::new(Dummy::new(Vec2::new(5, 2))).unwrap();
    assert_eq!(
        terminal.backend().operations,
        &[
            Operation::HideCursor,
            Operation::SetCursorPos(Vec2::new(0, 0)),
            Operation::SetForeground(Color::Default),
            Operation::SetBackground(Color::Default),
            Operation::SetIntensity(Intensity::Normal),
            Operation::SetItalic(false),
            Operation::SetUnderlined(false),
            Operation::SetBlinking(false),
            Operation::SetCrossedOut(false),
        ],
    );
    terminal.backend_mut().operations.clear();

    let label = Label { text: "hi", title: "Greeting" };
    terminal.render(&label).unwrap();
    assert_eq!(
        terminal.backend().operations,
        &[
            Operation::SetTitle("Greeting".to_owned()),
            Operation::Write("h".to_owned()),
            Operation::Write("i".to_owned()),
            Operation::SetBackground(Color::Default),
            Operation::Flush,
        ],
    );
    assert_eq!(terminal.backend().buffer.grid.contents(), ["hi   ", "     "]);
    terminal.backend_mut().operations.clear();

    // The same frame again: nothing but the background reset and the flush.
    terminal.render(&label).unwrap();
    assert_eq!(
        terminal.backend().operations,
        &[Operation::SetBackground(Color::Default), Operation::Flush],
    );
    terminal.backend_mut().operations.clear();

    // The next frame starts blank: what the element no longer draws goes away.
    terminal.render(&Label { text: "", title: "Greeting" }).unwrap();
    assert_eq!(terminal.backend().buffer.grid.contents(), ["     ", "     "]);
    terminal.backend_mut().operations.clear();

    let key = |c| TerminalEvent::Input(Input::Key(KeyPress::from(c)));
    assert!(matches!(terminal.handle_event(&label, key('q')), Step::Done(events) if events == ['q']));
    let up = TerminalEvent::Input(Input::Key(KeyPress {
        key: Key::Up,
        modifiers: Default::default(),
    }));
    assert!(matches!(terminal.handle_event(&label, up), Step::Wait));
    assert!(matches!(
        terminal.handle_event(&label, TerminalEvent::Resize(Vec2::new(5, 2))),
        Step::Wait
    ));
    assert!(matches!(
        terminal.handle_event(&label, TerminalEvent::Resize(Vec2::new(3, 1))),
        Step::Redraw
    ));
    terminal.backend_mut().buffer.grid = Grid::new((3, 1));
    terminal.render(&label).unwrap();
    assert_eq!(terminal.backend().buffer.grid.contents(), ["hi "]);
    terminal.cleanup().unwrap();
}

/// Marks the last cell of the output and shows the cursor there.
struct Corner;

impl Element for Corner {
    type Event = ();

    fn draw<O: Output>(&self, mut output: O) -> O {
        let size = output.size();
        let corner = Vec2::new(size.x - 1, size.y - 1);
        output.write_char(corner, 'x', Style::default());
        output.set_cursor(Some(Cursor { shape: CursorShape::Bar, blinking: false, pos: corner }));
        output
    }
    fn ideal_width(&self, _height: u16, _max_width: Option<u16>) -> u16 {
        1
    }
    fn ideal_height(&self, _width: u16, _max_height: Option<u16>) -> u16 {
        1
    }
    fn ideal_size(&self, _maximum: Vec2<Option<u16>>) -> Vec2<u16> {
        Vec2::new(1, 1)
    }
    fn handle<C: Events<()>>(&self, _input: Input, _events: &mut C) {}
}

#[test]
fn a_resize_keeps_renderer_and_terminal_in_step() {
    let mut terminal = Terminal::new(Dummy::new(Vec2::new(6, 4))).unwrap();
    terminal.render(&Corner).unwrap();
    assert_eq!(terminal.backend().buffer.grid.contents(), ["      ", "      ", "      ", "     x"]);
    assert_eq!(terminal.backend().cursor_pos, Vec2::new(5, 3));

    for size in [Vec2::new(3, 2), Vec2::new(8, 5), Vec2::new(8, 1), Vec2::new(1, 1)] {
        terminal.backend_mut().events.push_back(TerminalEvent::Resize(size));
        let event = terminal.backend_mut().next_event().unwrap();
        assert_eq!(terminal.backend().buffer.size(), size);
        assert!(matches!(terminal.handle_event(&Corner, event), Step::Redraw));
        terminal.render(&Corner).unwrap();

        let mut expected = Grid::new(size);
        let corner = Vec2::new(size.x - 1, size.y - 1);
        expected.write_char(corner, 'x', Style::default());
        assert_eq!(terminal.backend().buffer.grid, expected);
        assert_eq!(terminal.backend().cursor_pos, corner);
        assert_eq!(
            terminal.backend().buffer.cursor,
            Some(Cursor { shape: CursorShape::Bar, blinking: false, pos: corner })
        );
    }
}

struct Count {
    writes: usize,
}

impl Output for Count {
    fn size(&self) -> Vec2<u16> {
        Vec2::new(2, 2)
    }
    fn write_char(&mut self, _pos: Vec2<u16>, _c: char, _style: Style) {
        self.writes += 1;
    }
    fn set_title(&mut self, _title: &str) {}
    fn set_cursor(&mut self, _cursor: Option<Cursor>) {}
}

#[test]
fn elements_draw_to_any_output() {
    let count = toon::fill::<_, ()>(Color::Red).draw(Count { writes: 0 });
    assert_eq!(count.writes, 4);
}

/// A backend that takes a number of calls and fails from then on.
struct Flaky {
    taken: Vec<String>,
    left: usize,
}

impl Flaky {
    fn new(left: usize) -> Self {
        Self { taken: Vec::new(), left }
    }
    fn take(&mut self, call: String) -> Result<(), String> {
        if self.left == 0 {
            return Err(format!("{} failed", call));
        }
        self.left -= 1;
        self.taken.push(call);
        Ok(())
    }
}

impl Bound for Flaky {
    type Error = String;
    type Tty = ();

    fn size(&mut self) -> Result<Vec2<u16>, String> {
        if self.left == 0 {
            Err("size failed".to_owned())
        } else {
            Ok(Vec2::new(4, 2))
        }
    }
    fn set_title(&mut self, title: &str) -> Result<(), String> {
        self.take(format!("title {}", title))
    }
    fn hide_cursor(&mut self) -> Result<(), String> {
        self.take("hide".to_owned())
    }
    fn show_cursor(&mut self) -> Result<(), String> {
        self.take("show".to_owned())
    }
    fn set_cursor_shape(&mut self, _shape: CursorShape) -> Result<(), String> {
        self.take("shape".to_owned())
    }
    fn set_cursor_blinking(&mut self, _blinking: bool) -> Result<(), String> {
        self.take("blinking".to_owned())
    }
    fn set_cursor_pos(&mut self, pos: Vec2<u16>) -> Result<(), String> {
        self.take(format!("move {} {}", pos.x, pos.y))
    }
    fn set_foreground(&mut self, _foreground: Color) -> Result<(), String> {
        self.take("foreground".to_owned())
    }
    fn set_background(&mut self, _background: Color) -> Result<(), String> {
        self.take("background".to_owned())
    }
    fn set_intensity(&mut self, _intensity: Intensity) -> Result<(), String> {
        self.take("intensity".to_owned())
    }
    fn set_italic(&mut self, _italic: bool) -> Result<(), String> {
        self.take("italic".to_owned())
    }
    fn set_underlined(&mut self, _underlined: bool) -> Result<(), String> {
        self.take("underlined".to_owned())
    }
    fn set_blinking(&mut self, _blinking: bool) -> Result<(), String> {
        self.take("text blinking".to_owned())
    }
    fn set_crossed_out(&mut self, _crossed_out: bool) -> Result<(), String> {
        self.take("crossed out".to_owned())
    }
    fn write(&mut self, text: &str) -> Result<(), String> {
        self.take(format!("write {}", text))
    }
    fn flush(&mut self) -> Result<(), String> {
        self.take("flush".to_owned())
    }
    fn reset(self) -> Result<(), String> {
        if self.left == 0 {
            Err("reset failed".to_owned())
        } else {
            Ok(())
        }
    }
}

#[test]
fn a_failing_call_ends_the_pass() {
    let prev = Buffer::from(Grid::new((4, 2)));
    let mut grid = Grid::new((4, 2));
    let bold = Style::new(Color::Red, Color::Default, Attributes::new().bold());
    grid.write((1, 0), "ab", bold);
    grid.write((0, 1), "c", Style::default());
    let next = Buffer::from(grid);

    let all = [
        "foreground",
        "intensity",
        "move 1 0",
        "write a",
        "write b",
        "foreground",
        "intensity",
        "move 0 1",
        "write c",
        "background",
    ];
    for left in 0..all.len() {
        let mut backend = Flaky::new(left);
        let mut pen = plain_pen();
        let failed = diff(&mut backend, &prev, &next, &mut pen);
        assert_eq!(failed, Err(format!("{} failed", all[left])));
        assert_eq!(backend.taken, &all[..left]);
    }
    let mut backend = Flaky::new(all.len());
    let mut pen = plain_pen();
    assert_eq!(diff(&mut backend, &prev, &next, &mut pen), Ok(()));
    assert_eq!(backend.taken, all);
    assert_eq!(pen, Pen { style: Style::default(), pos: Vec2::new(1, 1) });
}

#[test]
fn backend_errors_come_out_of_the_terminal() {
    assert!(matches!(
        Terminal::new(Flaky::new(3)),
        Err(toon::Error::Backend(error)) if error == "background failed"
    ));
    assert!(matches!(
        Terminal::new(Flaky::new(9)),
        Err(toon::Error::Backend(error)) if error == "size failed"
    ));

    let mut terminal = Terminal::new(Flaky::new(11)).unwrap();
    let label = Label { text: "hi", title: "" };
    // The pass takes two writes, and nothing is left for the background.
    assert!(matches!(
        terminal.render(&label),
        Err(toon::Error::Backend(error)) if error == "background failed"
    ));
    assert_eq!(terminal.backend().taken[9..], ["write h", "write i"]);
    assert!(matches!(
        terminal.cleanup(),
        Err(toon::Error::Backend(error)) if error == "reset failed"
    ));
    assert!(Terminal::new(Flaky::new(100)).unwrap().cleanup().is_ok());
}
