use toon::output::Ext;
use toon::{Buffer, CellKind, Color, Cursor, CursorShape, Grid, Line, Output, Style, Vec2};
use unicode_width::{UnicodeWidthChar, UnicodeWidthStr};

fn assert_invariants(line: &Line) {
    assert!(u16::try_from(line.cells().len()).is_ok());

    let mut continuation = false;
    for (x, cell) in line.cells().iter().enumerate() {
        if continuation {
            if let Some(contents) = cell.contents() {
                panic!(
                    "Cell at {} is not a continuation, contains {:?} ({:?})",
                    x,
                    contents,
                    contents.as_bytes()
                );
            }
            continuation = false;
        } else {
            match cell.kind() {
                CellKind::Char { contents, double, .. } => {
                    assert!(!contents.is_empty());

                    let width = if double { 2 } else { 1 };
                    assert_eq!(contents.width(), width);
                    assert_eq!(contents.chars().next().unwrap().width().unwrap(), width);

                    continuation = double;
                }
                CellKind::Continuation => panic!("Cell at {} is a continuation!", x),
            }
        }
    }

    if continuation {
        panic!("Last cell is a double!");
    }
}

#[test]
fn test_line() {
    let mut line = Line::new(0);
    assert_invariants(&line);

    line.resize(5);
    assert_invariants(&line);
    assert_eq!(line.len(), 5);
    assert_eq!(line.contents(), "     ");

    // Drawing a double width character
    line.write_char(Vec2::new(0, 0), '😊', Style::default());
    assert_invariants(&line);
    assert_eq!(line.contents(), "😊   ");

    // Drawing a single width character next to a double width character
    line.write_char(Vec2::new(2, 0), 'a', Style::default());
    assert_invariants(&line);
    assert_eq!(line.contents(), "😊a  ");

    // Drawing a double width character over a double width & single width character
    line.write_char(Vec2::new(1, 0), '😊', Style::default());
    assert_invariants(&line);
    assert_eq!(line.contents(), " 😊  ");

    // Drawing a double width character over a double width character
    line.write_char(Vec2::new(0, 0), '😊', Style::default());
    assert_invariants(&line);
    assert_eq!(line.contents(), "😊   ");

    // Drawing a double width character at the edge doesn't do anything
    line.write_char(Vec2::new(4, 0), '😊', Style::default());
    assert_invariants(&line);
    assert_eq!(line.contents(), "😊   ");

    // Drawing a single width character over a double width character
    line.write_char(Vec2::new(1, 0), 'a', Style::default());
    assert_invariants(&line);
    assert_eq!(line.contents(), " a   ");

    // Drawing a double width character next to a single width character
    line.write_char(Vec2::new(2, 0), '😊', Style::default());
    assert_invariants(&line);
    assert_eq!(line.contents(), " a😊 ");

    // Resizing the line and removing the double-width char
    line.resize(3);
    assert_invariants(&line);
    assert_eq!(line.contents(), " a ");
}

#[test]
fn test_resize_anchor() {
    let mut grid = Grid::new((1, 3));

    grid.write((0, 0), "0", Style::default());
    grid.write((0, 1), "1", Style::default());
    grid.write((0, 2), "2", Style::default());

    grid.resize_height_with_anchor(2, 2);

    assert_eq!(grid.lines().len(), 2);
    assert_eq!(grid.lines()[0].cells()[0].contents(), Some("1"));
    assert_eq!(grid.lines()[1].cells()[0].contents(), Some("2"));

    grid.resize_height_with_anchor(1, 0);

    assert_eq!(grid.lines().len(), 1);
    assert_eq!(grid.lines()[0].cells()[0].contents(), Some("1"));

    grid.resize_height_with_anchor(5, 3);

    assert_eq!(grid.lines().len(), 5);
    assert_eq!(grid.lines()[0].cells()[0].contents(), Some("1"));
    for i in 1..5 {
        assert_eq!(grid.lines()[usize::from(i)].cells()[0].contents(), Some(" "));
        grid.write_char(
            Vec2::new(0, i),
            i.to_string().chars().next().unwrap(),
            Style::default(),
        );
    }

    grid.resize_height_with_anchor(3, 3);

    assert_eq!(grid.lines().len(), 3);
    assert_eq!(grid.lines()[0].cells()[0].contents(), Some("1"));
    assert_eq!(grid.lines()[1].cells()[0].contents(), Some("2"));
    assert_eq!(grid.lines()[2].cells()[0].contents(), Some("3"));
}

fn abcde() -> Line {
    let mut line = Line::new(5);
    for (x, c) in "abcde".chars().enumerate() {
        line.write_char(Vec2::new(x as u16, 0), c, Style::default());
    }
    assert_eq!(line.contents(), "abcde");
    line
}

#[test]
fn wide_glyph_replaces_two_cells() {
    let mut line = abcde();
    line.write_char(Vec2::new(2, 0), '😊', Style::default());
    assert_invariants(&line);
    assert_eq!(line.len(), 5);
    assert_eq!(line.contents(), "ab😊e");
    let cells = line.cells();
    assert_eq!(cells[0].contents(), Some("a"));
    assert_eq!(cells[1].contents(), Some("b"));
    assert_eq!(
        cells[2].kind(),
        CellKind::Char { contents: "😊", double: true, style: Style::default() }
    );
    assert!(cells[2].is_double() && cells[2].is_char());
    assert!(cells[3].is_continuation());
    assert_eq!(cells[3].kind(), CellKind::Continuation);
    assert_eq!(cells[3].contents(), None);
    assert_eq!(cells[3].style(), None);
    assert_eq!(cells[4].contents(), Some("e"));
    assert!(!cells[4].is_double());
}

#[test]
fn wide_glyph_at_last_column_is_dropped() {
    let mut line = abcde();
    let before = line.clone();
    line.write_char(Vec2::new(4, 0), '😊', Style::default());
    assert_eq!(line, before);
    assert_eq!(line.contents(), "abcde");
}

#[test]
fn wide_glyph_lands_at_every_column_but_the_last() {
    for x in 0..4u16 {
        let mut line = abcde();
        line.write_char(Vec2::new(x, 0), '漢', Style::default());
        assert_invariants(&line);
        assert!(line.cells()[usize::from(x)].is_double());
        assert!(line.cells()[usize::from(x)].is_char());
        assert!(line.cells()[usize::from(x) + 1].is_continuation());
    }
}

#[test]
fn orphaned_half_keeps_the_style_of_the_glyph() {
    let red = Style::new(Color::Default, Color::Red, Default::default());
    let blue = Style::new(Color::Default, Color::Blue, Default::default());

    // The first half is replaced: the second half becomes a space in the glyph's style.
    let mut line = Line::new(4);
    line.write_char(Vec2::new(1, 0), '😊', red);
    line.write_char(Vec2::new(1, 0), 'x', blue);
    assert_invariants(&line);
    assert_eq!(line.contents(), " x  ");
    assert_eq!(line.cells()[1].style(), Some(blue));
    assert_eq!(line.cells()[2].style(), Some(red));
    assert_eq!(line.cells()[2].contents(), Some(" "));

    // The second half is replaced: the first half becomes a space in its own style.
    let mut line = Line::new(4);
    line.write_char(Vec2::new(1, 0), '😊', red);
    line.write_char(Vec2::new(2, 0), 'x', blue);
    assert_invariants(&line);
    assert_eq!(line.contents(), "  x ");
    assert_eq!(line.cells()[1].style(), Some(red));
    assert_eq!(line.cells()[1].contents(), Some(" "));
    assert_eq!(line.cells()[2].style(), Some(blue));
}

#[test]
fn marks_join_the_glyph_and_ignore_their_style() {
    let red = Style::new(Color::Red, Color::Default, Default::default());
    let mut line = Line::new(3);
    line.write_char(Vec2::new(1, 0), 'e', Style::default());
    line.write_char(Vec2::new(1, 0), '\u{301}', red);
    assert_invariants(&line);
    assert_eq!(line.cells()[1].contents(), Some("e\u{301}"));
    assert_eq!(line.cells()[1].style(), Some(Style::default()));

    // On a continuation cell and outside the line a mark is dropped.
    line.write_char(Vec2::new(0, 0), '😊', Style::default());
    let before = line.clone();
    line.write_char(Vec2::new(1, 0), '\u{301}', red);
    line.write_char(Vec2::new(3, 0), '\u{301}', red);
    assert_eq!(line, before);
}

#[test]
fn control_characters_and_other_rows_are_ignored() {
    let mut line = abcde();
    let before = line.clone();
    line.write_char(Vec2::new(1, 0), '\0', Style::default());
    line.write_char(Vec2::new(1, 0), '\n', Style::default());
    line.write_char(Vec2::new(1, 0), '\u{7f}', Style::default());
    line.write_char(Vec2::new(1, 1), 'x', Style::default());
    line.write_char(Vec2::new(5, 0), 'x', Style::default());
    assert_eq!(line, before);
    assert_eq!(line.size(), Vec2::new(5, 1));
    assert!(!line.is_empty());
    assert!(Line::new(0).is_empty());
}

#[test]
fn line_resize_and_clear() {
    let mut line = abcde();
    line.resize(7);
    assert_eq!(line.contents(), "abcde  ");
    line.resize(2);
    assert_eq!(line.contents(), "ab");
    line.clear();
    assert_eq!(line.contents(), "  ");
    assert_eq!(line, Line::new(2));
}

#[test]
fn anchor_row_becomes_the_last_row() {
    let mut grid = Grid::new((1, 10));
    for y in 0..10u16 {
        let c = char::from(b'0' + y as u8);
        grid.write_char(Vec2::new(0, y), c, Style::default());
    }
    grid.resize_height_with_anchor(3, 7);
    assert_eq!(grid.contents(), ["5", "6", "7"]);
    assert_eq!(grid.height(), 3);
    assert_eq!(grid.width(), 1);
}

#[test]
fn anchor_that_survives_is_cut_from_the_bottom() {
    let mut grid = Grid::new((1, 10));
    for y in 0..10u16 {
        let c = char::from(b'0' + y as u8);
        grid.write_char(Vec2::new(0, y), c, Style::default());
    }
    let mut other = grid.clone();
    grid.resize_height_with_anchor(3, 2);
    assert_eq!(grid.contents(), ["0", "1", "2"]);
    // An anchor below the last row counts as the last row.
    other.resize_height_with_anchor(2, 40);
    assert_eq!(other.contents(), ["8", "9"]);
}

#[test]
fn grid_resize_width_and_height() {
    let mut grid = Grid::new(Vec2::new(4, 2));
    assert_eq!(grid.size(), Vec2::new(4, 2));
    grid.write((0, 0), "ab😊", Style::default());
    grid.write((0, 1), "wxyz", Style::default());
    assert_eq!(grid.contents(), ["ab😊", "wxyz"]);
    grid.resize_width(3);
    assert_eq!(grid.contents(), ["ab ", "wxy"]);
    grid.resize_height(3);
    assert_eq!(grid.contents(), ["ab ", "wxy", "   "]);
    grid.resize_height(1);
    assert_eq!(grid.contents(), ["ab "]);
    grid.clear();
    assert_eq!(grid, Grid::new((3, 1)));
    assert_eq!(Grid::default().size(), Vec2::new(0, 0));
    // Outside the grid nothing is written.
    grid.write_char(Vec2::new(0, 1), 'x', Style::default());
    assert_eq!(grid, Grid::new((3, 1)));
}

#[test]
fn text_is_cut_off_at_the_width() {
    let mut grid = Grid::new((5, 1));
    grid.write((3, 0), "abcdef", Style::default());
    assert_eq!(grid.contents(), ["   ab"]);
    let mut grid = Grid::new((5, 1));
    grid.write((0, 0), "a\nb\u{7}c", Style::default());
    assert_eq!(grid.contents(), ["abc  "]);
}

#[test]
fn buffer_holds_grid_cursor_and_title() {
    let mut buffer = Buffer::from(Grid::new((3, 2)));
    assert_eq!(buffer.size(), Vec2::new(3, 2));
    assert_eq!(buffer.cursor, None);
    let cursor = Cursor { shape: CursorShape::Bar, blinking: true, pos: Vec2::new(1, 1) };
    buffer.set_cursor(Some(cursor));
    buffer.set_title("Title");
    buffer.write_char(Vec2::new(2, 1), 'x', Style::default());
    assert_eq!(buffer.cursor, Some(cursor));
    assert_eq!(buffer.title, "Title");
    assert_eq!(buffer.grid.contents(), ["   ", "  x"]);
    let copy = buffer.clone();
    assert_eq!(copy.grid, buffer.grid);
    assert_eq!(copy.cursor, buffer.cursor);
    assert_eq!(copy.title, buffer.title);
    buffer.reset();
    assert_eq!(buffer.cursor, None);
    assert_eq!(buffer.title, "");
    assert_eq!(buffer.grid, Grid::new((3, 2)));
}

#[test]
fn area_offsets_and_clips() {
    let grid = Grid::new((6, 3));
    let mut area = grid.area(Vec2::new(2, 1), Vec2::new(3, 2));
    assert_eq!(area.size(), Vec2::new(3, 2));
    area.write_char(Vec2::new(0, 0), 'a', Style::default());
    area.write_char(Vec2::new(2, 1), 'b', Style::default());
    // Outside the area.
    area.write_char(Vec2::new(3, 0), 'x', Style::default());
    area.write_char(Vec2::new(0, 2), 'x', Style::default());
    // A wide glyph in the area's last column is dropped as a whole.
    area.write_char(Vec2::new(2, 0), '😊', Style::default());
    let grid = area.inner;
    assert_eq!(grid.contents(), ["      ", "  a   ", "    b "]);

    // A negative offset shows a window of what is drawn.
    let mut area = Grid::new((3, 1)).area(Vec2::new(-2, 0), Vec2::new(5, 1));
    area.write((0, 0), "abcde", Style::default());
    assert_eq!(area.inner.contents(), ["cde"]);
}

#[test]
fn area_moves_and_clips_the_cursor() {
    let cursor = Cursor { shape: CursorShape::Block, blinking: false, pos: Vec2::new(1, 1) };
    let buffer = Buffer::from(Grid::new((6, 4)));
    let mut area = buffer.area(Vec2::new(2, 1), Vec2::new(3, 2));
    area.set_cursor(Some(cursor));
    area.set_title("inner");
    let buffer = area.inner;
    assert_eq!(buffer.cursor, Some(Cursor { pos: Vec2::new(3, 2), ..cursor }));
    assert_eq!(buffer.title, "inner");
    let mut area = buffer.area(Vec2::new(2, 1), Vec2::new(3, 2));
    area.set_cursor(Some(Cursor { pos: Vec2::new(3, 0), ..cursor }));
    assert_eq!(area.inner.cursor, None);
}

#[test]
fn cells_differ_by_contents_width_and_style() {
    let mut a = Line::new(3);
    let mut b = Line::new(3);
    assert_eq!(a, b);
    a.write_char(Vec2::new(0, 0), 'x', Style::default());
    assert_ne!(a, b);
    b.write_char(Vec2::new(0, 0), 'y', Style::default());
    assert_ne!(a, b);
    b.write_char(Vec2::new(0, 0), 'x', Style::default());
    assert_eq!(a, b);
    b.write_char(Vec2::new(0, 0), '\u{301}', Style::default());
    assert_ne!(a, b);
    a.write_char(Vec2::new(0, 0), '\u{301}', Style::default());
    assert_eq!(a, b);
    assert_eq!(a.cells()[0], b.cells()[0]);
    a.write_char(Vec2::new(1, 0), ' ', Style::new(Color::Red, Color::Default, Default::default()));
    assert_ne!(a, b);
    assert_ne!(a.cells()[1], b.cells()[1]);
    assert_ne!(Grid::new((2, 1)), Grid::new((1, 2)));
    assert_ne!(Buffer::from(Grid::new((2, 1))), Buffer::from(Grid::new((2, 2))));
    let mut titled = Buffer::from(Grid::new((2, 1)));
    titled.title = "t".to_owned();
    assert_ne!(titled, Buffer::from(Grid::new((2, 1))));
    assert_eq!(titled.clone(), titled);
}

#[test]
fn a_character_wider_than_two_columns_is_dropped() {
    let mut line = Line::new(4);
    let before = line.clone();
    line.write_char(Vec2::new(0, 0), '\u{17D8}', Style::default());
    assert_eq!(line, before);
}
