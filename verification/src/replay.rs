//! What a terminal shows after the calls of a pass: the frame that the pass was made for.

use crate::backend::screen::{clamp_column, Screen};
use crate::backend::OperationView;
use crate::buffer::grid::{grid_wf, rows_written};
use crate::buffer::line::{lemma_write_glyph_wf, line_wf, write_glyph, write_narrow, write_wide};
use crate::buffer::{BufferView, CellView};
use crate::cursor::Cursor;
use crate::diff::{
    call_if, cell_ops, cell_pass, cursor_ops, frame_pass, grid_pass, lemma_style_ops_upto_all,
    pen_after, row_pass, style_call, style_differs, style_ops, style_ops_upto, Pass, Pen,
};
use crate::style::{Attributes, Color, Style};
use crate::vec2::Vec2;
use crate::width::display_width;
use vstd::prelude::*;

verus! {

/// A run that ends with a call made on a condition.
proof fn lemma_run_when(s: Screen, ops: Seq<OperationView>, condition: bool, op: OperationView)
    ensures
        s.run(ops + call_if(condition, op)) == (if condition {
            s.run(ops).apply(op)
        } else {
            s.run(ops)
        }),
        s.takes_all(ops + call_if(condition, op)) == (s.takes_all(ops) && (condition ==> s.run(
            ops,
        ).takes(op))),
{
    s.lemma_run_concat(ops, call_if(condition, op));
    s.run(ops).lemma_run_one(op);
    s.lemma_takes_concat(ops, call_if(condition, op));
    s.run(ops).lemma_takes_one(op);
}

/// The style with its first `k` fields taken from `to` and the others from `from`.
spec fn style_upto(from: Style, to: Style, k: int) -> Style {
    Style {
        foreground: if k >= 1 {
            to.foreground
        } else {
            from.foreground
        },
        background: if k >= 2 {
            to.background
        } else {
            from.background
        },
        attributes: Attributes {
            intensity: if k >= 3 {
                to.attributes.intensity
            } else {
                from.attributes.intensity
            },
            italic: if k >= 4 {
                to.attributes.italic
            } else {
                from.attributes.italic
            },
            underlined: if k >= 5 {
                to.attributes.underlined
            } else {
                from.attributes.underlined
            },
            blinking: if k >= 6 {
                to.attributes.blinking
            } else {
                from.attributes.blinking
            },
            crossed_out: if k >= 7 {
                to.attributes.crossed_out
            } else {
                from.attributes.crossed_out
            },
        },
    }
}

/// The style calls for the first `k` fields give a terminal those fields.
proof fn lemma_run_style_upto(s: Screen, to: Style, k: nat)
    requires
        k <= 7,
    ensures
        s.run(style_ops_upto(s.style, to, k)) == s.styled(style_upto(s.style, to, k as int)),
        s.takes_all(style_ops_upto(s.style, to, k)),
    decreases k,
{
    let from = s.style;
    if k == 0 {
        s.lemma_run_one(OperationView::Flush);
        s.lemma_takes_one(OperationView::Flush);
        assert(style_upto(from, to, 0) == from);
    } else {
        lemma_run_style_upto(s, to, (k - 1) as nat);
        let ops = style_ops_upto(from, to, (k - 1) as nat);
        let reached = style_upto(from, to, k - 1);
        let next = style_upto(from, to, k as int);
        let condition = style_differs(from, to, k as int);
        let op = style_call(to, k as int);
        lemma_run_when(s, ops, condition, op);
        if condition {
            assert(s.styled(reached).apply(op) == s.styled(next));
        } else {
            assert(reached == next);
        }
    }
}

/// The style calls give a terminal the style that they were made for.
pub proof fn lemma_run_style(s: Screen, to: Style)
    ensures
        s.run(style_ops(s.style, to)) == s.styled(to),
        s.takes_all(style_ops(s.style, to)),
{
    lemma_run_style_upto(s, to, 7);
    lemma_style_ops_upto_all(s.style, to);
    assert(style_upto(s.style, to, 7) == to);
}

/// The cell with more marks added to its glyph.
pub open spec fn with_marks(cell: CellView, marks: Seq<char>) -> CellView {
    match cell {
        CellView::Char { contents, double, style } => CellView::Char {
            contents: contents + marks,
            double,
            style,
        },
        CellView::Continuation => CellView::Continuation,
    }
}

/// The terminal with another cell at `at`.
pub open spec fn with_cell(s: Screen, at: Vec2<u16>, cell: CellView) -> Screen {
    Screen {
        buffer: BufferView {
            rows: s.buffer.rows.update(
                at.y as int,
                s.buffer.rows[at.y as int].update(at.x as int, cell),
            ),
            ..s.buffer
        },
        ..s
    }
}

/// Marks that are written behind a glyph join the glyph's cell.
proof fn lemma_typed_marks(s: Screen, marks: Seq<char>, at: Vec2<u16>)
    requires
        at.y < s.buffer.rows.len(),
        at.x < s.buffer.rows[at.y as int].len(),
        s.buffer.rows[at.y as int][at.x as int] is Char,
        forall|i: int| 0 <= i < marks.len() ==> display_width(#[trigger] marks[i]) == Some(0usize),
    ensures
        s.typed(marks, Some(at)) == with_cell(
            s,
            at,
            with_marks(s.buffer.rows[at.y as int][at.x as int], marks),
        ),
    decreases marks.len(),
{
    let row = s.buffer.rows[at.y as int];
    let cell = row[at.x as int];
    if marks.len() == 0 {
        assert(with_marks(cell, marks) =~~= cell);
        assert(row.update(at.x as int, cell) =~= row);
        assert(s.buffer.rows.update(at.y as int, row) =~= s.buffer.rows);
    } else {
        let c = marks[0];
        let rest = marks.drop_first();
        assert(display_width(c) == Some(0usize));
        assert(c != '\0');
        let inked = s.inked(at, c);
        assert(write_glyph(row, at.x as int, c, s.style) == row.update(
            at.x as int,
            cell.with_mark(c),
        ));
        assert(inked == with_cell(s, at, cell.with_mark(c)));
        assert forall|i: int| 0 <= i < rest.len() implies display_width(#[trigger] rest[i]) == Some(
            0usize,
        ) by {
            assert(rest[i] == marks[i + 1]);
        }
        lemma_typed_marks(inked, rest, at);
        assert(with_marks(cell.with_mark(c), rest) =~~= with_marks(cell, marks)) by {
            assert(cell->contents.push(c) + rest =~= cell->contents + marks);
        }
        let cell2 = with_marks(cell, marks);
        assert(inked.buffer.rows[at.y as int].update(at.x as int, cell2) =~= row.update(
            at.x as int,
            cell2,
        ));
        assert(inked.buffer.rows.update(at.y as int, row.update(at.x as int, cell2))
            =~= s.buffer.rows.update(at.y as int, row.update(at.x as int, cell2)));
    }
}

/// The row after a cell's contents were written at column `x`: the glyph is written as
/// [`write_glyph`] says, and the cell gets the whole contents.
pub open spec fn row_with(row: Seq<CellView>, x: int, cell: CellView) -> Seq<CellView> {
    write_glyph(row, x, cell->contents[0], cell->style).update(x, cell)
}

/// The terminal after a cell's contents were written at the cursor, in the cell's style.
pub open spec fn cell_written(s: Screen, cell: CellView) -> Screen {
    Screen {
        buffer: BufferView {
            rows: s.buffer.rows.update(
                s.pos.y as int,
                row_with(s.buffer.rows[s.pos.y as int], s.pos.x as int, cell),
            ),
            ..s.buffer
        },
        ..s
    }.moved(
        Vec2 { x: clamp_column(s.pos.x + cell.columns(), s.buffer.width), y: s.pos.y },
    )
}

/// Writing the contents of a well-formed cell puts the cell at the cursor.
proof fn lemma_typed_cell(s: Screen, cell: CellView)
    requires
        cell is Char,
        cell.wf(),
        s.style == cell->style,
        s.pos.y < s.buffer.rows.len(),
        s.pos.x + cell.columns() <= s.buffer.rows[s.pos.y as int].len(),
        line_wf(s.buffer.rows[s.pos.y as int]),
    ensures
        s.typed(cell->contents, None) == cell_written(s, cell),
{
    let contents = cell->contents;
    let c = contents[0];
    let marks = contents.drop_first();
    let columns: int = if cell.is_wide() {
        2
    } else {
        1
    };
    let at = s.pos;
    let row = s.buffer.rows[at.y as int];
    let placed = s.placed(c, columns);
    assert(s.typed(contents, None) == placed.typed(marks, Some(at)));
    let glyph_row = write_glyph(row, at.x as int, c, s.style);
    lemma_write_glyph_wf(row, at.x as int, c, s.style);
    assert(c != '\0');
    assert(glyph_row[at.x as int] == CellView::glyph(c, cell.is_wide(), s.style)) by {
        if cell.is_wide() {
            assert(glyph_row == write_wide(row, at.x as int, c, s.style));
        } else {
            assert(glyph_row == write_narrow(row, at.x as int, c, s.style));
        }
    }
    assert(placed.buffer.rows =~= s.buffer.rows.update(at.y as int, glyph_row));
    assert forall|i: int| 0 <= i < marks.len() implies display_width(#[trigger] marks[i]) == Some(
        0usize,
    ) by {
        assert(marks[i] == contents[i + 1]);
    }
    lemma_typed_marks(placed, marks, at);
    assert(with_marks(CellView::glyph(c, cell.is_wide(), s.style), marks) =~~= cell) by {
        assert(seq![c] + marks =~= contents);
    }
    assert(placed.buffer.rows.update(at.y as int, glyph_row.update(at.x as int, cell))
        =~= s.buffer.rows.update(at.y as int, row_with(row, at.x as int, cell)));
}

/// What a row of the terminal looks like while a pass goes through it, before it
/// comes to column `x`.
///
/// The cells before `x` are those of the next frame. A cell from `x` on is still the
/// shown one, unless the write of a cell before it has left a space where the shown
/// frame had the second half of a glyph, or has put the second half of a glyph at `x`.
pub open spec fn row_midway(model: Seq<CellView>, prev: Seq<CellView>, next: Seq<CellView>, x: int) -> bool {
    &&& line_wf(model)
    &&& model.len() == next.len()
    &&& forall|j: int| 0 <= j < x && j < model.len() ==> #[trigger] model[j] == next[j]
    &&& forall|j: int|
        x <= j < model.len() ==> {
            ||| #[trigger] model[j] == prev[j]
            ||| (prev[j] is Continuation && model[j] is Char && !model[j].is_wide() && next[j] is Char)
            ||| (j == x && x > 0 && next[x - 1].is_wide() && model[j] is Continuation)
        }
}

/// A cell that the pass leaves alone is as the next frame has it.
proof fn lemma_midway_skip(model: Seq<CellView>, prev: Seq<CellView>, next: Seq<CellView>, x: int)
    requires
        0 <= x < next.len(),
        prev.len() == next.len(),
        line_wf(prev),
        line_wf(next),
        row_midway(model, prev, next, x),
        next[x] == prev[x] || next[x] is Continuation,
    ensures
        row_midway(model, prev, next, x + 1),
{
    assert(next[x] is Continuation <==> (x > 0 && next[x - 1].is_wide()));
    assert(model[x] is Continuation <==> (x > 0 && model[x - 1].is_wide()));
    assert(prev[x] is Continuation <==> (x > 0 && prev[x - 1].is_wide()));
    if x > 0 {
        assert(model[x - 1] == next[x - 1]);
    }
    assert(model[x] == next[x]);
    if x + 1 < model.len() {
        assert(model[x + 1] is Continuation <==> model[x].is_wide());
        assert(next[x + 1] is Continuation <==> next[x].is_wide());
    }
}

/// A cell that the pass writes is as the next frame has it afterwards, and the cells
/// behind it are ready for the pass to go on.
proof fn lemma_midway_write(model: Seq<CellView>, prev: Seq<CellView>, next: Seq<CellView>, x: int)
    requires
        0 <= x < next.len(),
        prev.len() == next.len(),
        line_wf(prev),
        line_wf(next),
        row_midway(model, prev, next, x),
        next[x] != prev[x],
        next[x] is Char,
    ensures
        row_midway(row_with(model, x, next[x]), prev, next, x + 1),
        row_with(model, x, next[x]).len() == model.len(),
{
    let cell = next[x];
    let c = cell->contents[0];
    let style = cell->style;
    assert(cell.wf());
    assert(c != '\0');
    let glyph_row = write_glyph(model, x, c, style);
    let after = row_with(model, x, cell);
    lemma_write_glyph_wf(model, x, c, style);
    assert(next[x] is Continuation <==> (x > 0 && next[x - 1].is_wide()));
    assert(model[x] is Continuation <==> (x > 0 && model[x - 1].is_wide()));
    assert(prev[x] is Continuation <==> (x > 0 && prev[x - 1].is_wide()));
    assert(!next.last().is_wide());
    if x > 0 {
        assert(model[x - 1] == next[x - 1]);
    }
    assert(!(model[x] is Continuation));
    if x + 1 < model.len() {
        assert(model[x + 1] is Continuation <==> model[x].is_wide());
        assert(next[x + 1] is Continuation <==> next[x].is_wide());
        assert(prev[x + 1] is Continuation <==> prev[x].is_wide());
    }
    if x + 2 < model.len() {
        assert(model[x + 2] is Continuation <==> model[x + 1].is_wide());
        assert(next[x + 2] is Continuation <==> next[x + 1].is_wide());
        assert(prev[x + 2] is Continuation <==> prev[x + 1].is_wide());
    }
    if cell.is_wide() {
        assert(glyph_row == write_wide(model, x, c, style));
    } else {
        assert(glyph_row == write_narrow(model, x, c, style));
    }
    assert(glyph_row[x] == CellView::glyph(c, cell.is_wide(), style));
    assert(line_wf(after)) by {
        assert forall|i: int| 0 <= i < after.len() implies (#[trigger] after[i]).wf() by {
            if i != x {
                assert(glyph_row[i].wf());
            }
        }
        assert forall|i: int| 0 <= i < after.len() implies ((#[trigger] after[i]) is Continuation <==> (
        i > 0 && after[i - 1].is_wide())) by {
            assert(glyph_row[i] is Continuation <==> (i > 0 && glyph_row[i - 1].is_wide()));
        }
        assert(!glyph_row.last().is_wide());
    }
    assert forall|j: int| 0 <= j < x + 1 && j < after.len() implies #[trigger] after[j] == next[j] by {
        if j < x {
            assert(model[j] == next[j]);
            assert(glyph_row[j] == model[j]);
        }
    }
    assert forall|j: int| x + 1 <= j < after.len() implies {
        ||| #[trigger] after[j] == prev[j]
        ||| (prev[j] is Continuation && after[j] is Char && !after[j].is_wide() && next[j] is Char)
        ||| (j == x + 1 && x + 1 > 0 && next[x].is_wide() && after[j] is Continuation)
    } by {
        assert(after[j] == glyph_row[j]);
        assert({
            ||| model[j] == prev[j]
            ||| (prev[j] is Continuation && model[j] is Char && !model[j].is_wide() && next[j] is Char)
            ||| (j == x && x > 0 && next[x - 1].is_wide() && model[j] is Continuation)
        });
        if j > x + 2 {
            assert(glyph_row[j] == model[j]);
        }
    }
}

/// What the writes of a pass leave alone of a terminal: its size and title, and whether
/// and how its cursor is shown.
pub open spec fn same_frame_around(s: Screen, t: Screen) -> bool {
    &&& t.buffer.width == s.buffer.width
    &&& t.buffer.rows.len() == s.buffer.rows.len()
    &&& t.buffer.title == s.buffer.title
    &&& match s.buffer.cursor {
        Some(shown) => t.buffer.cursor matches Some(cursor) && cursor.shape == shown.shape
            && cursor.blinking == shown.blinking,
        None => t.buffer.cursor is None,
    }
}

/// The calls for one cell bring the cell on the terminal into its next state.
proof fn lemma_cell_replay(s: Screen, prev: CellView, next: CellView, pos: Vec2<u16>, pen: Pen)
    requires
        s.wf(),
        s.style == pen.style,
        s.pos == pen.pos,
        pos.y < s.buffer.rows.len(),
        pos.x < s.buffer.width,
        next.wf(),
        next.is_wide() ==> pos.x + 1 < s.buffer.width,
    ensures
        ({
            let pass = cell_pass(prev, next, pos, s.buffer.width, pen);
            let t = s.run(pass.ops);
            &&& s.takes_all(pass.ops)
            &&& t.style == pass.pen.style
            &&& t.pos == pass.pen.pos
            &&& same_frame_around(s, t)
            &&& t.buffer.cursor matches Some(cursor) ==> cursor.pos == t.pos
            &&& t.buffer.rows == (if next == prev || next is Continuation {
                s.buffer.rows
            } else {
                s.buffer.rows.update(
                    pos.y as int,
                    row_with(s.buffer.rows[pos.y as int], pos.x as int, next),
                )
            })
        }),
{
    let width = s.buffer.width;
    let pass = cell_pass(prev, next, pos, width, pen);
    if next == prev || next is Continuation {
        s.lemma_run_one(OperationView::Flush);
        s.lemma_takes_one(OperationView::Flush);
    } else {
        let contents = next->contents;
        let style = next->style;
        let styling = style_ops(pen.style, style);
        let moving = call_if(pen.pos != pos, OperationView::SetCursorPos(pos));
        let write = OperationView::Write(contents);
        lemma_run_style(s, style);
        let s1 = s.run(styling);
        lemma_run_when(s, styling, pen.pos != pos, OperationView::SetCursorPos(pos));
        let s2 = s.run(styling + moving);
        assert(s2 == s1.moved(pos));
        s.lemma_run_concat(styling + moving, seq![write]);
        s2.lemma_run_one(write);
        s.lemma_takes_concat(styling + moving, seq![write]);
        s2.lemma_takes_one(write);
        assert(s2.takes(write));
        let t = s.run(pass.ops);
        assert(t == s2.typed(contents, None));
        assert(line_wf(s2.buffer.rows[pos.y as int]));
        assert(s2.buffer.rows[pos.y as int].len() == width);
        lemma_typed_cell(s2, next);
        assert(t == cell_written(s2, next));
    }
}

/// The calls for the first `upto` cells of a row bring those cells on the terminal into
/// their next state and leave the other rows alone.
proof fn lemma_row_replay(
    s: Screen,
    prev: Seq<CellView>,
    next: Seq<CellView>,
    y: u16,
    pen: Pen,
    upto: nat,
)
    requires
        s.wf(),
        s.style == pen.style,
        s.pos == pen.pos,
        y < s.buffer.rows.len(),
        s.buffer.rows[y as int] == prev,
        line_wf(prev),
        line_wf(next),
        prev.len() == s.buffer.width,
        next.len() == s.buffer.width,
        upto <= s.buffer.width,
    ensures
        ({
            let pass = row_pass(prev, next, y, s.buffer.width, pen, upto);
            let t = s.run(pass.ops);
            &&& s.takes_all(pass.ops)
            &&& t.wf()
            &&& t.style == pass.pen.style
            &&& t.pos == pass.pen.pos
            &&& same_frame_around(s, t)
            &&& row_midway(t.buffer.rows[y as int], prev, next, upto as int)
            &&& forall|k: int|
                0 <= k < t.buffer.rows.len() && k != y ==> #[trigger] t.buffer.rows[k]
                    == s.buffer.rows[k]
        }),
    decreases upto,
{
    let width = s.buffer.width;
    if upto == 0 {
        s.lemma_run_one(OperationView::Flush);
        s.lemma_takes_one(OperationView::Flush);
    } else {
        let x = (upto - 1) as int;
        lemma_row_replay(s, prev, next, y, pen, (upto - 1) as nat);
        let before = row_pass(prev, next, y, width, pen, (upto - 1) as nat);
        let mid = s.run(before.ops);
        let pos = Vec2 { x: x as u16, y };
        let step = cell_pass(prev[x], next[x], pos, width, before.pen);
        s.lemma_run_concat(before.ops, step.ops);
        s.lemma_takes_concat(before.ops, step.ops);
        let t = mid.run(step.ops);
        assert(next[x].wf());
        assert(!next.last().is_wide());
        lemma_cell_replay(mid, prev[x], next[x], pos, before.pen);
        let model = mid.buffer.rows[y as int];
        if next[x] == prev[x] || next[x] is Continuation {
            lemma_midway_skip(model, prev, next, x);
        } else {
            lemma_midway_write(model, prev, next, x);
            assert(t.buffer.rows[y as int] == row_with(model, x, next[x]));
            assert(grid_wf(t.buffer.rows, width as nat)) by {
                assert forall|k: int| 0 <= k < t.buffer.rows.len() implies line_wf(
                    #[trigger] t.buffer.rows[k],
                ) && t.buffer.rows[k].len() == width by {
                    if k != y {
                        assert(t.buffer.rows[k] == mid.buffer.rows[k]);
                        assert(line_wf(mid.buffer.rows[k]));
                    }
                }
            }
        }
    }
}

/// The calls for the first `upto` rows bring those rows on the terminal into their next
/// state and leave the rows below them alone.
proof fn lemma_grid_replay(
    s: Screen,
    prev: Seq<Seq<CellView>>,
    next: Seq<Seq<CellView>>,
    pen: Pen,
    upto: nat,
)
    requires
        s.wf(),
        s.style == pen.style,
        s.pos == pen.pos,
        s.buffer.rows == prev,
        grid_wf(next, s.buffer.width as nat),
        next.len() == prev.len(),
        upto <= prev.len(),
    ensures
        ({
            let pass = grid_pass(prev, next, s.buffer.width, pen, upto);
            let t = s.run(pass.ops);
            &&& s.takes_all(pass.ops)
            &&& t.wf()
            &&& t.style == pass.pen.style
            &&& t.pos == pass.pen.pos
            &&& same_frame_around(s, t)
            &&& forall|k: int| 0 <= k < upto ==> #[trigger] t.buffer.rows[k] == next[k]
            &&& forall|k: int| upto <= k < prev.len() ==> #[trigger] t.buffer.rows[k] == prev[k]
        }),
    decreases upto,
{
    let width = s.buffer.width;
    if upto == 0 {
        s.lemma_run_one(OperationView::Flush);
        s.lemma_takes_one(OperationView::Flush);
    } else {
        let y = (upto - 1) as int;
        lemma_grid_replay(s, prev, next, pen, (upto - 1) as nat);
        let before = grid_pass(prev, next, width, pen, (upto - 1) as nat);
        let mid = s.run(before.ops);
        let row = row_pass(prev[y], next[y], y as u16, width, before.pen, width as nat);
        s.lemma_run_concat(before.ops, row.ops);
        s.lemma_takes_concat(before.ops, row.ops);
        let t = mid.run(row.ops);
        assert(mid.buffer.rows[y] == prev[y]);
        assert(line_wf(prev[y]) && prev[y].len() == width);
        assert(line_wf(next[y]) && next[y].len() == width);
        lemma_row_replay(mid, prev[y], next[y], y as u16, before.pen, width as nat);
        assert(t.buffer.rows[y] =~= next[y]);
    }
}

/// The cursor calls bring the terminal's cursor into its next state.
proof fn lemma_cursor_replay(s: Screen, prev: Option<Cursor>, next: Option<Cursor>)
    requires
        s.wf(),
        match prev {
            Some(shown) => s.buffer.cursor matches Some(cursor) && cursor.shape == shown.shape
                && cursor.blinking == shown.blinking,
            None => s.buffer.cursor is None,
        },
    ensures
        ({
            let t = s.run(cursor_ops(prev, next, s.pos));
            &&& s.takes_all(cursor_ops(prev, next, s.pos))
            &&& t.buffer.cursor == next
            &&& t.buffer.rows == s.buffer.rows
            &&& t.buffer.title == s.buffer.title
            &&& t.buffer.width == s.buffer.width
            &&& t.style == s.style
            &&& t.pos == (match next {
                Some(cursor) => cursor.pos,
                None => s.pos,
            })
        }),
{
    let e = Seq::<OperationView>::empty();
    s.lemma_run_one(OperationView::Flush);
    s.lemma_takes_one(OperationView::Flush);
    match next {
        Some(cursor) => {
            let c1 = prev is None;
            let c2 = match prev {
                Some(shown) => shown.shape != cursor.shape,
                None => true,
            };
            let c3 = match prev {
                Some(shown) => shown.blinking != cursor.blinking,
                None => true,
            };
            let c4 = s.pos != cursor.pos;
            let w1 = call_if(c1, OperationView::ShowCursor);
            let w2 = call_if(c2, OperationView::SetCursorShape(cursor.shape));
            let w3 = call_if(c3, OperationView::SetCursorBlinking(cursor.blinking));
            assert(e + w1 =~= w1);
            lemma_run_when(s, e, c1, OperationView::ShowCursor);
            lemma_run_when(s, w1, c2, OperationView::SetCursorShape(cursor.shape));
            lemma_run_when(s, w1 + w2, c3, OperationView::SetCursorBlinking(cursor.blinking));
            lemma_run_when(s, w1 + w2 + w3, c4, OperationView::SetCursorPos(cursor.pos));
            let s3 = s.run(w1 + w2 + w3);
            assert(s3.buffer.cursor == Some(Cursor { pos: s.pos, ..cursor }));
        },
        None => {
            assert(e + call_if(prev is Some, OperationView::HideCursor) =~= call_if(
                prev is Some,
                OperationView::HideCursor,
            ));
            lemma_run_when(s, e, prev is Some, OperationView::HideCursor);
        },
    }
}

/// A terminal that shows one frame shows the next frame after the calls of the pass
/// from the one to the other, for any two frames of the same size.
///
/// The terminal and the pen must agree at the start: the terminal writes in the pen's
/// style, and its cursor stands where the pen has it. They agree again after the pass,
/// so that the next pass can follow.
pub proof fn lemma_pass_shows_next_frame(s: Screen, next: BufferView, pen: Pen)
    requires
        s.wf(),
        next.wf(),
        next.width == s.buffer.width,
        next.rows.len() == s.buffer.rows.len(),
        s.style == pen.style,
        s.pos == pen.pos,
    ensures
        s.run(frame_pass(s.buffer, next, pen).ops).buffer == next,
        s.run(frame_pass(s.buffer, next, pen).ops).style == frame_pass(s.buffer, next, pen).pen.style,
        s.run(frame_pass(s.buffer, next, pen).ops).pos == frame_pass(s.buffer, next, pen).pen.pos,
        s.run(frame_pass(s.buffer, next, pen).ops).wf(),
{
    lemma_frame_replay(s, next, pen);
}

/// A terminal can take each call of a pass when its turn comes: every text that the
/// pass writes is one glyph with its marks, without a control character, and is written
/// in a row that has the columns for it from the cursor on.
///
/// The terminal and the pen must agree at the start, as for
/// [`lemma_pass_shows_next_frame`].
pub proof fn lemma_pass_writes_within_rows(s: Screen, next: BufferView, pen: Pen)
    requires
        s.wf(),
        next.wf(),
        next.width == s.buffer.width,
        next.rows.len() == s.buffer.rows.len(),
        s.style == pen.style,
        s.pos == pen.pos,
    ensures
        s.takes_all(frame_pass(s.buffer, next, pen).ops),
{
    lemma_frame_replay(s, next, pen);
}

/// The calls of a pass, stretch by stretch: the title, the cells, the background and
/// the cursor.
proof fn lemma_frame_replay(s: Screen, next: BufferView, pen: Pen)
    requires
        s.wf(),
        next.wf(),
        next.width == s.buffer.width,
        next.rows.len() == s.buffer.rows.len(),
        s.style == pen.style,
        s.pos == pen.pos,
    ensures
        ({
            let pass = frame_pass(s.buffer, next, pen);
            let t = s.run(pass.ops);
            &&& s.takes_all(pass.ops)
            &&& t.wf()
            &&& t.buffer == next
            &&& t.style == pass.pen.style
            &&& t.pos == pass.pen.pos
        }),
{
    let prev = s.buffer;
    let width = next.width;
    let cells = grid_pass(prev.rows, next.rows, width, pen, next.rows.len());
    let titling = call_if(prev.title != next.title, OperationView::SetTitle(next.title));
    let clear = OperationView::SetBackground(Color::Default);
    let pointing = cursor_ops(prev.cursor, next.cursor, cells.pen.pos);
    let e = Seq::<OperationView>::empty();
    s.lemma_run_one(OperationView::Flush);
    s.lemma_takes_one(OperationView::Flush);
    assert(e + titling =~= titling);
    lemma_run_when(s, e, prev.title != next.title, OperationView::SetTitle(next.title));
    let s1 = s.run(titling);
    assert(s1 == Screen { buffer: BufferView { title: next.title, ..prev }, ..s });
    s.lemma_run_concat(titling, cells.ops);
    s.lemma_takes_concat(titling, cells.ops);
    lemma_grid_replay(s1, prev.rows, next.rows, pen, next.rows.len());
    let s2 = s1.run(cells.ops);
    assert(s2.buffer.rows =~= next.rows);
    s.lemma_run_concat(titling + cells.ops, seq![clear]);
    s.lemma_takes_concat(titling + cells.ops, seq![clear]);
    s2.lemma_run_one(clear);
    s2.lemma_takes_one(clear);
    let s3 = s2.apply(clear);
    s.lemma_run_concat(titling + cells.ops + seq![clear], pointing);
    s.lemma_takes_concat(titling + cells.ops + seq![clear], pointing);
    lemma_cursor_replay(s3, prev.cursor, next.cursor);
    let s4 = s3.run(pointing);
    assert(s4.buffer =~~= next);
}

/// Where the next frame is the one that the terminal shows, the pass writes no cell:
/// it resets the background color and, where a cursor is shown away from where the pen
/// has it, moves the cursor there. It makes no other call. So for a pen that agrees with
/// the terminal, whose shown cursor is where the pen has it, the reset of the background
/// color is the only call.
pub proof fn lemma_pass_between_equal_frames(frame: BufferView, pen: Pen)
    ensures
        frame_pass(frame, frame, pen).ops == seq![OperationView::SetBackground(Color::Default)]
            + call_if(
            frame.cursor matches Some(cursor) && cursor.pos != pen.pos,
            OperationView::SetCursorPos(frame.cursor->0.pos),
        ),
        (frame.cursor matches Some(cursor) ==> cursor.pos == pen.pos) ==> frame_pass(
            frame,
            frame,
            pen,
        ).ops == seq![OperationView::SetBackground(Color::Default)],
        frame_pass(frame, frame, pen).pen == (Pen {
            style: Style { background: Color::Default, ..pen.style },
            pos: match frame.cursor {
                Some(cursor) => cursor.pos,
                None => pen.pos,
            },
        }),
{
    lemma_grid_pass_between_equal_rows(frame.rows, frame.width, pen, frame.rows.len());
    let e = Seq::<OperationView>::empty();
    let clear = seq![OperationView::SetBackground(Color::Default)];
    let pointing = cursor_ops(frame.cursor, frame.cursor, pen.pos);
    assert(pointing =~= call_if(
        frame.cursor matches Some(cursor) && cursor.pos != pen.pos,
        OperationView::SetCursorPos(frame.cursor->0.pos),
    ));
    assert(e + e + clear + pointing =~= clear + pointing);
}

/// Rows that have not changed cost no call, and leave the pen as it is.
pub proof fn lemma_grid_pass_between_equal_rows(rows: Seq<Seq<CellView>>, width: u16, pen: Pen, upto: nat)
    ensures
        grid_pass(rows, rows, width, pen, upto) == (Pass { ops: Seq::empty(), pen }),
    decreases upto,
{
    if upto > 0 {
        lemma_grid_pass_between_equal_rows(rows, width, pen, (upto - 1) as nat);
        lemma_row_pass_between_equal_rows(rows[upto - 1], (upto - 1) as u16, width, pen, width as nat);
        assert(Seq::<OperationView>::empty() + Seq::<OperationView>::empty() =~= Seq::<
            OperationView,
        >::empty());
    }
}

/// A row that has not changed costs no call, and leaves the pen as it is.
pub proof fn lemma_row_pass_between_equal_rows(row: Seq<CellView>, y: u16, width: u16, pen: Pen, upto: nat)
    ensures
        row_pass(row, row, y, width, pen, upto) == (Pass { ops: Seq::empty(), pen }),
    decreases upto,
{
    if upto > 0 {
        lemma_row_pass_between_equal_rows(row, y, width, pen, (upto - 1) as nat);
        assert(Seq::<OperationView>::empty() + Seq::<OperationView>::empty() =~= Seq::<
            OperationView,
        >::empty());
    }
}

} // verus!
