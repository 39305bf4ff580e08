//! Frame reconciliation: the backend calls that turn the frame a terminal shows into
//! the next one, with no call for what has not changed.

use crate::backend::screen::{clamp_column, Screen};
use crate::backend::{shown_after, Bound, OperationView};
use crate::buffer::{Buffer, BufferView, Cell, CellKind, CellView, Grid, Line};
use crate::cursor::Cursor;
use crate::style::{Color, Intensity, Style};
use crate::vec2::Vec2;
use vstd::prelude::*;

verus! {

/// What the renderer remembers of the backend: the style that the backend was last told
/// to write in, and where the backend's cursor was left.
#[derive(Debug, Clone, Copy, PartialEq, Eq, Structural)]
pub struct Pen {
    /// The style that the backend writes in.
    pub style: Style,
    /// The position of the backend's cursor.
    pub pos: Vec2<u16>,
}

/// The calls of one stretch of a pass over two frames, and the pen after them.
pub struct Pass {
    /// The calls, in order.
    pub ops: Seq<OperationView>,
    /// The pen after the calls.
    pub pen: Pen,
}

/// The call, where the condition holds; no call otherwise.
pub open spec fn call_if(condition: bool, op: OperationView) -> Seq<OperationView> {
    if condition {
        seq![op]
    } else {
        Seq::empty()
    }
}

/// The calls that change the backend's style from one style to another: one call for
/// each field in which the two differ, in the order foreground, background, intensity,
/// italic, underlined, blinking, crossed out.
pub open spec fn style_ops(from: Style, to: Style) -> Seq<OperationView> {
    call_if(from.foreground != to.foreground, OperationView::SetForeground(to.foreground)) + call_if(
        from.background != to.background,
        OperationView::SetBackground(to.background),
    ) + call_if(
        from.attributes.intensity != to.attributes.intensity,
        OperationView::SetIntensity(to.attributes.intensity),
    ) + call_if(
        from.attributes.italic != to.attributes.italic,
        OperationView::SetItalic(to.attributes.italic),
    ) + call_if(
        from.attributes.underlined != to.attributes.underlined,
        OperationView::SetUnderlined(to.attributes.underlined),
    ) + call_if(
        from.attributes.blinking != to.attributes.blinking,
        OperationView::SetBlinking(to.attributes.blinking),
    ) + call_if(
        from.attributes.crossed_out != to.attributes.crossed_out,
        OperationView::SetCrossedOut(to.attributes.crossed_out),
    )
}

/// The call that sets the `k`th field of the style, counted from one in the order of
/// [`style_ops`].
pub open spec fn style_call(to: Style, k: int) -> OperationView {
    if k == 1 {
        OperationView::SetForeground(to.foreground)
    } else if k == 2 {
        OperationView::SetBackground(to.background)
    } else if k == 3 {
        OperationView::SetIntensity(to.attributes.intensity)
    } else if k == 4 {
        OperationView::SetItalic(to.attributes.italic)
    } else if k == 5 {
        OperationView::SetUnderlined(to.attributes.underlined)
    } else if k == 6 {
        OperationView::SetBlinking(to.attributes.blinking)
    } else {
        OperationView::SetCrossedOut(to.attributes.crossed_out)
    }
}

/// Whether the two styles differ in their `k`th field.
pub open spec fn style_differs(from: Style, to: Style, k: int) -> bool {
    if k == 1 {
        from.foreground != to.foreground
    } else if k == 2 {
        from.background != to.background
    } else if k == 3 {
        from.attributes.intensity != to.attributes.intensity
    } else if k == 4 {
        from.attributes.italic != to.attributes.italic
    } else if k == 5 {
        from.attributes.underlined != to.attributes.underlined
    } else if k == 6 {
        from.attributes.blinking != to.attributes.blinking
    } else {
        from.attributes.crossed_out != to.attributes.crossed_out
    }
}

/// The style calls for the first `k` fields.
pub open spec fn style_ops_upto(from: Style, to: Style, k: nat) -> Seq<OperationView>
    decreases k,
{
    if k == 0 {
        Seq::empty()
    } else {
        style_ops_upto(from, to, (k - 1) as nat) + call_if(
            style_differs(from, to, k as int),
            style_call(to, k as int),
        )
    }
}

/// The style calls are the calls for all seven fields.
pub proof fn lemma_style_ops_upto_all(from: Style, to: Style)
    ensures
        style_ops_upto(from, to, 7) == style_ops(from, to),
{
    let w1 = call_if(style_differs(from, to, 1), style_call(to, 1));
    let w2 = call_if(style_differs(from, to, 2), style_call(to, 2));
    let w3 = call_if(style_differs(from, to, 3), style_call(to, 3));
    let w4 = call_if(style_differs(from, to, 4), style_call(to, 4));
    let w5 = call_if(style_differs(from, to, 5), style_call(to, 5));
    let w6 = call_if(style_differs(from, to, 6), style_call(to, 6));
    let w7 = call_if(style_differs(from, to, 7), style_call(to, 7));
    assert(style_ops_upto(from, to, 0) =~= Seq::<OperationView>::empty());
    assert(style_ops_upto(from, to, 1) =~= w1);
    assert(style_ops_upto(from, to, 2) == w1 + w2);
    assert(style_ops_upto(from, to, 3) == w1 + w2 + w3);
    assert(style_ops_upto(from, to, 4) == w1 + w2 + w3 + w4);
    assert(style_ops_upto(from, to, 5) == w1 + w2 + w3 + w4 + w5);
    assert(style_ops_upto(from, to, 6) == w1 + w2 + w3 + w4 + w5 + w6);
    assert(style_ops_upto(from, to, 7) == w1 + w2 + w3 + w4 + w5 + w6 + w7);
    assert(style_ops(from, to) == w1 + w2 + w3 + w4 + w5 + w6 + w7);
}

/// The style calls for more fields begin with the style calls for fewer.
pub proof fn lemma_style_ops_upto_grows(from: Style, to: Style, k: nat, end: nat)
    requires
        k <= end,
    ensures
        style_ops_upto(from, to, k).len() <= style_ops_upto(from, to, end).len(),
        style_ops_upto(from, to, end) =~= style_ops_upto(from, to, k) + style_ops_upto(
            from,
            to,
            end,
        ).skip(style_ops_upto(from, to, k).len() as int),
    decreases end,
{
    if k < end {
        lemma_style_ops_upto_grows(from, to, k, (end - 1) as nat);
    }
}

/// The calls that write a cell's contents at `pos`: the style calls, a cursor move
/// unless the backend's cursor stands at `pos` already, and one write of the whole
/// contents.
pub open spec fn cell_ops(pen: Pen, pos: Vec2<u16>, contents: Seq<char>, style: Style) -> Seq<
    OperationView,
> {
    style_ops(pen.style, style) + call_if(pen.pos != pos, OperationView::SetCursorPos(pos))
        + seq![OperationView::Write(contents)]
}

/// The pen after a cell was written at `pos`: the cursor has moved on by the cell's
/// width, up to the last column.
pub open spec fn pen_after(pos: Vec2<u16>, double: bool, style: Style, width: u16) -> Pen {
    Pen {
        style,
        pos: Vec2 {
            x: clamp_column(
                pos.x + (if double {
                    2int
                } else {
                    1int
                }),
                width,
            ),
            y: pos.y,
        },
    }
}

/// The calls for one cell: none where the cell has not changed, and none for a
/// continuation cell, which is written with the glyph that it belongs to.
pub open spec fn cell_pass(prev: CellView, next: CellView, pos: Vec2<u16>, width: u16, pen: Pen) -> Pass {
    if next == prev {
        Pass { ops: Seq::empty(), pen }
    } else {
        match next {
            CellView::Char { contents, double, style } => Pass {
                ops: cell_ops(pen, pos, contents, style),
                pen: pen_after(pos, double, style, width),
            },
            CellView::Continuation => Pass { ops: Seq::empty(), pen },
        }
    }
}

/// The calls for the first `upto` cells of row `y`, from left to right.
pub open spec fn row_pass(
    prev: Seq<CellView>,
    next: Seq<CellView>,
    y: u16,
    width: u16,
    pen: Pen,
    upto: nat,
) -> Pass
    decreases upto,
{
    if upto == 0 {
        Pass { ops: Seq::empty(), pen }
    } else {
        let before = row_pass(prev, next, y, width, pen, (upto - 1) as nat);
        let cell = cell_pass(
            prev[upto - 1],
            next[upto - 1],
            Vec2 { x: (upto - 1) as u16, y },
            width,
            before.pen,
        );
        Pass { ops: before.ops + cell.ops, pen: cell.pen }
    }
}

/// The calls for the first `upto` rows, from top to bottom.
pub open spec fn grid_pass(
    prev: Seq<Seq<CellView>>,
    next: Seq<Seq<CellView>>,
    width: u16,
    pen: Pen,
    upto: nat,
) -> Pass
    decreases upto,
{
    if upto == 0 {
        Pass { ops: Seq::empty(), pen }
    } else {
        let before = grid_pass(prev, next, width, pen, (upto - 1) as nat);
        let row = row_pass(
            prev[upto - 1],
            next[upto - 1],
            (upto - 1) as u16,
            width,
            before.pen,
            width as nat,
        );
        Pass { ops: before.ops + row.ops, pen: row.pen }
    }
}

/// The calls that turn one cursor into another, for a backend whose cursor stands at
/// `pos`: the cursor is shown or hidden where that changes, its shape and blinking are
/// set where they change or the cursor is shown anew, and it is moved unless it stands
/// where it should.
pub open spec fn cursor_ops(prev: Option<Cursor>, next: Option<Cursor>, pos: Vec2<u16>) -> Seq<
    OperationView,
> {
    match next {
        Some(cursor) => call_if(prev is None, OperationView::ShowCursor) + call_if(
            match prev {
                Some(shown) => shown.shape != cursor.shape,
                None => true,
            },
            OperationView::SetCursorShape(cursor.shape),
        ) + call_if(
            match prev {
                Some(shown) => shown.blinking != cursor.blinking,
                None => true,
            },
            OperationView::SetCursorBlinking(cursor.blinking),
        ) + call_if(pos != cursor.pos, OperationView::SetCursorPos(cursor.pos)),
        None => call_if(prev is Some, OperationView::HideCursor),
    }
}

/// The calls that turn the frame `prev` into the frame `next`, for a backend in the
/// state that `pen` holds, and the pen after them.
///
/// 1. The title is set where it differs.
/// 2. The cells are gone through row by row, and each changed cell is written.
/// 3. The background color is set to the default, whatever it was.
/// 4. The cursor is brought into its new state.
///
/// The pen follows the backend's cursor: a cursor that is shown leaves it at the
/// cursor's position, a hidden one where the last write left it.
pub open spec fn frame_pass(prev: BufferView, next: BufferView, pen: Pen) -> Pass {
    let cells = grid_pass(prev.rows, next.rows, next.width, pen, next.rows.len());
    Pass {
        ops: call_if(prev.title != next.title, OperationView::SetTitle(next.title)) + cells.ops
            + seq![OperationView::SetBackground(Color::Default)] + cursor_ops(
            prev.cursor,
            next.cursor,
            cells.pen.pos,
        ),
        pen: Pen {
            style: Style { background: Color::Default, ..cells.pen.style },
            pos: match next.cursor {
                Some(cursor) => cursor.pos,
                None => cells.pen.pos,
            },
        },
    }
}

/// The terminal as a renderer takes it to be that has brought it to show `frame` and
/// remembers `pen` of it.
pub open spec fn assumed(frame: BufferView, pen: Pen) -> Screen {
    Screen { buffer: frame, pos: pen.pos, style: pen.style }
}

/// Whether the terminal that a backend keeps is in step with the renderer: it shows the
/// frame, writes in the pen's style and has its cursor where the pen has it, and a
/// cursor that it shows is shown there.
pub open spec fn in_step(kept: Option<Screen>, frame: BufferView, pen: Pen) -> bool {
    kept == Some(assumed(frame, pen)) && assumed(frame, pen).wf()
}

/// Whether the calls that a backend has taken went from `before` to `after` by a run of
/// calls that either succeeded as a whole, or was given up at the first call that
/// failed: then the calls before that one were taken, and none after it.
pub open spec fn sent<T, E>(
    before: Seq<OperationView>,
    after: Seq<OperationView>,
    result: Result<T, E>,
    ops: Seq<OperationView>,
) -> bool {
    match result {
        Ok(_) => after == before + ops,
        Err(_) => exists|n: int| 0 <= n < ops.len() && after == before + #[trigger] ops.take(n),
    }
}

/// A run that was given up is given up as a part of any longer run, too.
pub proof fn lemma_sent_within<T, E, U>(
    before: Seq<OperationView>,
    mid: Seq<OperationView>,
    after: Seq<OperationView>,
    result: Result<T, E>,
    outcome: Result<U, E>,
    first: Seq<OperationView>,
    ops: Seq<OperationView>,
    rest: Seq<OperationView>,
)
    requires
        mid == before + first,
        sent(mid, after, result, ops),
        result is Err,
        outcome is Err,
    ensures
        sent(before, after, outcome, first + ops + rest),
{
    let n = choose|n: int| 0 <= n < ops.len() && after == mid + #[trigger] ops.take(n);
    let all = first + ops + rest;
    assert(all.take(first.len() + n) =~= first + ops.take(n));
    assert(before + all.take(first.len() + n) =~= mid + ops.take(n));
}

/// A call that was recorded ([`recorded`](crate::backend::recorded)) is a run of one call.
pub proof fn lemma_recorded_sent<E>(
    before: Seq<OperationView>,
    after: Seq<OperationView>,
    result: Result<(), E>,
    op: OperationView,
)
    requires
        crate::backend::recorded(before, after, result, op),
    ensures
        sent(before, after, result, seq![op]),
{
    if result is Err {
        assert(seq![op].take(0) =~= Seq::<OperationView>::empty());
        assert(before + seq![op].take(0) =~= before);
    } else {
        assert(before + seq![op] =~= before.push(op));
    }
}

/// One more stretch of a run: where it succeeds the run has grown by it, and where it
/// fails the whole run is given up.
pub proof fn lemma_sent_step<T, E, U>(
    start: Seq<OperationView>,
    before: Seq<OperationView>,
    after: Seq<OperationView>,
    result: Result<T, E>,
    outcome: Result<U, E>,
    done: Seq<OperationView>,
    ops: Seq<OperationView>,
    rest: Seq<OperationView>,
    total: Seq<OperationView>,
)
    requires
        before == start + done,
        sent(before, after, result, ops),
        total =~= done + ops + rest,
        result is Err ==> outcome is Err,
    ensures
        result is Ok ==> after == start + (done + ops),
        result is Err ==> sent(start, after, outcome, total),
{
    if result is Err {
        lemma_sent_within(start, before, after, result, outcome, done, ops, rest);
    } else {
        assert(start + done + ops =~= start + (done + ops));
    }
}

/// A call that did to the backend's terminal what it should
/// ([`shown_next`](crate::backend::shown_next)) is a run of one call.
pub proof fn lemma_shown_one<E>(
    before: Option<Screen>,
    after: Option<Screen>,
    result: Result<(), E>,
    op: OperationView,
)
    requires
        crate::backend::shown_next(before, after, result, op),
    ensures
        result is Ok ==> shown_after(before, after, seq![op]),
{
    if before is Some {
        before->0.lemma_run_one(op);
    }
}

/// No call leaves the backend's terminal as it is.
pub proof fn lemma_shown_none(kept: Option<Screen>)
    ensures
        shown_after(kept, kept, Seq::empty()),
{
    if kept is Some {
        kept->0.lemma_run_one(OperationView::Flush);
    }
}

/// One more stretch of a run, for the terminal that the backend keeps.
pub proof fn lemma_shown_step(
    start: Option<Screen>,
    before: Option<Screen>,
    after: Option<Screen>,
    done: Seq<OperationView>,
    ops: Seq<OperationView>,
)
    requires
        shown_after(start, before, done),
        shown_after(before, after, ops),
    ensures
        shown_after(start, after, done + ops),
{
    if start is Some {
        start->0.lemma_run_concat(done, ops);
    }
}

/// The calls of a longer stretch of a row begin with the calls of a shorter one.
pub proof fn lemma_row_pass_grows(
    prev: Seq<CellView>,
    next: Seq<CellView>,
    y: u16,
    width: u16,
    pen: Pen,
    upto: nat,
    end: nat,
)
    requires
        upto <= end,
    ensures
        row_pass(prev, next, y, width, pen, upto).ops.len() <= row_pass(
            prev,
            next,
            y,
            width,
            pen,
            end,
        ).ops.len(),
        row_pass(prev, next, y, width, pen, end).ops =~= row_pass(prev, next, y, width, pen, upto).ops
            + row_pass(prev, next, y, width, pen, end).ops.skip(
            row_pass(prev, next, y, width, pen, upto).ops.len() as int,
        ),
    decreases end,
{
    if upto < end {
        lemma_row_pass_grows(prev, next, y, width, pen, upto, (end - 1) as nat);
    }
}

/// The calls of a longer stretch of a grid begin with the calls of a shorter one.
pub proof fn lemma_grid_pass_grows(
    prev: Seq<Seq<CellView>>,
    next: Seq<Seq<CellView>>,
    width: u16,
    pen: Pen,
    upto: nat,
    end: nat,
)
    requires
        upto <= end,
    ensures
        grid_pass(prev, next, width, pen, upto).ops.len() <= grid_pass(
            prev,
            next,
            width,
            pen,
            end,
        ).ops.len(),
        grid_pass(prev, next, width, pen, end).ops =~= grid_pass(prev, next, width, pen, upto).ops
            + grid_pass(prev, next, width, pen, end).ops.skip(
            grid_pass(prev, next, width, pen, upto).ops.len() as int,
        ),
    decreases end,
{
    if upto < end {
        lemma_grid_pass_grows(prev, next, width, pen, upto, (end - 1) as nat);
    }
}

/// The ways to cut a run of four stretches into the stretches before one of them, that
/// one, and the stretches behind it.
proof fn lemma_cut_four(
    a: Seq<OperationView>,
    b: Seq<OperationView>,
    c: Seq<OperationView>,
    d: Seq<OperationView>,
)
    ensures
        ({
            let empty = Seq::<OperationView>::empty();
            let all = a + b + c + d;
            &&& all == empty + a + (b + c + d)
            &&& all == (empty + a) + b + (c + d)
            &&& all == (empty + a + b) + c + d
            &&& all == (empty + a + b + c) + d + empty
            &&& all == empty + a + b + c + d
        }),
{
    let empty = Seq::<OperationView>::empty();
    let all = a + b + c + d;
    assert(all =~= empty + a + (b + c + d));
    assert(all =~= (empty + a) + b + (c + d));
    assert(all =~= (empty + a + b) + c + d);
    assert(all =~= (empty + a + b + c) + d + empty);
    assert(all =~= empty + a + b + c + d);
}

/// Makes the call where the condition holds.
fn send_when<B: Bound>(backend: &mut B, condition: bool, op: Change) -> (r: Result<(), B::Error>)
    requires
        old(backend).valid(),
    ensures
        final(backend).valid(),
        sent(old(backend).calls(), final(backend).calls(), r, call_if(condition, op@)),
        r is Ok ==> shown_after(
            old(backend).shows(),
            final(backend).shows(),
            call_if(condition, op@),
        ),
{
    proof {
        lemma_shown_none(backend.shows());
    }
    if !condition {
        assert(old(backend).calls() + Seq::<OperationView>::empty() =~= old(backend).calls());
        return Ok(());
    }
    let r = match op {
        Change::ShowCursor => backend.show_cursor(),
        Change::HideCursor => backend.hide_cursor(),
        Change::CursorShape(shape) => backend.set_cursor_shape(shape),
        Change::CursorBlinking(blinking) => backend.set_cursor_blinking(blinking),
        Change::CursorPos(pos) => backend.set_cursor_pos(pos),
        Change::Foreground(color) => backend.set_foreground(color),
        Change::Background(color) => backend.set_background(color),
        Change::Intensity(intensity) => backend.set_intensity(intensity),
        Change::Italic(italic) => backend.set_italic(italic),
        Change::Underlined(underlined) => backend.set_underlined(underlined),
        Change::Blinking(blinking) => backend.set_blinking(blinking),
        Change::CrossedOut(crossed_out) => backend.set_crossed_out(crossed_out),
    };
    proof {
        lemma_recorded_sent(old(backend).calls(), backend.calls(), r, op@);
        lemma_shown_one(old(backend).shows(), backend.shows(), r, op@);
    }
    r
}

/// A call that changes the backend's state and carries no text.
#[derive(Clone, Copy)]
enum Change {
    ShowCursor,
    HideCursor,
    CursorShape(crate::cursor::CursorShape),
    CursorBlinking(bool),
    CursorPos(Vec2<u16>),
    Foreground(Color),
    Background(Color),
    Intensity(Intensity),
    Italic(bool),
    Underlined(bool),
    Blinking(bool),
    CrossedOut(bool),
}

impl View for Change {
    type V = OperationView;

    closed spec fn view(&self) -> OperationView {
        match *self {
            Change::ShowCursor => OperationView::ShowCursor,
            Change::HideCursor => OperationView::HideCursor,
            Change::CursorShape(shape) => OperationView::SetCursorShape(shape),
            Change::CursorBlinking(blinking) => OperationView::SetCursorBlinking(blinking),
            Change::CursorPos(pos) => OperationView::SetCursorPos(pos),
            Change::Foreground(color) => OperationView::SetForeground(color),
            Change::Background(color) => OperationView::SetBackground(color),
            Change::Intensity(intensity) => OperationView::SetIntensity(intensity),
            Change::Italic(italic) => OperationView::SetItalic(italic),
            Change::Underlined(underlined) => OperationView::SetUnderlined(underlined),
            Change::Blinking(blinking) => OperationView::SetBlinking(blinking),
            Change::CrossedOut(crossed_out) => OperationView::SetCrossedOut(crossed_out),
        }
    }
}

/// Makes the call for the `k`th field of the style where the two styles differ in it.
fn send_field<B: Bound>(backend: &mut B, from: Style, to: Style, k: u8) -> (r: Result<(), B::Error>)
    requires
        old(backend).valid(),
        1 <= k <= 7,
    ensures
        final(backend).valid(),
        sent(
            old(backend).calls(),
            final(backend).calls(),
            r,
            call_if(style_differs(from, to, k as int), style_call(to, k as int)),
        ),
        r is Ok ==> shown_after(
            old(backend).shows(),
            final(backend).shows(),
            call_if(style_differs(from, to, k as int), style_call(to, k as int)),
        ),
{
    if k == 1 {
        send_when(backend, from.foreground != to.foreground, Change::Foreground(to.foreground))
    } else if k == 2 {
        send_when(backend, from.background != to.background, Change::Background(to.background))
    } else if k == 3 {
        send_when(
            backend,
            from.attributes.intensity != to.attributes.intensity,
            Change::Intensity(to.attributes.intensity),
        )
    } else if k == 4 {
        send_when(
            backend,
            from.attributes.italic != to.attributes.italic,
            Change::Italic(to.attributes.italic),
        )
    } else if k == 5 {
        send_when(
            backend,
            from.attributes.underlined != to.attributes.underlined,
            Change::Underlined(to.attributes.underlined),
        )
    } else if k == 6 {
        send_when(
            backend,
            from.attributes.blinking != to.attributes.blinking,
            Change::Blinking(to.attributes.blinking),
        )
    } else {
        send_when(
            backend,
            from.attributes.crossed_out != to.attributes.crossed_out,
            Change::CrossedOut(to.attributes.crossed_out),
        )
    }
}

/// Changes the backend's style from one style to another, as [`style_ops`] says.
fn send_style<B: Bound>(backend: &mut B, from: Style, to: Style) -> (r: Result<(), B::Error>)
    requires
        old(backend).valid(),
    ensures
        final(backend).valid(),
        sent(old(backend).calls(), final(backend).calls(), r, style_ops(from, to)),
        r is Ok ==> shown_after(old(backend).shows(), final(backend).shows(), style_ops(from, to)),
{
    let ghost start = backend.calls();
    let ghost kept = backend.shows();
    let ghost total = style_ops(from, to);
    proof {
        lemma_shown_none(kept);
        lemma_style_ops_upto_all(from, to);
    }
    assert(start + Seq::<OperationView>::empty() =~= start);
    let mut k: u8 = 1;
    while k <= 7
        invariant
            1 <= k <= 8,
            backend.valid(),
            start == old(backend).calls(),
            kept == old(backend).shows(),
            backend.calls() == start + style_ops_upto(from, to, (k - 1) as nat),
            shown_after(kept, backend.shows(), style_ops_upto(from, to, (k - 1) as nat)),
            total == style_ops_upto(from, to, 7),
            total == style_ops(from, to),
        decreases 8 - k,
    {
        let ghost done = style_ops_upto(from, to, (k - 1) as nat);
        let ghost step = call_if(style_differs(from, to, k as int), style_call(to, k as int));
        let ghost before = backend.calls();
        let ghost held = backend.shows();
        let r = send_field(backend, from, to, k);
        proof {
            assert(style_ops_upto(from, to, k as nat) == done + step);
            lemma_style_ops_upto_grows(from, to, k as nat, 7);
            lemma_sent_step(
                start,
                before,
                backend.calls(),
                r,
                r,
                done,
                step,
                total.skip((done + step).len() as int),
                total,
            );
            if r is Ok {
                lemma_shown_step(kept, held, backend.shows(), done, step);
            }
        }
        if r.is_err() {
            return r;
        }
        k += 1;
    }
    Ok(())
}

/// Writes a cell's contents at `pos`, as [`cell_ops`] says.
fn send_cell<B: Bound>(backend: &mut B, pen: Pen, pos: Vec2<u16>, contents: &str, style: Style) -> (r:
    Result<(), B::Error>)
    requires
        old(backend).valid(),
    ensures
        final(backend).valid(),
        sent(old(backend).calls(), final(backend).calls(), r, cell_ops(pen, pos, contents@, style)),
        r is Ok ==> shown_after(
            old(backend).shows(),
            final(backend).shows(),
            cell_ops(pen, pos, contents@, style),
        ),
{
    let ghost start = backend.calls();
    let ghost kept = backend.shows();
    proof {
        lemma_shown_none(kept);
    }
    let ghost total = cell_ops(pen, pos, contents@, style);
    let ghost styling = style_ops(pen.style, style);
    let ghost moving = call_if(pen.pos != pos, OperationView::SetCursorPos(pos));
    let ghost writing = seq![OperationView::Write(contents@)];
    let ghost empty = Seq::<OperationView>::empty();
    assert(start + empty =~= start);

    let ghost held = backend.shows();
    let r = send_style(backend, pen.style, style);
    proof {
        lemma_sent_step(start, start, backend.calls(), r, r, empty, styling, moving + writing, total);
        if r is Ok {
            lemma_shown_step(kept, held, backend.shows(), empty, styling);
        }
    }
    if r.is_err() {
        return r;
    }
    let ghost before = backend.calls();
    let ghost held = backend.shows();
    let r = send_when(backend, pen.pos != pos, Change::CursorPos(pos));
    proof {
        lemma_sent_step(start, before, backend.calls(), r, r, empty + styling, moving, writing, total);
        if r is Ok {
            lemma_shown_step(kept, held, backend.shows(), empty + styling, moving);
        }
    }
    if r.is_err() {
        return r;
    }
    let ghost before = backend.calls();
    let ghost held = backend.shows();
    let r = backend.write(contents);
    proof {
        lemma_recorded_sent(before, backend.calls(), r, OperationView::Write(contents@));
        lemma_shown_one(held, backend.shows(), r, OperationView::Write(contents@));
        lemma_sent_step(
            start,
            before,
            backend.calls(),
            r,
            r,
            empty + styling + moving,
            writing,
            empty,
            total,
        );
        if r is Ok {
            lemma_shown_step(kept, held, backend.shows(), empty + styling + moving, writing);
        }
        assert(empty + styling + moving + writing =~= total);
    }
    r
}

/// Writes the cell at `pos` where it has changed, as [`cell_pass`] says.
fn send_changed<B: Bound>(
    backend: &mut B,
    shown: &Cell,
    cell: &Cell,
    pos: Vec2<u16>,
    width: u16,
    pen: &mut Pen,
) -> (r: Result<(), B::Error>)
    requires
        old(backend).valid(),
        pos.x < width,
        cell@.is_wide() ==> pos.x + 1 < width,
    ensures
        final(backend).valid(),
        sent(
            old(backend).calls(),
            final(backend).calls(),
            r,
            cell_pass(shown@, cell@, pos, width, *old(pen)).ops,
        ),
        r is Ok ==> *final(pen) == cell_pass(shown@, cell@, pos, width, *old(pen)).pen,
        r is Ok ==> shown_after(
            old(backend).shows(),
            final(backend).shows(),
            cell_pass(shown@, cell@, pos, width, *old(pen)).ops,
        ),
{
    proof {
        lemma_shown_none(backend.shows());
    }
    if cell_eq(cell, shown) {
        assert(backend.calls() + Seq::<OperationView>::empty() =~= backend.calls());
        return Ok(());
    }
    match cell.kind() {
        CellKind::Char { contents, double, style } => {
            let r = send_cell(backend, *pen, pos, contents, style);
            if r.is_err() {
                return r;
            }
            let reach: u16 = if double {
                pos.x + 2
            } else {
                pos.x + 1
            };
            let column = if reach < width {
                reach
            } else {
                width - 1
            };
            *pen = Pen { style, pos: Vec2 { x: column, y: pos.y } };
            r
        },
        CellKind::Continuation => {
            assert(backend.calls() + Seq::<OperationView>::empty() =~= backend.calls());
            Ok(())
        },
    }
}

/// Goes through row `y` and writes each changed cell, as [`row_pass`] says.
fn send_row<B: Bound>(
    backend: &mut B,
    prev: &Line,
    next: &Line,
    y: u16,
    width: u16,
    pen: &mut Pen,
) -> (r: Result<(), B::Error>)
    requires
        old(backend).valid(),
        prev.wf(),
        next.wf(),
        prev@.len() == width,
        next@.len() == width,
    ensures
        final(backend).valid(),
        sent(
            old(backend).calls(),
            final(backend).calls(),
            r,
            row_pass(prev@, next@, y, width, *old(pen), width as nat).ops,
        ),
        r is Ok ==> *final(pen) == row_pass(prev@, next@, y, width, *old(pen), width as nat).pen,
        r is Ok ==> shown_after(
            old(backend).shows(),
            final(backend).shows(),
            row_pass(prev@, next@, y, width, *old(pen), width as nat).ops,
        ),
{
    let ghost start = backend.calls();
    let ghost kept = backend.shows();
    proof {
        lemma_shown_none(kept);
    }
    let ghost first = *pen;
    let ghost total = row_pass(prev@, next@, y, width, first, width as nat).ops;
    let shown = prev.cells();
    let cells = next.cells();
    let mut x: u16 = 0;
    assert(start + Seq::<OperationView>::empty() =~= start);
    while x < width
        invariant
            x <= width,
            backend.valid(),
            shown@.len() == width,
            cells@.len() == width,
            forall|i: int| 0 <= i < width ==> (#[trigger] shown@[i])@ == prev@[i],
            forall|i: int| 0 <= i < width ==> (#[trigger] cells@[i])@ == next@[i],
            next.wf(),
            next@.len() == width,
            start == old(backend).calls(),
            kept == old(backend).shows(),
            first == *old(pen),
            backend.calls() == start + row_pass(prev@, next@, y, width, first, x as nat).ops,
            shown_after(
                kept,
                backend.shows(),
                row_pass(prev@, next@, y, width, first, x as nat).ops,
            ),
            *pen == row_pass(prev@, next@, y, width, first, x as nat).pen,
            total == row_pass(prev@, next@, y, width, first, width as nat).ops,
        decreases width - x,
    {
        let ghost done = row_pass(prev@, next@, y, width, first, x as nat);
        let ghost step = cell_pass(prev@[x as int], next@[x as int], Vec2 { x, y }, width, *pen);
        let ghost before = backend.calls();
        assert(!next@.last().is_wide());
        let ghost held = backend.shows();
        let r = send_changed(
            backend,
            &shown[x as usize],
            &cells[x as usize],
            Vec2 { x, y },
            width,
            pen,
        );
        proof {
            assert(row_pass(prev@, next@, y, width, first, (x + 1) as nat).ops == done.ops
                + step.ops);
            lemma_row_pass_grows(prev@, next@, y, width, first, (x + 1) as nat, width as nat);
            lemma_sent_step(
                start,
                before,
                backend.calls(),
                r,
                r,
                done.ops,
                step.ops,
                total.skip((done.ops + step.ops).len() as int),
                total,
            );
            if r is Ok {
                lemma_shown_step(kept, held, backend.shows(), done.ops, step.ops);
            }
        }
        if r.is_err() {
            return r;
        }
        x += 1;
    }
    Ok(())
}

/// Whether two cells hold the same.
fn cell_eq(a: &Cell, b: &Cell) -> (r: bool)
    ensures
        r == (a@ == b@),
{
    *a == *b
}

/// Brings the cursor into its new state, as [`cursor_ops`] says.
fn send_cursor<B: Bound>(backend: &mut B, prev: Option<Cursor>, next: Option<Cursor>, pos: Vec2<u16>) -> (r:
    Result<(), B::Error>)
    requires
        old(backend).valid(),
    ensures
        final(backend).valid(),
        sent(old(backend).calls(), final(backend).calls(), r, cursor_ops(prev, next, pos)),
        r is Ok ==> shown_after(
            old(backend).shows(),
            final(backend).shows(),
            cursor_ops(prev, next, pos),
        ),
{
    let ghost start = backend.calls();
    let ghost kept = backend.shows();
    proof {
        lemma_shown_none(kept);
    }
    let ghost total = cursor_ops(prev, next, pos);
    let ghost empty = Seq::<OperationView>::empty();
    assert(start + empty =~= start);
    if next.is_none() {
        return send_when(backend, prev.is_some(), Change::HideCursor);
    }
    let cursor = shown_cursor(next);
    let shape_differs = match prev {
        Some(shown) => shown.shape != cursor.shape,
        None => true,
    };
    let blinking_differs = match prev {
        Some(shown) => shown.blinking != cursor.blinking,
        None => true,
    };
    let ghost w1 = call_if(prev is None, OperationView::ShowCursor);
    let ghost w2 = call_if(shape_differs, OperationView::SetCursorShape(cursor.shape));
    let ghost w3 = call_if(blinking_differs, OperationView::SetCursorBlinking(cursor.blinking));
    let ghost w4 = call_if(pos != cursor.pos, OperationView::SetCursorPos(cursor.pos));
    proof {
        lemma_cut_four(w1, w2, w3, w4);
    }

    let ghost held = backend.shows();
    let r = send_when(backend, prev.is_none(), Change::ShowCursor);
    proof {
        lemma_sent_step(start, start, backend.calls(), r, r, empty, w1, w2 + w3 + w4, total);
        if r is Ok {
            lemma_shown_step(kept, held, backend.shows(), empty, w1);
        }
    }
    if r.is_err() {
        return r;
    }
    let ghost before = backend.calls();
    let ghost held = backend.shows();
    let r = send_when(backend, shape_differs, Change::CursorShape(cursor.shape));
    proof {
        lemma_sent_step(start, before, backend.calls(), r, r, empty + w1, w2, w3 + w4, total);
        if r is Ok {
            lemma_shown_step(kept, held, backend.shows(), empty + w1, w2);
        }
    }
    if r.is_err() {
        return r;
    }
    let ghost before = backend.calls();
    let ghost held = backend.shows();
    let r = send_when(backend, blinking_differs, Change::CursorBlinking(cursor.blinking));
    proof {
        lemma_sent_step(start, before, backend.calls(), r, r, empty + w1 + w2, w3, w4, total);
        if r is Ok {
            lemma_shown_step(kept, held, backend.shows(), empty + w1 + w2, w3);
        }
    }
    if r.is_err() {
        return r;
    }
    let ghost before = backend.calls();
    let ghost held = backend.shows();
    let r = send_when(backend, pos != cursor.pos, Change::CursorPos(cursor.pos));
    proof {
        lemma_sent_step(start, before, backend.calls(), r, r, empty + w1 + w2 + w3, w4, empty, total);
        if r is Ok {
            lemma_shown_step(kept, held, backend.shows(), empty + w1 + w2 + w3, w4);
        }
    }
    r
}

/// The cursor that is shown.
fn shown_cursor(cursor: Option<Cursor>) -> (shown: Cursor)
    requires
        cursor is Some,
    ensures
        cursor == Some(shown),
{
    match cursor {
        Some(shown) => shown,
        None => Cursor {
            shape: crate::cursor::CursorShape::Block,
            blinking: false,
            pos: Vec2 { x: 0, y: 0 },
        },
    }
}

/// Goes through the rows and writes each changed cell, as [`grid_pass`] says.
fn send_grid<B: Bound>(backend: &mut B, prev: &Grid, next: &Grid, pen: &mut Pen) -> (r: Result<
    (),
    B::Error,
>)
    requires
        old(backend).valid(),
        prev.wf(),
        next.wf(),
        prev.columns() == next.columns(),
        prev@.len() == next@.len(),
    ensures
        final(backend).valid(),
        sent(
            old(backend).calls(),
            final(backend).calls(),
            r,
            grid_pass(prev@, next@, next.columns(), *old(pen), next@.len()).ops,
        ),
        r is Ok ==> *final(pen) == grid_pass(
            prev@,
            next@,
            next.columns(),
            *old(pen),
            next@.len(),
        ).pen,
        r is Ok ==> shown_after(
            old(backend).shows(),
            final(backend).shows(),
            grid_pass(prev@, next@, next.columns(), *old(pen), next@.len()).ops,
        ),
{
    let ghost start = backend.calls();
    let ghost kept = backend.shows();
    proof {
        lemma_shown_none(kept);
    }
    let ghost first = *pen;
    let width = next.width();
    let height = next.height();
    let ghost total = grid_pass(prev@, next@, width, first, height as nat).ops;
    let shown = prev.lines();
    let lines = next.lines();
    let mut y: u16 = 0;
    assert(start + Seq::<OperationView>::empty() =~= start);
    while y < height
        invariant
            y <= height,
            backend.valid(),
            shown@.len() == height,
            lines@.len() == height,
            height == next@.len(),
            width == next.columns(),
            forall|i: int| 0 <= i < height ==> (#[trigger] shown@[i])@ == prev@[i],
            forall|i: int| 0 <= i < height ==> (#[trigger] lines@[i])@ == next@[i],
            prev.wf(),
            next.wf(),
            prev.columns() == next.columns(),
            prev@.len() == next@.len(),
            start == old(backend).calls(),
            kept == old(backend).shows(),
            first == *old(pen),
            backend.calls() == start + grid_pass(prev@, next@, width, first, y as nat).ops,
            shown_after(kept, backend.shows(), grid_pass(prev@, next@, width, first, y as nat).ops),
            *pen == grid_pass(prev@, next@, width, first, y as nat).pen,
            total == grid_pass(prev@, next@, width, first, height as nat).ops,
        decreases height - y,
    {
        let ghost done = grid_pass(prev@, next@, width, first, y as nat);
        let ghost row = row_pass(prev@[y as int], next@[y as int], y, width, done.pen, width as nat);
        let ghost before = backend.calls();
        assert(crate::buffer::line::line_wf(prev@[y as int]));
        assert(crate::buffer::line::line_wf(next@[y as int]));
        let ghost held = backend.shows();
        let r = send_row(backend, &shown[y as usize], &lines[y as usize], y, width, pen);
        proof {
            assert(grid_pass(prev@, next@, width, first, (y + 1) as nat).ops == done.ops + row.ops);
            lemma_grid_pass_grows(prev@, next@, width, first, (y + 1) as nat, height as nat);
            lemma_sent_step(
                start,
                before,
                backend.calls(),
                r,
                r,
                done.ops,
                row.ops,
                total.skip((done.ops + row.ops).len() as int),
                total,
            );
            if r is Ok {
                lemma_shown_step(kept, held, backend.shows(), done.ops, row.ops);
            }
        }
        if r.is_err() {
            return r;
        }
        y += 1;
    }
    Ok(())
}

/// The calls that prepare a backend for the first frame: the cursor is hidden and sent
/// to the first cell, and colors and attributes are set to their defaults.
pub open spec fn setup_ops() -> Seq<OperationView> {
    seq![
        OperationView::HideCursor,
        OperationView::SetCursorPos(Vec2 { x: 0, y: 0 }),
        OperationView::SetForeground(Color::Default),
        OperationView::SetBackground(Color::Default),
        OperationView::SetIntensity(Intensity::Normal),
        OperationView::SetItalic(false),
        OperationView::SetUnderlined(false),
        OperationView::SetBlinking(false),
        OperationView::SetCrossedOut(false),
    ]
}

/// The pen of a backend that was prepared for the first frame.
pub open spec fn setup_pen() -> Pen {
    Pen { style: Style::plain(), pos: Vec2 { x: 0, y: 0 } }
}

/// The calls of [`setup_ops`] hide a terminal's cursor, send it to the first cell and
/// set the style to the default. What the terminal shows stays.
pub proof fn lemma_setup_run(s: Screen)
    ensures
        s.run(setup_ops()) == (Screen {
            buffer: BufferView { cursor: None, ..s.buffer },
            pos: setup_pen().pos,
            style: setup_pen().style,
        }),
{
    let ops = setup_ops();
    s.lemma_run_one(OperationView::Flush);
    s.lemma_run_push(ops.take(0), ops[0]);
    s.lemma_run_push(ops.take(1), ops[1]);
    s.lemma_run_push(ops.take(2), ops[2]);
    s.lemma_run_push(ops.take(3), ops[3]);
    s.lemma_run_push(ops.take(4), ops[4]);
    s.lemma_run_push(ops.take(5), ops[5]);
    s.lemma_run_push(ops.take(6), ops[6]);
    s.lemma_run_push(ops.take(7), ops[7]);
    s.lemma_run_push(ops.take(8), ops[8]);
    assert(ops.take(0) =~= Seq::empty());
    assert(ops.take(0).push(ops[0]) =~= ops.take(1));
    assert(ops.take(1).push(ops[1]) =~= ops.take(2));
    assert(ops.take(2).push(ops[2]) =~= ops.take(3));
    assert(ops.take(3).push(ops[3]) =~= ops.take(4));
    assert(ops.take(4).push(ops[4]) =~= ops.take(5));
    assert(ops.take(5).push(ops[5]) =~= ops.take(6));
    assert(ops.take(6).push(ops[6]) =~= ops.take(7));
    assert(ops.take(7).push(ops[7]) =~= ops.take(8));
    assert(ops.take(8).push(ops[8]) =~= ops);
}

/// Makes the calls one after the other, up to the first that fails.
fn send_all<B: Bound>(backend: &mut B, changes: &[Change]) -> (r: Result<(), B::Error>)
    requires
        old(backend).valid(),
    ensures
        final(backend).valid(),
        sent(
            old(backend).calls(),
            final(backend).calls(),
            r,
            changes@.map_values(|change: Change| change@),
        ),
        r is Ok ==> shown_after(
            old(backend).shows(),
            final(backend).shows(),
            changes@.map_values(|change: Change| change@),
        ),
{
    let ghost start = backend.calls();
    let ghost kept = backend.shows();
    let ghost total = changes@.map_values(|change: Change| change@);
    proof {
        lemma_shown_none(kept);
    }
    assert(total.take(0) =~= Seq::empty());
    assert(start + total.take(0) =~= start);
    let mut i: usize = 0;
    while i < changes.len()
        invariant
            i <= changes.len(),
            backend.valid(),
            start == old(backend).calls(),
            kept == old(backend).shows(),
            total == changes@.map_values(|change: Change| change@),
            backend.calls() == start + total.take(i as int),
            shown_after(kept, backend.shows(), total.take(i as int)),
        decreases changes.len() - i,
    {
        let ghost done = total.take(i as int);
        let ghost step = seq![changes@[i as int]@];
        let ghost before = backend.calls();
        let ghost held = backend.shows();
        let r = send_when(backend, true, changes[i]);
        proof {
            assert(total.take(i + 1) =~= done + step);
            assert(total =~= done + step + total.skip(i + 1));
            lemma_sent_step(start, before, backend.calls(), r, r, done, step, total.skip(i + 1), total);
            if r is Ok {
                lemma_shown_step(kept, held, backend.shows(), done, step);
            }
        }
        if r.is_err() {
            return r;
        }
        i += 1;
    }
    assert(total.take(i as int) =~= total);
    Ok(())
}

/// Prepares the backend for the first frame with the calls of [`setup_ops`], up to the
/// first that fails.
pub(crate) fn send_setup<B: Bound>(backend: &mut B) -> (r: Result<(), B::Error>)
    requires
        old(backend).valid(),
    ensures
        final(backend).valid(),
        sent(old(backend).calls(), final(backend).calls(), r, setup_ops()),
        r is Ok ==> shown_after(old(backend).shows(), final(backend).shows(), setup_ops()),
{
    let changes = [
        Change::HideCursor,
        Change::CursorPos(Vec2 { x: 0, y: 0 }),
        Change::Foreground(Color::Default),
        Change::Background(Color::Default),
        Change::Intensity(Intensity::Normal),
        Change::Italic(false),
        Change::Underlined(false),
        Change::Blinking(false),
        Change::CrossedOut(false),
    ];
    assert(changes@.map_values(|change: Change| change@) =~= setup_ops());
    send_all(backend, changes.as_slice())
}

/// Makes the backend calls that turn the frame `prev`, which the backend shows, into
/// the frame `next`, as [`frame_pass`] says, and keeps the pen up to date.
///
/// The two frames must be equally large. The first call that fails ends the pass: its
/// error is returned, and the calls after it are not made.
///
/// A backend that keeps its terminal itself, and was in step with `prev` and the pen,
/// shows `next` after a pass that went through, and is in step with it and the pen.
pub fn diff<B: Bound>(backend: &mut B, prev: &Buffer, next: &Buffer, pen: &mut Pen) -> (r: Result<
    (),
    B::Error,
>)
    requires
        old(backend).valid(),
        prev.wf(),
        next.wf(),
        prev@.width == next@.width,
        prev@.rows.len() == next@.rows.len(),
    ensures
        final(backend).valid(),
        sent(
            old(backend).calls(),
            final(backend).calls(),
            r,
            frame_pass(prev@, next@, *old(pen)).ops,
        ),
        r is Ok ==> *final(pen) == frame_pass(prev@, next@, *old(pen)).pen,
        r is Ok ==> shown_after(
            old(backend).shows(),
            final(backend).shows(),
            frame_pass(prev@, next@, *old(pen)).ops,
        ),
        (r is Ok && in_step(old(backend).shows(), prev@, *old(pen))) ==> in_step(
            final(backend).shows(),
            next@,
            *final(pen),
        ),
{
    let ghost start = backend.calls();
    let ghost kept = backend.shows();
    proof {
        lemma_shown_none(kept);
    }
    let ghost first = *pen;
    let ghost total = frame_pass(prev@, next@, first).ops;
    let ghost cells = grid_pass(prev@.rows, next@.rows, next@.width, first, next@.rows.len());
    let ghost titling = call_if(prev@.title != next@.title, OperationView::SetTitle(next@.title));
    let ghost clearing = seq![OperationView::SetBackground(Color::Default)];
    let ghost pointing = cursor_ops(prev@.cursor, next@.cursor, cells.pen.pos);
    let ghost empty = Seq::<OperationView>::empty();
    assert(start + empty =~= start);
    proof {
        lemma_cut_four(titling, cells.ops, clearing, pointing);
    }

    let retitled = !same_text(prev.title.as_str(), next.title.as_str());
    let ghost held = backend.shows();
    let r = if retitled {
        let ghost held = backend.shows();
        let r = backend.set_title(next.title.as_str());
        proof {
            lemma_recorded_sent(start, backend.calls(), r, OperationView::SetTitle(next@.title));
            lemma_shown_one(held, backend.shows(), r, OperationView::SetTitle(next@.title));
        }
        r
    } else {
        Ok(())
    };
    proof {
        lemma_sent_step(
            start,
            start,
            backend.calls(),
            r,
            r,
            empty,
            titling,
            cells.ops + clearing + pointing,
            total,
        );
        if r is Ok {
            lemma_shown_step(kept, held, backend.shows(), empty, titling);
        }
    }
    if r.is_err() {
        return r;
    }
    let ghost before = backend.calls();
    let ghost held = backend.shows();
    let r = send_grid(backend, &prev.grid, &next.grid, pen);
    proof {
        lemma_sent_step(
            start,
            before,
            backend.calls(),
            r,
            r,
            empty + titling,
            cells.ops,
            clearing + pointing,
            total,
        );
        if r is Ok {
            lemma_shown_step(kept, held, backend.shows(), empty + titling, cells.ops);
        }
    }
    if r.is_err() {
        return r;
    }
    // Some terminals use the background color of the cursor to fill in space created by
    // a resize, so reset it.
    let ghost before = backend.calls();
    let ghost held = backend.shows();
    let r = backend.set_background(Color::Default);
    proof {
        lemma_recorded_sent(
            before,
            backend.calls(),
            r,
            OperationView::SetBackground(Color::Default),
        );
        lemma_shown_one(held, backend.shows(), r, OperationView::SetBackground(Color::Default));
        lemma_sent_step(
            start,
            before,
            backend.calls(),
            r,
            r,
            empty + titling + cells.ops,
            clearing,
            pointing,
            total,
        );
        if r is Ok {
            lemma_shown_step(kept, held, backend.shows(), empty + titling + cells.ops, clearing);
        }
    }
    if r.is_err() {
        return r;
    }
    pen.style.background = Color::Default;

    let ghost before = backend.calls();
    let ghost held = backend.shows();
    let r = send_cursor(backend, prev.cursor, next.cursor, pen.pos);
    proof {
        lemma_sent_step(
            start,
            before,
            backend.calls(),
            r,
            r,
            empty + titling + cells.ops + clearing,
            pointing,
            empty,
            total,
        );
        if r is Ok {
            lemma_shown_step(
                kept,
                held,
                backend.shows(),
                empty + titling + cells.ops + clearing,
                pointing,
            );
        }
    }
    if r.is_err() {
        return r;
    }
    match next.cursor {
        Some(cursor) => {
            pen.pos = cursor.pos;
        },
        None => {},
    }
    proof {
        if in_step(kept, prev@, first) {
            crate::replay::lemma_pass_shows_next_frame(assumed(prev@, first), next@, first);
        }
    }
    r
}

/// `str::eq` of std: two string slices are equal where they hold the same characters.
#[verifier::external_body]
fn same_text(a: &str, b: &str) -> (r: bool)
    ensures
        r == (a@ == b@),
{
    a == b
}

} // verus!
