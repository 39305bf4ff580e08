//! Borders.

use crate::cursor::Cursor;
use crate::element::{lemma_added_none, Element};
use crate::elements::filter::{Alignment, Filter};
use crate::elements::span::{columns_of, text_columns};
use crate::events::Events;
use crate::input::{Input, Mouse};
use crate::output::{
    area_ops, drew_all, drew_well, lemma_area_drew_all, lemma_drew_all_concat,
    lemma_drew_all_keeps, lemma_drew_all_push, Area, DrawOp, Output,
};
use crate::style::Style;
use crate::vec2::Vec2;
use crate::width::{char_width, display_width, present};
use vstd::prelude::*;
use vstd::std_specs::iter::IteratorSpec;

verus! {

/// A filter that adds a border to an element.
///
/// The border is one cell wide. The element's title, which is the title that the element
/// sets last while it is drawn, can be shown in the top and in the bottom edge.
#[derive(Debug, Hash, PartialEq, Eq, Clone, Copy)]
#[non_exhaustive]
pub struct Border {
    /// The characters used for the sides of the border: top, left, right and bottom.
    pub sides: (char, char, char, char),
    /// The characters used for the corners of the border: top left, top right, bottom left
    /// and bottom right.
    pub corners: (char, char, char, char),
    /// The style of the border itself.
    pub style: Style,
    /// The style of the title.
    pub title_style: Style,
    /// The alignment of the title at the top of the border, if there is one.
    pub top_title_align: Option<Alignment>,
    /// The alignment of the title at the bottom of the border, if there is one.
    pub bottom_title_align: Option<Alignment>,
    /// Whether there is a column of padding on either side of the element.
    pub padding: bool,
}

/// The title that a run of drawing calls sets last, if it sets one.
pub open spec fn last_title(ops: Seq<DrawOp>) -> Option<Seq<char>>
    decreases ops.len(),
{
    if ops.len() == 0 {
        None
    } else {
        match ops.last() {
            DrawOp::Title(title) => Some(title),
            _ => last_title(ops.drop_last()),
        }
    }
}

/// An output that remembers the title that was set on it last, and passes every call on.
struct TitleCatch<O> {
    inner: O,
    title: Option<String>,
}

impl<O> TitleCatch<O> {
    /// The title that was set last, if one was set.
    closed spec fn caught(&self) -> Option<Seq<char>> {
        match self.title {
            Some(title) => Some(title@),
            None => None,
        }
    }

    /// The inner output.
    closed spec fn sink(&self) -> O {
        self.inner
    }
}

impl<O: Output> Output for TitleCatch<O> {
    closed spec fn valid(&self) -> bool {
        self.inner.valid()
    }

    closed spec fn extent(&self) -> Vec2<u16> {
        self.inner.extent()
    }

    closed spec fn drew(&self, after: &Self, op: DrawOp) -> bool {
        &&& drew_well(self.inner, after.inner, op)
        &&& after.caught() == (match op {
            DrawOp::Title(title) => Some(title),
            _ => self.caught(),
        })
    }

    fn size(&self) -> (size: Vec2<u16>) {
        self.inner.size()
    }

    fn write_char(&mut self, pos: Vec2<u16>, c: char, style: Style) {
        self.inner.write_char(pos, c, style);
    }

    fn set_title(&mut self, title: &str) {
        self.inner.set_title(title);
        self.title = Some(title.to_owned());
    }

    fn set_cursor(&mut self, cursor: Option<Cursor>) {
        self.inner.set_cursor(cursor);
    }
}

/// What a catching output took, its output took, and the title that it caught is the
/// title that was set last.
proof fn lemma_catch_drew_all<O: Output>(before: TitleCatch<O>, after: TitleCatch<O>, ops: Seq<DrawOp>)
    requires
        drew_all(before, after, ops),
    ensures
        drew_all(before.sink(), after.sink(), ops),
        after.caught() == (match last_title(ops) {
            Some(title) => Some(title),
            None => before.caught(),
        }),
    decreases ops.len(),
{
    if ops.len() > 0 {
        let mid = choose|mid: TitleCatch<O>|
            drew_all(before, mid, ops.drop_last()) && #[trigger] drew_well(mid, after, ops.last());
        lemma_catch_drew_all(before, mid, ops.drop_last());
        lemma_drew_all_push(before.sink(), mid.sink(), after.sink(), ops.drop_last(), ops.last());
        assert(ops.drop_last().push(ops.last()) =~= ops);
    }
}

/// The calls of `count` steps, one step after the other.
pub open spec fn steps_ops(count: nat, step: spec_fn(int) -> Seq<DrawOp>) -> Seq<DrawOp>
    decreases count,
{
    if count == 0 {
        Seq::empty()
    } else {
        steps_ops((count - 1) as nat, step) + step(count - 1)
    }
}

/// The call that writes one character.
pub open spec fn put_op(x: int, y: int, c: char, style: Style) -> DrawOp {
    DrawOp::Char { pos: Vec2 { x: x as u16, y: y as u16 }, c, style }
}

/// The call, where the condition holds; no call otherwise.
pub open spec fn put_if(condition: bool, op: DrawOp) -> Seq<DrawOp> {
    if condition {
        seq![op]
    } else {
        Seq::empty()
    }
}

/// The calls for the row `k + 1` of a pair of columns: a character in the left column
/// and, where the output is wider than one cell, a character in the right column. The
/// columns are the outermost ones, or the ones next to them.
pub open spec fn rows_step(style: Style, size: Vec2<u16>, left: char, right: char, near: bool) -> spec_fn(
    int,
) -> Seq<DrawOp> {
    |k: int|
        seq![put_op(if near { 1int } else { 0int }, k + 1, left, style)] + put_if(
            size.x > 1,
            put_op(size.x - (if near { 2int } else { 1int }), k + 1, right, style),
        )
}

/// The calls for the column `k + 1` of the two edges: the character of the top edge and,
/// where the output has a bottom edge, the character of the bottom edge, each where the
/// title is not.
pub open spec fn edges_step(
    border: Border,
    size: Vec2<u16>,
    top: (Option<u16>, Option<u16>),
    bottom: (Option<u16>, Option<u16>),
) -> spec_fn(int) -> Seq<DrawOp> {
    |k: int|
        put_if(
            Border::free_of_title(k + 1, top.0, top.1),
            put_op(k + 1, 0, border.sides.0, border.style),
        ) + put_if(
            size.y > 1 && Border::free_of_title(k + 1, bottom.0, bottom.1),
            put_op(k + 1, size.y - 1, border.sides.3, border.style),
        )
}

/// The number of rows between the top edge and the bottom edge.
pub open spec fn inner_rows(size: Vec2<u16>) -> nat {
    if size.y >= 2 {
        (size.y - 2) as nat
    } else {
        0
    }
}

/// The number of columns between the left edge and the right edge.
pub open spec fn inner_columns(size: Vec2<u16>) -> nat {
    if size.x >= 2 {
        (size.x - 2) as nat
    } else {
        0
    }
}

impl Border {
    /// The number of columns that the border takes on either side: the border itself and
    /// the padding.
    pub open spec fn side_columns(self) -> u16 {
        if self.padding {
            2
        } else {
            1
        }
    }

    /// The size that is left for the element in an output of the given size.
    pub open spec fn inner_size(self, size: Vec2<u16>) -> Vec2<u16> {
        Vec2 {
            x: if size.x >= 2 * self.side_columns() {
                (size.x - 2 * self.side_columns()) as u16
            } else {
                0
            },
            y: if size.y >= 2 {
                (size.y - 2) as u16
            } else {
                0
            },
        }
    }

    /// The calls that fill the padding: in each row between the edges a space next to the
    /// left side and, where the output is wider than one cell, a space next to the right
    /// side.
    pub open spec fn padding_ops(self, size: Vec2<u16>) -> Seq<DrawOp> {
        if self.padding {
            steps_ops(inner_rows(size), rows_step(self.style, size, ' ', ' ', true))
        } else {
            Seq::empty()
        }
    }

    /// The calls that write the corners: those that an output of the given size has room
    /// for.
    pub open spec fn corner_ops(self, size: Vec2<u16>) -> Seq<DrawOp> {
        seq![put_op(0, 0, self.corners.0, self.style)] + put_if(
            size.x > 1,
            put_op(size.x - 1, 0, self.corners.1, self.style),
        ) + put_if(size.y > 1, put_op(0, size.y - 1, self.corners.2, self.style)) + put_if(
            size.x > 1 && size.y > 1,
            put_op(size.x - 1, size.y - 1, self.corners.3, self.style),
        )
    }

    /// The calls that write the left and the right side.
    pub open spec fn side_ops(self, size: Vec2<u16>) -> Seq<DrawOp> {
        steps_ops(
            inner_rows(size),
            rows_step(self.style, size, self.sides.1, self.sides.2, false),
        )
    }

    /// The column in which a title of the given width starts, for the given alignment.
    pub open spec fn title_start(align: Alignment, title_width: u16, size: Vec2<u16>) -> u16 {
        let available = inner_columns(size) as int;
        (1 + (match align {
            Alignment::Start => 0,
            Alignment::Middle => if available / 2 >= title_width / 2 {
                available / 2 - title_width as int / 2
            } else {
                0
            },
            Alignment::End => if available >= title_width {
                available - title_width
            } else {
                0
            },
        })) as u16
    }

    /// The column in which the title at the top starts, if there is one.
    pub open spec fn top_start(self, title: Seq<char>, size: Vec2<u16>) -> Option<u16> {
        match self.top_title_align {
            Some(align) => Some(Self::title_start(align, text_columns(title), size)),
            None => None,
        }
    }

    /// The column in which the title at the bottom starts, if there is one.
    pub open spec fn bottom_start(self, title: Seq<char>, size: Vec2<u16>) -> Option<u16> {
        match self.bottom_title_align {
            Some(align) => Some(Self::title_start(align, text_columns(title), size)),
            None => None,
        }
    }

    /// The calls that write the title into the edges, from the columns `top` and `bottom`
    /// on, and the columns behind the title in either edge.
    ///
    /// A title is written as far as it stays before the right side; both titles end where
    /// one of them would go further. A control character is skipped. The title at the
    /// bottom is written where the output has a bottom edge.
    pub open spec fn title_pass(
        self,
        title: Seq<char>,
        top: Option<u16>,
        bottom: Option<u16>,
        size: Vec2<u16>,
    ) -> (Seq<DrawOp>, Option<u16>, Option<u16>)
        decreases title.len(),
    {
        if title.len() == 0 {
            (Seq::empty(), top, bottom)
        } else {
            let c = title[0];
            match display_width(c) {
                None => self.title_pass(title.drop_first(), top, bottom, size),
                Some(width) => {
                    let top_fits = match top {
                        Some(offset) => offset + width < size.x,
                        None => true,
                    };
                    let lower = size.y > 1 && bottom is Some;
                    let bottom_fits = !lower || bottom->0 + width < size.x;
                    let top_ops = put_if(
                        top is Some && top_fits,
                        put_op(top->0 as int, 0, c, self.title_style),
                    );
                    let bottom_ops = put_if(
                        lower && top_fits && bottom_fits,
                        put_op(bottom->0 as int, size.y - 1, c, self.title_style),
                    );
                    let next_top = if top is Some && top_fits {
                        Some((top->0 + width) as u16)
                    } else {
                        top
                    };
                    let next_bottom = if lower && top_fits && bottom_fits {
                        Some((bottom->0 + width) as u16)
                    } else {
                        bottom
                    };
                    if top_fits && bottom_fits {
                        let rest = self.title_pass(title.drop_first(), next_top, next_bottom, size);
                        (top_ops + bottom_ops + rest.0, rest.1, rest.2)
                    } else {
                        (top_ops + bottom_ops, next_top, next_bottom)
                    }
                },
            }
        }
    }

    /// The whole pass of the title, where a title is shown at all: see [`Self::title_pass`].
    pub open spec fn titles(self, title: Seq<char>, size: Vec2<u16>) -> (
        Seq<DrawOp>,
        Option<u16>,
        Option<u16>,
    ) {
        self.title_pass(title, self.top_start(title, size), self.bottom_start(title, size), size)
    }

    /// Whether the column `x` of an edge is free of the title that starts at `start` and
    /// ends before `end`.
    pub open spec fn free_of_title(x: int, start: Option<u16>, end: Option<u16>) -> bool {
        match start {
            Some(start) => x < start || x >= end->0,
            None => true,
        }
    }

    /// The calls that write the top edge and the bottom edge, where the title is not.
    pub open spec fn edge_ops(self, title: Seq<char>, size: Vec2<u16>) -> Seq<DrawOp> {
        let titles = self.titles(title, size);
        steps_ops(
            inner_columns(size),
            edges_step(
                self,
                size,
                (self.top_start(title, size), titles.1),
                (self.bottom_start(title, size), titles.2),
            ),
        )
    }

    /// The calls that draw the border itself around an element with the given title.
    pub open spec fn frame_ops(self, title: Seq<char>, size: Vec2<u16>) -> Seq<DrawOp> {
        self.padding_ops(size) + self.corner_ops(size) + self.side_ops(size) + self.titles(
            title,
            size,
        ).0 + self.edge_ops(title, size)
    }

    /// The title of an element that draws what `ops` holds: the title that is set last,
    /// and the empty title where none is set.
    pub open spec fn shown_title(ops: Seq<DrawOp>) -> Seq<char> {
        match last_title(ops) {
            Some(title) => title,
            None => Seq::empty(),
        }
    }
}

/// Writes one character, where the condition holds, and adds the call to the run that
/// the output has taken.
fn put<O: Output>(
    output: &mut O,
    condition: bool,
    pos: Vec2<u16>,
    c: char,
    style: Style,
    Ghost(start): Ghost<O>,
    Ghost(done): Ghost<Seq<DrawOp>>,
)
    requires
        old(output).valid(),
        drew_all(start, *old(output), done),
    ensures
        final(output).valid(),
        final(output).extent() == old(output).extent(),
        drew_all(
            start,
            *final(output),
            done + put_if(condition, put_op(pos.x as int, pos.y as int, c, style)),
        ),
{
    if condition {
        let ghost before = *output;
        output.write_char(pos, c, style);
        proof {
            let op = DrawOp::Char { pos, c, style };
            lemma_drew_all_push(start, before, *output, done, op);
            assert(done + seq![op] =~= done.push(op));
        }
    } else {
        assert(done + Seq::<DrawOp>::empty() =~= done);
    }
}

impl Border {
    /// The border with every field but the characters at its default.
    fn base(sides: (char, char, char, char), corners: (char, char, char, char)) -> (border: Self)
        ensures
            border == (Border {
                sides,
                corners,
                style: Style::plain(),
                title_style: Style::plain(),
                top_title_align: None,
                bottom_title_align: None,
                padding: true,
            }),
    {
        Self {
            sides,
            corners,
            style: Style::default(),
            title_style: Style::default(),
            top_title_align: None,
            bottom_title_align: None,
            padding: true,
        }
    }

    /// A border made of plus signs, dashes and bars.
    #[must_use]
    pub fn ascii_plus() -> (border: Self)
        ensures
            border.sides == ('-', '|', '|', '-'),
            border.corners == ('+', '+', '+', '+'),
            border.padding,
    {
        Self::base(('-', '|', '|', '-'), ('+', '+', '+', '+'))
    }

    /// A border made of dashes and bars with rounded corners.
    #[must_use]
    pub fn ascii_curved() -> (border: Self)
        ensures
            border.sides == ('-', '|', '|', '-'),
            border.corners == ('.', '.', '\'', '\''),
            border.padding,
    {
        Self::base(('-', '|', '|', '-'), ('.', '.', '\'', '\''))
    }

    /// A border made of thin lines.
    #[must_use]
    pub fn thin() -> (border: Self)
        ensures
            border.sides == ('─', '│', '│', '─'),
            border.corners == ('┌', '┐', '└', '┘'),
            border.padding,
    {
        Self::base(('─', '│', '│', '─'), ('┌', '┐', '└', '┘'))
    }

    /// A border made of thin lines with rounded corners.
    #[must_use]
    pub fn thin_curved() -> (border: Self)
        ensures
            border.sides == ('─', '│', '│', '─'),
            border.corners == ('╭', '╮', '╰', '╯'),
            border.padding,
    {
        Self::base(('─', '│', '│', '─'), ('╭', '╮', '╰', '╯'))
    }

    /// A border made of thick lines.
    #[must_use]
    pub fn thick() -> (border: Self)
        ensures
            border.sides == ('━', '┃', '┃', '━'),
            border.corners == ('┏', '┓', '┗', '┛'),
            border.padding,
    {
        Self::base(('━', '┃', '┃', '━'), ('┏', '┓', '┗', '┛'))
    }

    /// A border made of double lines.
    #[must_use]
    pub fn double() -> (border: Self)
        ensures
            border.sides == ('═', '║', '║', '═'),
            border.corners == ('╔', '╗', '╚', '╝'),
            border.padding,
    {
        Self::base(('═', '║', '║', '═'), ('╔', '╗', '╚', '╝'))
    }

    /// A border made of blocks.
    #[must_use]
    pub fn block() -> (border: Self)
        ensures
            border.sides == ('▀', '█', '█', '▄'),
            border.corners == ('█', '█', '█', '█'),
            border.padding,
    {
        Self::base(('▀', '█', '█', '▄'), ('█', '█', '█', '█'))
    }

    /// Set the alignment of the title displayed at the top of the border.
    #[must_use]
    pub fn top_title(self, align: Alignment) -> (border: Self)
        ensures
            border == (Border { top_title_align: Some(align), ..self }),
    {
        Self { top_title_align: Some(align), ..self }
    }

    /// Set the alignment of the title displayed at the bottom of the border.
    #[must_use]
    pub fn bottom_title(self, align: Alignment) -> (border: Self)
        ensures
            border == (Border { bottom_title_align: Some(align), ..self }),
    {
        Self { bottom_title_align: Some(align), ..self }
    }

    /// Set the style of the title.
    #[must_use]
    pub fn title_style(self, title_style: Style) -> (border: Self)
        ensures
            border == (Border { title_style, ..self }),
    {
        Self { title_style, ..self }
    }

    /// Remove the padding on either side of the element.
    #[must_use]
    pub fn no_padding(self) -> (border: Self)
        ensures
            border == (Border { padding: false, ..self }),
    {
        Self { padding: false, ..self }
    }

    /// Draws the padding and the sides: what [`Self::padding_ops`] and [`Self::side_ops`]
    /// hold, the one or the other.
    fn draw_rows<O: Output>(&self, output: &mut O, size: Vec2<u16>, left: char, right: char, near: bool)
        requires
            old(output).valid(),
            old(output).extent() == size,
        ensures
            final(output).valid(),
            final(output).extent() == size,
            drew_all(
                *old(output),
                *final(output),
                steps_ops(inner_rows(size), rows_step(self.style, size, left, right, near)),
            ),
    {
        let ghost step = rows_step(self.style, size, left, right, near);
        let rows: u16 = if size.y >= 2 {
            size.y - 2
        } else {
            0
        };
        let left_x: u16 = if near {
            1
        } else {
            0
        };
        let right_x: u16 = if size.x > 1 {
            if near {
                size.x - 2
            } else {
                size.x - 1
            }
        } else {
            0
        };
        let mut k: u16 = 0;
        while k < rows
            invariant
                k <= rows,
                rows == inner_rows(size),
                size.y >= 2 || rows == 0,
                left_x == (if near { 1int } else { 0int }),
                size.x > 1 ==> right_x == size.x - (if near { 2int } else { 1int }),
                output.valid(),
                output.extent() == size,
                step == rows_step(self.style, size, left, right, near),
                drew_all(*old(output), *output, steps_ops(k as nat, step)),
            decreases rows - k,
        {
            let ghost done = steps_ops(k as nat, step);
            let y = k + 1;
            put(output, true, Vec2 { x: left_x, y }, left, self.style, Ghost(*old(output)), Ghost(done));
            let ghost first = put_if(true, put_op(left_x as int, y as int, left, self.style));
            put(
                output,
                size.x > 1,
                Vec2 { x: right_x, y },
                right,
                self.style,
                Ghost(*old(output)),
                Ghost(done + first),
            );
            proof {
                let second = put_if(size.x > 1, put_op(right_x as int, y as int, right, self.style));
                assert(step(k as int) =~= first + second);
                assert(done + first + second =~= done + (first + second));
            }
            k += 1;
        }
    }

    /// Draws the corners, as [`Self::corner_ops`] says.
    fn draw_corners<O: Output>(&self, output: &mut O, size: Vec2<u16>)
        requires
            old(output).valid(),
            old(output).extent() == size,
        ensures
            final(output).valid(),
            final(output).extent() == size,
            drew_all(*old(output), *final(output), self.corner_ops(size)),
    {
        let right: u16 = if size.x > 1 {
            size.x - 1
        } else {
            0
        };
        let bottom: u16 = if size.y > 1 {
            size.y - 1
        } else {
            0
        };
        let ghost start = *old(output);
        let ghost e = Seq::<DrawOp>::empty();
        let ghost c0 = put_if(true, put_op(0, 0, self.corners.0, self.style));
        let ghost c1 = put_if(size.x > 1, put_op(size.x - 1, 0, self.corners.1, self.style));
        let ghost c2 = put_if(size.y > 1, put_op(0, size.y - 1, self.corners.2, self.style));
        let ghost c3 = put_if(
            size.x > 1 && size.y > 1,
            put_op(size.x - 1, size.y - 1, self.corners.3, self.style),
        );
        put(output, true, Vec2 { x: 0, y: 0 }, self.corners.0, self.style, Ghost(start), Ghost(e));
        put(
            output,
            size.x > 1,
            Vec2 { x: right, y: 0 },
            self.corners.1,
            self.style,
            Ghost(start),
            Ghost(e + c0),
        );
        put(
            output,
            size.y > 1,
            Vec2 { x: 0, y: bottom },
            self.corners.2,
            self.style,
            Ghost(start),
            Ghost(e + c0 + c1),
        );
        put(
            output,
            size.x > 1 && size.y > 1,
            Vec2 { x: right, y: bottom },
            self.corners.3,
            self.style,
            Ghost(start),
            Ghost(e + c0 + c1 + c2),
        );
        assert(e + c0 + c1 + c2 + c3 =~= self.corner_ops(size));
    }

    /// Computes [`Self::title_start`].
    fn start_of(align: Alignment, title: &str, size: Vec2<u16>) -> (start: u16)
        ensures
            start == Self::title_start(align, text_columns(title@), size),
    {
        let available: u16 = if size.x >= 2 {
            size.x - 2
        } else {
            0
        };
        1 + match align {
            Alignment::Start => 0,
            Alignment::Middle => (available / 2).saturating_sub(columns_of(title) / 2),
            Alignment::End => available.saturating_sub(columns_of(title)),
        }
    }

    /// Writes the title into the edges, as [`Self::title_pass`] says, and gives the
    /// columns behind the title in either edge.
    fn draw_titles<O: Output>(
        &self,
        output: &mut O,
        title: &str,
        top: Option<u16>,
        bottom: Option<u16>,
        size: Vec2<u16>,
    ) -> (ends: (Option<u16>, Option<u16>))
        requires
            old(output).valid(),
            old(output).extent() == size,
        ensures
            final(output).valid(),
            final(output).extent() == size,
            drew_all(*old(output), *final(output), self.title_pass(title@, top, bottom, size).0),
            ends == (
                self.title_pass(title@, top, bottom, size).1,
                self.title_pass(title@, top, bottom, size).2,
            ),
    {
        let ghost start = *old(output);
        let ghost whole = self.title_pass(title@, top, bottom, size);
        let ghost mut done: Seq<DrawOp> = Seq::empty();
        let mut top = top;
        let mut bottom = bottom;
        let lower_edge = size.y > 1;
        let mut chars = title.chars();
        loop
            invariant_except_break
                whole.0 == done + self.title_pass(chars.remaining(), top, bottom, size).0,
                whole.1 == self.title_pass(chars.remaining(), top, bottom, size).1,
                whole.2 == self.title_pass(chars.remaining(), top, bottom, size).2,
            invariant
                output.valid(),
                output.extent() == size,
                lower_edge == (size.y > 1),
                drew_all(start, *output, done),
                chars.obeys_prophetic_iter_laws(),
                chars.decrease() is Some,
            ensures
                whole.0 == done,
                whole.1 == top,
                whole.2 == bottom,
            decreases chars.decrease().unwrap(),
        {
            let ghost rest = chars.remaining();
            let next = chars.next();
            if next.is_none() {
                assert(done + Seq::<DrawOp>::empty() =~= done);
                break ;
            }
            let c = present(next);
            let measured = char_width(c);
            if measured.is_some() {
                let width = measured.unwrap();
                let top_fits = match top {
                    Some(offset) => offset < size.x && width < (size.x - offset) as usize,
                    None => true,
                };
                let lower = lower_edge && bottom.is_some();
                let bottom_fits = match bottom {
                    Some(offset) => !lower || (offset < size.x && width < (size.x - offset) as usize),
                    None => true,
                };
                let top_x: u16 = match top {
                    Some(offset) => offset,
                    None => 0,
                };
                let bottom_x: u16 = match bottom {
                    Some(offset) => offset,
                    None => 0,
                };
                let bottom_y: u16 = if lower_edge {
                    size.y - 1
                } else {
                    0
                };
                let ghost top_ops = put_if(
                    top is Some && top_fits,
                    put_op(top_x as int, 0, c, self.title_style),
                );
                let ghost bottom_ops = put_if(
                    lower && top_fits && bottom_fits,
                    put_op(bottom_x as int, bottom_y as int, c, self.title_style),
                );
                put(
                    output,
                    top.is_some() && top_fits,
                    Vec2 { x: top_x, y: 0 },
                    c,
                    self.title_style,
                    Ghost(start),
                    Ghost(done),
                );
                put(
                    output,
                    lower && top_fits && bottom_fits,
                    Vec2 { x: bottom_x, y: bottom_y },
                    c,
                    self.title_style,
                    Ghost(start),
                    Ghost(done + top_ops),
                );
                if top.is_some() && top_fits {
                    top = Some(top_x + width as u16);
                }
                if lower && top_fits && bottom_fits {
                    bottom = Some(bottom_x + width as u16);
                }
                proof {
                    let following = self.title_pass(rest.drop_first(), top, bottom, size);
                    assert(done + (top_ops + bottom_ops + following.0) =~= done + top_ops + bottom_ops
                        + following.0);
                    assert(done + (top_ops + bottom_ops) =~= done + top_ops + bottom_ops);
                    done = done + top_ops + bottom_ops;
                }
                if !(top_fits && bottom_fits) {
                    break ;
                }
            }
        }
        (top, bottom)
    }

    /// Draws the top edge and the bottom edge, where the title is not.
    fn draw_edges<O: Output>(
        &self,
        output: &mut O,
        size: Vec2<u16>,
        top: (Option<u16>, Option<u16>),
        bottom: (Option<u16>, Option<u16>),
    )
        requires
            old(output).valid(),
            old(output).extent() == size,
            top.0 is Some ==> top.1 is Some,
            bottom.0 is Some ==> bottom.1 is Some,
        ensures
            final(output).valid(),
            final(output).extent() == size,
            drew_all(
                *old(output),
                *final(output),
                steps_ops(inner_columns(size), edges_step(*self, size, top, bottom)),
            ),
    {
        let ghost step = edges_step(*self, size, top, bottom);
        let columns: u16 = if size.x >= 2 {
            size.x - 2
        } else {
            0
        };
        let bottom_y: u16 = if size.y > 1 {
            size.y - 1
        } else {
            0
        };
        let mut k: u16 = 0;
        while k < columns
            invariant
                k <= columns,
                columns == inner_columns(size),
                size.x >= 2 || columns == 0,
                size.y > 1 ==> bottom_y == size.y - 1,
                top.0 is Some ==> top.1 is Some,
                bottom.0 is Some ==> bottom.1 is Some,
                output.valid(),
                output.extent() == size,
                step == edges_step(*self, size, top, bottom),
                drew_all(*old(output), *output, steps_ops(k as nat, step)),
            decreases columns - k,
        {
            let ghost done = steps_ops(k as nat, step);
            let x = k + 1;
            let top_free = free_of(x, top.0, top.1);
            let bottom_free = size.y > 1 && free_of(x, bottom.0, bottom.1);
            put(
                output,
                top_free,
                Vec2 { x, y: 0 },
                self.sides.0,
                self.style,
                Ghost(*old(output)),
                Ghost(done),
            );
            let ghost first = put_if(top_free, put_op(x as int, 0, self.sides.0, self.style));
            put(
                output,
                bottom_free,
                Vec2 { x, y: bottom_y },
                self.sides.3,
                self.style,
                Ghost(*old(output)),
                Ghost(done + first),
            );
            proof {
                let second = put_if(
                    bottom_free,
                    put_op(x as int, bottom_y as int, self.sides.3, self.style),
                );
                assert(step(k as int) =~= first + second);
                assert(done + first + second =~= done + (first + second));
            }
            k += 1;
        }
    }
}

/// Computes [`Border::free_of_title`].
fn free_of(x: u16, start: Option<u16>, end: Option<u16>) -> (free: bool)
    requires
        start is Some ==> end is Some,
    ensures
        free == Border::free_of_title(x as int, start, end),
{
    match start {
        Some(start) => match end {
            Some(end) => x < start || x >= end,
            None => true,
        },
        None => true,
    }
}

/// The mouse input as the element inside a border sees it, or `None` where the input
/// lies on the border or on the padding.
pub open spec fn mouse_inside(border: Border, mouse: Mouse) -> Option<Mouse> {
    let side = border.side_columns();
    if mouse.at.x + side >= mouse.size.x || mouse.at.y + 1 >= mouse.size.y || mouse.at.x < side
        || mouse.at.y < 1 || mouse.size.x < 2 * side || mouse.size.y < 2 {
        None
    } else {
        Some(
            Mouse {
                at: Vec2 { x: (mouse.at.x - side) as u16, y: (mouse.at.y - 1) as u16 },
                size: Vec2 {
                    x: (mouse.size.x - 2 * side) as u16,
                    y: (mouse.size.y - 2) as u16,
                },
                ..mouse
            },
        )
    }
}

impl<T: Element> Filter<T> for Border {
    open spec fn wf(&self) -> bool {
        true
    }

    /// The element is drawn to the area inside the border, then the border is drawn
    /// around it, with the element's title in its edges.
    open spec fn drawing(&self, element: &T, size: Vec2<u16>) -> Seq<DrawOp> {
        let inner = element.drawing(self.inner_size(size));
        area_ops(Vec2 { x: self.side_columns() as i32, y: 1 }, self.inner_size(size), inner)
            + self.frame_ops(Border::shown_title(inner), size)
    }

    /// A key press goes to the element. A mouse input goes to the element where it lies
    /// inside the border, and is dropped otherwise.
    open spec fn reacts(&self, element: &T, input: Input, events: Seq<T::Event>) -> bool {
        match input {
            Input::Key(_) => element.reacts(input, events),
            Input::Mouse(mouse) => match mouse_inside(*self, mouse) {
                Some(inner) => element.reacts(Input::Mouse(inner), events),
                None => events.len() == 0,
            },
        }
    }

    open spec fn width_for(&self, element: &T, height: u16, max_width: Option<u16>) -> u16 {
        let width = element.width_for(height, max_width);
        if width + 2 * self.side_columns() <= u16::MAX {
            (width + 2 * self.side_columns()) as u16
        } else {
            u16::MAX
        }
    }

    open spec fn height_for(&self, element: &T, width: u16, max_height: Option<u16>) -> u16 {
        let height = element.height_for(width, max_height);
        if height + 2 <= u16::MAX {
            (height + 2) as u16
        } else {
            u16::MAX
        }
    }

    open spec fn size_for(&self, element: &T, maximum: Vec2<Option<u16>>) -> Vec2<u16> {
        let size = element.size_for(maximum);
        Vec2 {
            x: if size.x + 2 * self.side_columns() <= u16::MAX {
                (size.x + 2 * self.side_columns()) as u16
            } else {
                u16::MAX
            },
            y: if size.y + 2 <= u16::MAX {
                (size.y + 2) as u16
            } else {
                u16::MAX
            },
        }
    }

    fn draw<O: Output>(&self, element: &T, output: O) -> (after: O) {
        let size = output.size();
        let side: u16 = if self.padding {
            2
        } else {
            1
        };
        let inner_size = Vec2 { x: size.x.saturating_sub(2 * side), y: size.y.saturating_sub(2) };
        let top_left = Vec2 { x: side as i32, y: 1i32 };
        let ghost inner = element.drawing(inner_size);

        // Draw the element.
        let area = Area { inner: output, top_left, size: inner_size };
        let catch = TitleCatch { inner: area, title: None };
        let caught = element.draw(catch);
        proof {
            lemma_catch_drew_all(catch, caught, inner);
            lemma_area_drew_all(area, caught.inner, inner);
            lemma_drew_all_keeps(output, caught.inner.inner, area_ops(top_left, inner_size, inner));
        }
        let title = match caught.title {
            Some(title) => title,
            None => String::new(),
        };
        assert(title@ == Border::shown_title(inner));
        let mut drawn = caught.inner.inner;
        let ghost framed = drawn;
        self.draw_frame(&mut drawn, title.as_str(), size);
        proof {
            lemma_drew_all_concat(
                output,
                framed,
                drawn,
                area_ops(top_left, inner_size, inner),
                self.frame_ops(title@, size),
            );
        }
        drawn
    }

    fn ideal_width(&self, element: &T, height: u16, max_width: Option<u16>) -> (width: u16) {
        let extra: u16 = if self.padding {
            4
        } else {
            2
        };
        element.ideal_width(height, max_width).saturating_add(extra)
    }

    fn ideal_height(&self, element: &T, width: u16, max_height: Option<u16>) -> (height: u16) {
        element.ideal_height(width, max_height).saturating_add(2)
    }

    fn ideal_size(&self, element: &T, maximum: Vec2<Option<u16>>) -> (size: Vec2<u16>) {
        let extra: u16 = if self.padding {
            4
        } else {
            2
        };
        let size = element.ideal_size(maximum);
        Vec2 { x: size.x.saturating_add(extra), y: size.y.saturating_add(2) }
    }

    fn handle<C: Events<T::Event>>(&self, element: &T, input: Input, events: &mut C) {
        match input {
            Input::Key(key) => {
                element.handle(Input::Key(key), events);
            },
            Input::Mouse(mouse) => {
                let side: u16 = if self.padding {
                    2
                } else {
                    1
                };
                if mouse.at.x.saturating_add(side) >= mouse.size.x || mouse.at.y.saturating_add(1)
                    >= mouse.size.y || mouse.at.x < side || mouse.at.y < 1 || mouse.size.x < 2 * side
                    || mouse.size.y < 2 {
                    proof {
                        lemma_added_none(events.collected());
                    }
                } else {
                    let inner = Mouse {
                        at: Vec2 { x: mouse.at.x - side, y: mouse.at.y - 1 },
                        size: Vec2 { x: mouse.size.x - 2 * side, y: mouse.size.y - 2 },
                        ..mouse
                    };
                    element.handle(Input::Mouse(inner), events);
                }
            },
        }
    }
}

impl Border {
    /// Draws the border itself around an element with the given title, as
    /// [`Self::frame_ops`] says.
    fn draw_frame<O: Output>(&self, output: &mut O, title: &str, size: Vec2<u16>)
        requires
            old(output).valid(),
            old(output).extent() == size,
        ensures
            final(output).valid(),
            final(output).extent() == size,
            drew_all(*old(output), *final(output), self.frame_ops(title@, size)),
    {
        let ghost framed = *output;
        // Fill the padding.
        if self.padding {
            self.draw_rows(output, size, ' ', ' ', true);
        }
        let ghost padded = *output;
        self.draw_corners(output, size);
        let ghost cornered = *output;
        self.draw_rows(output, size, self.sides.1, self.sides.2, false);
        let ghost sided = *output;
        let top_start = match self.top_title_align {
            Some(align) => Some(Self::start_of(align, title, size)),
            None => None,
        };
        let bottom_start = match self.bottom_title_align {
            Some(align) => Some(Self::start_of(align, title, size)),
            None => None,
        };
        let ends = self.draw_titles(output, title, top_start, bottom_start, size);
        let ghost titled = *output;
        proof {
            self.lemma_title_ends(title@, top_start, bottom_start, size);
        }
        self.draw_edges(output, size, (top_start, ends.0), (bottom_start, ends.1));
        proof {
            let p = self.padding_ops(size);
            let c = self.corner_ops(size);
            let s = self.side_ops(size);
            let t = self.titles(title@, size).0;
            let e = self.edge_ops(title@, size);
            lemma_drew_all_concat(framed, padded, cornered, p, c);
            lemma_drew_all_concat(framed, cornered, sided, p + c, s);
            lemma_drew_all_concat(framed, sided, titled, p + c + s, t);
            lemma_drew_all_concat(framed, titled, *output, p + c + s + t, e);
        }
    }

    /// A title that starts in an edge ends in it.
    proof fn lemma_title_ends(self, title: Seq<char>, top: Option<u16>, bottom: Option<u16>, size: Vec2<u16>)
        ensures
            top is Some ==> self.title_pass(title, top, bottom, size).1 is Some,
            bottom is Some ==> self.title_pass(title, top, bottom, size).2 is Some,
        decreases title.len(),
    {
        if title.len() > 0 {
            let c = title[0];
            match display_width(c) {
                None => {
                    self.lemma_title_ends(title.drop_first(), top, bottom, size);
                },
                Some(width) => {
                    let top_fits = match top {
                        Some(offset) => offset + width < size.x,
                        None => true,
                    };
                    let lower = size.y > 1 && bottom is Some;
                    let bottom_fits = !lower || bottom->0 + width < size.x;
                    let next_top = if top is Some && top_fits {
                        Some((top->0 + width) as u16)
                    } else {
                        top
                    };
                    let next_bottom = if lower && top_fits && bottom_fits {
                        Some((bottom->0 + width) as u16)
                    } else {
                        bottom
                    };
                    if top_fits && bottom_fits {
                        self.lemma_title_ends(title.drop_first(), next_top, next_bottom, size);
                    }
                },
            }
        }
    }
}

} // verus!
