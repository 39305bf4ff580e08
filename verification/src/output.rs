//! Outputs which elements draw to.

use crate::cursor::Cursor;
use crate::style::Style;
use crate::vec2::Vec2;
use crate::width::{char_width, display_width, present};
use vstd::prelude::*;
use vstd::std_specs::convert::IntoSpec;
use vstd::std_specs::iter::IteratorSpec;

verus! {

/// One call of an [`Output`], as a mathematical value.
pub enum DrawOp {
    /// A character was written at a position.
    Char {
        /// Where the character was written.
        pos: Vec2<u16>,
        /// The character.
        c: char,
        /// The style it was written in.
        style: Style,
    },
    /// The title was set.
    Title(Seq<char>),
    /// The cursor was set or removed.
    Cursor(Option<Cursor>),
}

/// An output to which elements draw themselves.
///
/// An output has a size that drawing never changes, and says of each of its three
/// drawing calls what the call does to it, as a relation between the output before the
/// call and after it.
pub trait Output: Sized {
    /// The implementor's invariant. Every method asks for it and keeps it.
    open spec fn valid(&self) -> bool {
        true
    }

    /// The size of the output.
    open spec fn extent(&self) -> Vec2<u16> {
        arbitrary()
    }

    /// Whether `after` is what this output becomes by the drawing call.
    open spec fn drew(&self, after: &Self, op: DrawOp) -> bool {
        true
    }

    /// Get the size of the output.
    ///
    /// Attempting to draw content outside the size will silently fail.
    #[must_use]
    fn size(&self) -> (size: Vec2<u16>)
        requires
            self.valid(),
        ensures
            size == self.extent(),
    ;

    /// Write a single character to the output at a zero-indexed position.
    ///
    /// Failures are intentionally ignored and not detectable.
    ///
    /// - Drawing a control character will fail.
    /// - Drawing a character out of bounds will fail.
    /// - Drawing a double-width character to the last column of the screen will fail.
    /// - Drawing a zero-width character on top of an existing character will add it to it, ignoring
    /// the zero-width character's style.
    /// - Drawing a zero-width character on the second column of a double-width character will fail.
    /// - Drawing a single-width or double-width character on top of a single-width character will
    /// completely replace it.
    /// - Drawing a single-width or double-width character to either column of a double-width
    /// character will completely replace the columns drawn to, and any other columns previously
    /// occupied by the double-width character will retain the background color of the double-width
    /// character.
    fn write_char(&mut self, pos: Vec2<u16>, c: char, style: Style)
        requires
            old(self).valid(),
        ensures
            final(self).valid(),
            final(self).extent() == old(self).extent(),
            old(self).drew(final(self), DrawOp::Char { pos, c, style }),
    ;

    /// Set the title of the output.
    ///
    /// If this is called multiple times the last one will be used.
    fn set_title(&mut self, title: &str)
        requires
            old(self).valid(),
        ensures
            final(self).valid(),
            final(self).extent() == old(self).extent(),
            old(self).drew(final(self), DrawOp::Title(title@)),
    ;

    /// Set the cursor of the output, if there is one.
    ///
    /// If this is called multiple times the last one will be used.
    fn set_cursor(&mut self, cursor: Option<Cursor>)
        requires
            old(self).valid(),
        ensures
            final(self).valid(),
            final(self).extent() == old(self).extent(),
            old(self).drew(final(self), DrawOp::Cursor(cursor)),
    ;
}

/// Whether `after` is what `before` becomes by the drawing call: a valid output of the
/// same size.
pub open spec fn drew_well<O: Output>(before: O, after: O, op: DrawOp) -> bool {
    before.drew(&after, op) && after.valid() && after.extent() == before.extent()
}

/// Whether `after` is what `before` becomes by the drawing calls, made in order.
pub open spec fn drew_all<O: Output>(before: O, after: O, ops: Seq<DrawOp>) -> bool
    decreases ops.len(),
{
    if ops.len() == 0 {
        after == before
    } else {
        exists|mid: O| drew_all(before, mid, ops.drop_last()) && #[trigger] drew_well(mid, after, ops.last())
    }
}

/// A run of drawing calls keeps an output valid and as large as it was.
pub proof fn lemma_drew_all_keeps<O: Output>(before: O, after: O, ops: Seq<DrawOp>)
    requires
        before.valid(),
        drew_all(before, after, ops),
    ensures
        after.valid(),
        after.extent() == before.extent(),
    decreases ops.len(),
{
    if ops.len() > 0 {
        let mid = choose|mid: O|
            drew_all(before, mid, ops.drop_last()) && #[trigger] drew_well(mid, after, ops.last());
        lemma_drew_all_keeps(before, mid, ops.drop_last());
    }
}

/// One more call extends a run of drawing calls.
pub proof fn lemma_drew_all_push<O: Output>(before: O, mid: O, after: O, ops: Seq<DrawOp>, op: DrawOp)
    requires
        drew_all(before, mid, ops),
        drew_well(mid, after, op),
    ensures
        drew_all(before, after, ops.push(op)),
{
    let all = ops.push(op);
    assert(all.drop_last() =~= ops);
    assert(all.last() == op);
    assert(drew_all(before, mid, all.drop_last()) && drew_well(mid, after, all.last()));
}

/// Two runs of drawing calls, one after the other, make one run.
pub proof fn lemma_drew_all_concat<O: Output>(
    before: O,
    mid: O,
    after: O,
    first: Seq<DrawOp>,
    second: Seq<DrawOp>,
)
    requires
        drew_all(before, mid, first),
        drew_all(mid, after, second),
    ensures
        drew_all(before, after, first + second),
    decreases second.len(),
{
    if second.len() == 0 {
        assert(first + second =~= first);
    } else {
        let last_mid = choose|m: O|
            drew_all(mid, m, second.drop_last()) && #[trigger] drew_well(m, after, second.last());
        lemma_drew_all_concat(before, mid, last_mid, first, second.drop_last());
        let all = first + second;
        assert(all.drop_last() =~= first + second.drop_last());
        assert(all.last() == second.last());
        assert(drew_all(before, last_mid, all.drop_last()) && drew_well(last_mid, after, all.last()));
    }
}

/// The calls that writing a text makes: one for each character that is no control
/// character, each as many columns behind the one before as that one is wide. The text
/// ends where it reaches the column `total_width`.
pub open spec fn text_ops(pos: Vec2<u16>, text: Seq<char>, style: Style, total_width: u16) -> Seq<
    DrawOp,
>
    decreases text.len(),
{
    if text.len() == 0 {
        Seq::empty()
    } else {
        match display_width(text[0]) {
            None => text_ops(pos, text.drop_first(), style, total_width),
            Some(width) => {
                let op = DrawOp::Char { pos, c: text[0], style };
                if pos.x + width >= total_width {
                    seq![op]
                } else {
                    seq![op] + text_ops(
                        Vec2 { x: (pos.x + width) as u16, y: pos.y },
                        text.drop_first(),
                        style,
                        total_width,
                    )
                }
            },
        }
    }
}

/// Where a position within an area of the given size lies in the output that the area
/// is a part of, or `None` where the position is outside the area or outside any output.
pub open spec fn area_target(top_left: Vec2<i32>, size: Vec2<u16>, pos: Vec2<u16>) -> Option<
    Vec2<u16>,
> {
    if pos.x < size.x && pos.y < size.y && 0 <= pos.x + top_left.x <= u16::MAX && 0 <= pos.y
        + top_left.y <= u16::MAX {
        Some(Vec2 { x: (pos.x + top_left.x) as u16, y: (pos.y + top_left.y) as u16 })
    } else {
        None
    }
}

/// The call that an area hands on to its output for a call of its own, or `None` where
/// the area keeps the call to itself.
///
/// - A character outside the area is dropped, and so is a character of two columns in
///   the area's last column.
/// - A cursor outside the area is removed.
/// - The title passes as it is.
pub open spec fn area_op(top_left: Vec2<i32>, size: Vec2<u16>, op: DrawOp) -> Option<DrawOp> {
    match op {
        DrawOp::Char { pos, c, style } => match area_target(top_left, size, pos) {
            Some(target) => if pos.x == size.x - 1 && display_width(c) == Some(2usize) {
                None
            } else {
                Some(DrawOp::Char { pos: target, c, style })
            },
            None => None,
        },
        DrawOp::Title(title) => Some(DrawOp::Title(title)),
        DrawOp::Cursor(cursor) => Some(
            DrawOp::Cursor(
                match cursor {
                    Some(cursor) => match area_target(top_left, size, cursor.pos) {
                        Some(pos) => Some(Cursor { pos, ..cursor }),
                        None => None,
                    },
                    None => None,
                },
            ),
        ),
    }
}

/// An [`Output`] that draws to an area of another output, created by the
/// [`area`](Ext::area) method.
#[derive(Debug)]
#[non_exhaustive]
pub struct Area<O> {
    /// The inner output.
    pub inner: O,
    /// Where the area's first cell lies in the inner output.
    pub top_left: Vec2<i32>,
    /// The size of the area.
    pub size: Vec2<u16>,
}

impl<O: Output> Area<O> {
    /// Where a position of the area lies in the inner output, if the position is inside
    /// the area and the inner output can have such a position.
    fn target(&self, pos: Vec2<u16>) -> (r: Option<Vec2<u16>>)
        ensures
            r == area_target(self.top_left, self.size, pos),
    {
        if pos.x >= self.size.x || pos.y >= self.size.y {
            return None;
        }
        let x: i64 = pos.x as i64 + self.top_left.x as i64;
        let y: i64 = pos.y as i64 + self.top_left.y as i64;
        if x < 0 || x > 0xFFFF || y < 0 || y > 0xFFFF {
            return None;
        }
        Some(Vec2 { x: x as u16, y: y as u16 })
    }
}

impl<O: Output> Output for Area<O> {
    open spec fn valid(&self) -> bool {
        self.inner.valid()
    }

    open spec fn extent(&self) -> Vec2<u16> {
        self.size
    }

    open spec fn drew(&self, after: &Self, op: DrawOp) -> bool {
        &&& after.top_left == self.top_left
        &&& after.size == self.size
        &&& match area_op(self.top_left, self.size, op) {
            Some(inner_op) => drew_well(self.inner, after.inner, inner_op),
            None => after.inner == self.inner,
        }
    }

    fn size(&self) -> (size: Vec2<u16>) {
        self.size
    }

    fn write_char(&mut self, pos: Vec2<u16>, c: char, style: Style) {
        match self.target(pos) {
            Some(target) => {
                if pos.x == self.size.x - 1 {
                    match char_width(c) {
                        Some(2) => {
                            return ;
                        },
                        _ => {},
                    }
                }
                self.inner.write_char(target, c, style);
            },
            None => {},
        }
    }

    fn set_title(&mut self, title: &str) {
        self.inner.set_title(title);
    }

    fn set_cursor(&mut self, cursor: Option<Cursor>) {
        let inner_cursor = match cursor {
            Some(cursor) => match self.target(cursor.pos) {
                Some(pos) => Some(Cursor { pos, ..cursor }),
                None => None,
            },
            None => None,
        };
        self.inner.set_cursor(inner_cursor);
    }
}

/// The calls that an area hands on to its output for a run of calls of its own.
pub open spec fn area_ops(top_left: Vec2<i32>, size: Vec2<u16>, ops: Seq<DrawOp>) -> Seq<DrawOp>
    decreases ops.len(),
{
    if ops.len() == 0 {
        Seq::empty()
    } else {
        let before = area_ops(top_left, size, ops.drop_last());
        match area_op(top_left, size, ops.last()) {
            Some(op) => before.push(op),
            None => before,
        }
    }
}

/// What an area took, its output took as [`area_ops`] says.
pub proof fn lemma_area_drew_all<O: Output>(before: Area<O>, after: Area<O>, ops: Seq<DrawOp>)
    requires
        drew_all(before, after, ops),
    ensures
        after.top_left == before.top_left,
        after.size == before.size,
        drew_all(before.inner, after.inner, area_ops(before.top_left, before.size, ops)),
    decreases ops.len(),
{
    if ops.len() > 0 {
        let mid = choose|mid: Area<O>|
            drew_all(before, mid, ops.drop_last()) && #[trigger] drew_well(mid, after, ops.last());
        lemma_area_drew_all(before, mid, ops.drop_last());
        match area_op(before.top_left, before.size, ops.last()) {
            Some(op) => {
                lemma_drew_all_push(
                    before.inner,
                    mid.inner,
                    after.inner,
                    area_ops(before.top_left, before.size, ops.drop_last()),
                    op,
                );
            },
            None => {},
        }
    }
}

/// Draws the element to an area of the output: the output takes the element's calls as
/// [`area_ops`] says.
pub fn draw_in_area<E: crate::element::Element, O: Output>(
    element: &E,
    output: O,
    top_left: Vec2<i32>,
    size: Vec2<u16>,
) -> (after: O)
    requires
        element.wf(),
        output.valid(),
    ensures
        after.valid(),
        after.extent() == output.extent(),
        drew_all(output, after, area_ops(top_left, size, element.drawing(size))),
{
    let area = Area { inner: output, top_left, size };
    let drawn = element.draw(area);
    proof {
        lemma_area_drew_all(area, drawn, element.drawing(size));
        lemma_drew_all_keeps(output, drawn.inner, area_ops(top_left, size, element.drawing(size)));
    }
    drawn.inner
}

/// The call that a cursor gate hands on to its output, or `None` where it keeps the call
/// to itself: a gate that does not pass the cursor drops every cursor call.
pub open spec fn gate_op(pass: bool, op: DrawOp) -> Option<DrawOp> {
    match op {
        DrawOp::Cursor(_) => if pass {
            Some(op)
        } else {
            None
        },
        _ => Some(op),
    }
}

/// The calls that a cursor gate hands on to its output for a run of calls of its own.
pub open spec fn gate_ops(pass: bool, ops: Seq<DrawOp>) -> Seq<DrawOp>
    decreases ops.len(),
{
    if ops.len() == 0 {
        Seq::empty()
    } else {
        let before = gate_ops(pass, ops.drop_last());
        match gate_op(pass, ops.last()) {
            Some(op) => before.push(op),
            None => before,
        }
    }
}

/// An [`Output`] that decides what becomes of the cursor that is set on it: it either
/// passes the cursor on to the inner output or drops it. Created by the
/// [`on_set_cursor`](Ext::on_set_cursor) function.
#[derive(Debug)]
pub struct OnSetCursor<O> {
    /// The inner output.
    pub inner: O,
    /// Whether the cursor is passed on.
    pub pass: bool,
}

impl<O: Output> Output for OnSetCursor<O> {
    open spec fn valid(&self) -> bool {
        self.inner.valid()
    }

    open spec fn extent(&self) -> Vec2<u16> {
        self.inner.extent()
    }

    open spec fn drew(&self, after: &Self, op: DrawOp) -> bool {
        &&& after.pass == self.pass
        &&& match gate_op(self.pass, op) {
            Some(inner_op) => drew_well(self.inner, after.inner, inner_op),
            None => after.inner == self.inner,
        }
    }

    fn size(&self) -> (size: Vec2<u16>) {
        self.inner.size()
    }

    fn write_char(&mut self, pos: Vec2<u16>, c: char, style: Style) {
        self.inner.write_char(pos, c, style);
    }

    fn set_title(&mut self, title: &str) {
        self.inner.set_title(title);
    }

    fn set_cursor(&mut self, cursor: Option<Cursor>) {
        if self.pass {
            self.inner.set_cursor(cursor);
        }
    }
}

/// What a cursor gate took, its output took as [`gate_ops`] says.
pub proof fn lemma_gate_drew_all<O: Output>(before: OnSetCursor<O>, after: OnSetCursor<O>, ops: Seq<DrawOp>)
    requires
        drew_all(before, after, ops),
    ensures
        after.pass == before.pass,
        drew_all(before.inner, after.inner, gate_ops(before.pass, ops)),
    decreases ops.len(),
{
    if ops.len() > 0 {
        let mid = choose|mid: OnSetCursor<O>|
            drew_all(before, mid, ops.drop_last()) && #[trigger] drew_well(mid, after, ops.last());
        lemma_gate_drew_all(before, mid, ops.drop_last());
        match gate_op(before.pass, ops.last()) {
            Some(op) => {
                lemma_drew_all_push(
                    before.inner,
                    mid.inner,
                    after.inner,
                    gate_ops(before.pass, ops.drop_last()),
                    op,
                );
            },
            None => {},
        }
    }
}

/// Writes a text at a position of an output, as [`text_ops`] says.
pub fn write_text<O: Output>(output: &mut O, start: Vec2<u16>, value: &str, style: Style)
    requires
        old(output).valid(),
    ensures
        final(output).valid(),
        final(output).extent() == old(output).extent(),
        drew_all(
            *old(output),
            *final(output),
            text_ops(start, value@, style, old(output).extent().x),
        ),
{
    let total_width = output.size().x;
    let mut pos = start;
    let ghost mut done: Seq<DrawOp> = Seq::empty();
    let mut chars = value.chars();
    loop
        invariant_except_break
            text_ops(start, value@, style, total_width) == done + text_ops(
                pos,
                chars.remaining(),
                style,
                total_width,
            ),
        invariant
            output.valid(),
            output.extent() == old(output).extent(),
            total_width == old(output).extent().x,
            drew_all(*old(output), *output, done),
            chars.obeys_prophetic_iter_laws(),
            chars.decrease() is Some,
        ensures
            drew_all(*old(output), *output, text_ops(start, value@, style, total_width)),
        decreases chars.decrease().unwrap(),
    {
        let ghost rest = chars.remaining();
        let ghost whole = text_ops(start, value@, style, total_width);
        let next = chars.next();
        if next.is_none() {
            assert(whole =~= done);
            break ;
        }
        let c = present(next);
        let measured = char_width(c);
        if measured.is_some() {
            let width = measured.unwrap();
            let ghost before = *output;
            let ghost op = DrawOp::Char { pos, c, style };
            output.write_char(pos, c, style);
            proof {
                lemma_drew_all_push(*old(output), before, *output, done, op);
                assert(done + seq![op] =~= done.push(op));
                done = done.push(op);
            }
            let room: usize = if pos.x < total_width {
                (total_width - pos.x) as usize
            } else {
                0
            };
            if width >= room {
                assert(whole =~= done);
                break ;
            }
            let x = pos.x + width as u16;
            assert(whole =~= done + text_ops(
                Vec2 { x, y: pos.y },
                rest.drop_first(),
                style,
                total_width,
            ));
            pos = Vec2 { x, y: pos.y };
        }
    }
}

/// Extension methods for outputs.
pub trait Ext: Output {
    /// Write a text to the specified position in the output.
    ///
    /// If it overflows the width of the terminal it will be cut off. Control characters will be
    /// ignored.
    fn write<P: Into<Vec2<u16>>>(&mut self, pos: P, value: &str, style: Style)
        requires
            old(self).valid(),
        ensures
            final(self).valid(),
            final(self).extent() == old(self).extent(),
            P::obeys_into_spec() ==> drew_all(
                *old(self),
                *final(self),
                text_ops(pos.into_spec(), value@, style, old(self).extent().x),
            ),
    {
        let start: Vec2<u16> = pos.into();
        write_text(self, start, value, style)
    }

    /// Create an output that draws to the specified area of this output.
    ///
    /// You can create an area that draws beyond the bounds of this output, in which case it will
    /// all be ignored.
    ///
    /// The `top_left` parameter is conceptually an `i17`, but that doesn't exist so we use [`i32`].
    #[must_use]
    fn area(self, top_left: Vec2<i32>, size: Vec2<u16>) -> (area: Area<Self>)
        ensures
            area == (Area { inner: self, top_left, size }),
    {
        Area { inner: self, top_left, size }
    }

    /// Create an output that passes the cursor on to this output, or drops it.
    #[must_use]
    fn on_set_cursor(self, pass: bool) -> (gate: OnSetCursor<Self>)
        ensures
            gate == (OnSetCursor { inner: self, pass }),
    {
        OnSetCursor { inner: self, pass }
    }
}

impl<T: Output> Ext for T {

}

} // verus!
