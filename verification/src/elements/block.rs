//! Blocks of a single color.

use crate::element::Element;
use crate::events::Events;
use crate::input::Input;
use crate::output::{drew_all, lemma_drew_all_push, DrawOp, Output};
use crate::style::{Attributes, Color, Style};
use crate::vec2::Vec2;
use core::marker::PhantomData;
use vstd::prelude::*;
use vstd::std_specs::convert::IntoSpec;

verus! {

/// The style of a block of the given color: the color is the background.
pub open spec fn block_style(color: Color) -> Style {
    Style { foreground: Color::Default, background: color, attributes: Attributes::plain() }
}

/// The calls that fill an output of the given size with spaces in the given style:
/// column by column from the left, and each column from the top.
pub open spec fn fill_ops(size: Vec2<u16>, style: Style) -> Seq<DrawOp> {
    Seq::new(
        (size.x * size.y) as nat,
        |i: int|
            DrawOp::Char { pos: Vec2 { x: (i / size.y as int) as u16, y: (i % size.y as int) as u16 }, c: ' ', style },
    )
}

/// Fills the output with spaces in the given style, as [`fill_ops`] says.
pub fn fill_output<O: Output>(output: &mut O, style: Style)
    requires
        old(output).valid(),
    ensures
        final(output).valid(),
        final(output).extent() == old(output).extent(),
        drew_all(*old(output), *final(output), fill_ops(old(output).extent(), style)),
{
    let size = output.size();
    let ghost all = fill_ops(size, style);
    let mut x: u16 = 0;
    while x < size.x
        invariant
            x <= size.x,
            output.valid(),
            output.extent() == size,
            size == old(output).extent(),
            all == fill_ops(size, style),
            drew_all(*old(output), *output, all.take(x * size.y)),
        decreases size.x - x,
    {
        let mut y: u16 = 0;
        assert(x * size.y + size.y == (x + 1) * size.y) by (nonlinear_arith);
        assert((x + 1) * size.y <= size.x * size.y) by (nonlinear_arith)
            requires
                x + 1 <= size.x,
        ;
        while y < size.y
            invariant
                x < size.x,
                y <= size.y,
                output.valid(),
                output.extent() == size,
                all == fill_ops(size, style),
                x * size.y + size.y <= size.x * size.y,
                drew_all(*old(output), *output, all.take(x * size.y + y)),
            decreases size.y - y,
        {
            let ghost before = *output;
            let ghost i = x * size.y + y;
            output.write_char(Vec2 { x, y }, ' ', style);
            proof {
                assert(i / size.y as int == x && i % size.y as int == y) by (nonlinear_arith)
                    requires
                        i == x * size.y + y,
                        0 <= y < size.y,
                        0 <= x,
                ;
                assert(all[i] == DrawOp::Char { pos: Vec2 { x, y }, c: ' ', style });
                lemma_drew_all_push(*old(output), before, *output, all.take(i), all[i]);
                assert(all.take(i).push(all[i]) =~= all.take(i + 1));
            }
            y += 1;
        }
        x += 1;
    }
    assert(all.take(size.x * size.y) =~= all);
}

/// A block of a single color.
#[derive(Debug, Hash, PartialEq, Eq)]
pub struct Block<Event> {
    /// The color of the block. If set to [`None`] this block will be transparent.
    pub color: Option<Color>,
    /// The events that the block produces: none.
    pub event: PhantomData<Event>,
}

impl<Event> Block<Event> {
    /// Create a new block with the given color. Note that use of the [`empty`] and [`fill`]
    /// functions is preferred.
    #[must_use]
    pub fn new(color: Option<Color>) -> (block: Self)
        ensures
            block.color == color,
    {
        Self { color, event: PhantomData }
    }
}

impl<Event> Clone for Block<Event> {
    /// A block of the same color.
    fn clone(&self) -> (block: Self)
        ensures
            block == *self,
    {
        Self { color: self.color, event: PhantomData }
    }
}

impl<Event> Copy for Block<Event> {

}

impl<Event> Element for Block<Event> {
    type Event = Event;

    open spec fn wf(&self) -> bool {
        true
    }

    /// A block with a color fills the output with spaces on that color; a block without
    /// one draws nothing.
    open spec fn drawing(&self, size: Vec2<u16>) -> Seq<DrawOp> {
        match self.color {
            Some(color) => fill_ops(size, block_style(color)),
            None => Seq::empty(),
        }
    }

    /// A block answers no input.
    open spec fn reacts(&self, input: Input, events: Seq<Event>) -> bool {
        events.len() == 0
    }

    open spec fn width_for(&self, height: u16, max_width: Option<u16>) -> u16 {
        0
    }

    open spec fn height_for(&self, width: u16, max_height: Option<u16>) -> u16 {
        0
    }

    open spec fn size_for(&self, maximum: Vec2<Option<u16>>) -> Vec2<u16> {
        Vec2 { x: 0, y: 0 }
    }

    fn draw<O: Output>(&self, output: O) -> (after: O) {
        let mut output = output;
        match self.color {
            Some(color) => {
                let style = Style::new(Color::Default, color, Attributes::new());
                fill_output(&mut output, style);
            },
            None => {},
        }
        output
    }

    fn ideal_width(&self, _height: u16, _max_width: Option<u16>) -> (width: u16) {
        0
    }

    fn ideal_height(&self, _width: u16, _max_height: Option<u16>) -> (height: u16) {
        0
    }

    fn ideal_size(&self, _maximum: Vec2<Option<u16>>) -> (size: Vec2<u16>) {
        Vec2 { x: 0, y: 0 }
    }

    fn handle<C: Events<Event>>(&self, _input: Input, events: &mut C) {
        proof {
            crate::element::lemma_added_none(events.collected());
        }
    }
}

/// Create a block of a single color.
#[must_use]
pub fn fill<C: Into<Color>, Event>(color: C) -> (block: Block<Event>)
    ensures
        block.color is Some,
        C::obeys_into_spec() ==> block.color == Some(color.into_spec()),
{
    Block::new(Some(color.into()))
}

/// Create a transparent block.
#[must_use]
pub fn empty<Event>() -> (block: Block<Event>)
    ensures
        block.color is None,
{
    Block::new(None)
}

} // verus!
