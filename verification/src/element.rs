//! Elements: the parts that a user interface is composed of.

use crate::buffer::BufferView;
use crate::events::Events;
use crate::input::Input;
use crate::output::{drew_all, DrawOp, Output};
use crate::vec2::Vec2;
use vstd::prelude::*;

verus! {

/// A composable part of the UI.
///
/// Elements are cheap, immutable, borrowed and short-lived. They usually implement [`Copy`].
///
/// What an element draws and the sizes that it asks for depend on nothing but the
/// element and the size that it is given.
pub trait Element {
    /// The type of event this element produces.
    type Event;

    /// The implementor's invariant. Every method asks for it.
    open spec fn wf(&self) -> bool {
        true
    }

    /// The drawing calls that the element makes on an output of the given size.
    open spec fn drawing(&self, size: Vec2<u16>) -> Seq<DrawOp> {
        arbitrary()
    }

    /// Whether the element may answer the input with these events.
    open spec fn reacts(&self, input: Input, events: Seq<Self::Event>) -> bool {
        true
    }

    /// The width that the element asks for.
    open spec fn width_for(&self, height: u16, max_width: Option<u16>) -> u16 {
        arbitrary()
    }

    /// The height that the element asks for.
    open spec fn height_for(&self, width: u16, max_height: Option<u16>) -> u16 {
        arbitrary()
    }

    /// The size that the element asks for.
    open spec fn size_for(&self, maximum: Vec2<Option<u16>>) -> Vec2<u16> {
        arbitrary()
    }

    /// Draw the element to the output.
    ///
    /// Elements shouldn't draw to every part of the output if they don't have to.
    ///
    /// The output is handed over and comes back with the element drawn to it.
    fn draw<O: Output>(&self, output: O) -> (after: O)
        requires
            self.wf(),
            output.valid(),
        ensures
            after.valid(),
            after.extent() == output.extent(),
            drew_all(output, after, self.drawing(output.extent())),
    ;

    /// Get the ideal width that this element takes up given a fixed height and an optional maximum
    /// width.
    ///
    /// Implementors may return a value higher than the maximum from this function, in which case
    /// callers should do their best to fulfill this request, but can simply cap it off at the
    /// maximum if they wish.
    fn ideal_width(&self, height: u16, max_width: Option<u16>) -> (width: u16)
        requires
            self.wf(),
        ensures
            width == self.width_for(height, max_width),
    ;

    /// Get the ideal height that this element takes up given a fixed width and an optional maximum
    /// height.
    ///
    /// Implementors may return a value higher than the maximum from this function, in which case
    /// callers should do their best to fulfill this request, but can simply cap it off at the
    /// maximum if they wish.
    fn ideal_height(&self, width: u16, max_height: Option<u16>) -> (height: u16)
        requires
            self.wf(),
        ensures
            height == self.height_for(width, max_height),
    ;

    /// Get the ideal size of the element given an optional maximum size.
    ///
    /// Implementors may return a value higher than the maximum from this function in either
    /// dimension, in which case callers should do their best to fulfill this request, but can
    /// simply cap it off at the maximum if they wish.
    fn ideal_size(&self, maximum: Vec2<Option<u16>>) -> (size: Vec2<u16>)
        requires
            self.wf(),
        ensures
            size == self.size_for(maximum),
    ;

    /// React to the input and output events if necessary.
    fn handle<C: Events<Self::Event>>(&self, input: Input, events: &mut C)
        requires
            self.wf(),
        ensures
            added(old(events).collected(), final(events).collected()),
            self.reacts(
                input,
                final(events).collected().skip(old(events).collected().len() as int),
            ),
    ;
}

impl<'a, E: Element> Element for &'a E {
    type Event = E::Event;

    open spec fn wf(&self) -> bool {
        (**self).wf()
    }

    open spec fn drawing(&self, size: Vec2<u16>) -> Seq<DrawOp> {
        (**self).drawing(size)
    }

    open spec fn reacts(&self, input: Input, events: Seq<E::Event>) -> bool {
        (**self).reacts(input, events)
    }

    open spec fn width_for(&self, height: u16, max_width: Option<u16>) -> u16 {
        (**self).width_for(height, max_width)
    }

    open spec fn height_for(&self, width: u16, max_height: Option<u16>) -> u16 {
        (**self).height_for(width, max_height)
    }

    open spec fn size_for(&self, maximum: Vec2<Option<u16>>) -> Vec2<u16> {
        (**self).size_for(maximum)
    }

    fn draw<O: Output>(&self, output: O) -> (after: O) {
        (**self).draw(output)
    }

    fn ideal_width(&self, height: u16, max_width: Option<u16>) -> (width: u16) {
        (**self).ideal_width(height, max_width)
    }

    fn ideal_height(&self, width: u16, max_height: Option<u16>) -> (height: u16) {
        (**self).ideal_height(width, max_height)
    }

    fn ideal_size(&self, maximum: Vec2<Option<u16>>) -> (size: Vec2<u16>) {
        (**self).ideal_size(maximum)
    }

    fn handle<C: Events<E::Event>>(&self, input: Input, events: &mut C) {
        (**self).handle(input, events)
    }
}

/// Whether the events in `after` are those in `before` and more behind them.
pub open spec fn added<Event>(before: Seq<Event>, after: Seq<Event>) -> bool {
    before.len() <= after.len() && after.take(before.len() as int) == before
}

/// Events are added where nothing changes: none.
pub proof fn lemma_added_none<Event>(events: Seq<Event>)
    ensures
        added(events, events),
        events.skip(events.len() as int) == Seq::<Event>::empty(),
{
    assert(events.take(events.len() as int) =~= events);
    assert(events.skip(events.len() as int) =~= Seq::<Event>::empty());
}

/// Events are added by one event after another.
pub proof fn lemma_added_more<Event>(before: Seq<Event>, mid: Seq<Event>, after: Seq<Event>)
    requires
        added(before, mid),
        added(mid, after),
    ensures
        added(before, after),
        after.skip(before.len() as int) == mid.skip(before.len() as int) + after.skip(
            mid.len() as int,
        ),
{
    assert(after.take(before.len() as int) =~= mid.take(before.len() as int)) by {
        assert(after.take(mid.len() as int) == mid);
        assert forall|i: int| 0 <= i < before.len() implies after[i] == mid[i] by {
            assert(after.take(mid.len() as int)[i] == mid[i]);
        }
    }
    assert(after.skip(before.len() as int) =~= mid.skip(before.len() as int) + after.skip(
        mid.len() as int,
    )) by {
        assert forall|i: int| before.len() <= i < mid.len() implies after[i] == mid[i] by {
            assert(after.take(mid.len() as int)[i] == mid[i]);
        }
    }
}

/// The terminal state after the drawing calls, made in order.
pub open spec fn drawn_all(frame: BufferView, ops: Seq<DrawOp>) -> BufferView
    decreases ops.len(),
{
    if ops.len() == 0 {
        frame
    } else {
        drawn_all(frame, ops.drop_last()).drawn(ops.last())
    }
}

/// Drawing keeps a terminal state well formed and as large as it was.
pub proof fn lemma_drawn_all_wf(frame: BufferView, ops: Seq<DrawOp>)
    requires
        frame.wf(),
    ensures
        drawn_all(frame, ops).wf(),
        drawn_all(frame, ops).width == frame.width,
        drawn_all(frame, ops).rows.len() == frame.rows.len(),
    decreases ops.len(),
{
    if ops.len() > 0 {
        lemma_drawn_all_wf(frame, ops.drop_last());
        drawn_all(frame, ops.drop_last()).lemma_drawn_wf(ops.last());
    }
}

/// A buffer that took a run of drawing calls shows what [`drawn_all`] says.
pub proof fn lemma_buffer_drew_all(
    before: crate::buffer::Buffer,
    after: crate::buffer::Buffer,
    ops: Seq<DrawOp>,
)
    requires
        drew_all(before, after, ops),
    ensures
        after@ == drawn_all(before@, ops),
    decreases ops.len(),
{
    if ops.len() > 0 {
        let mid = choose|mid: crate::buffer::Buffer|
            drew_all(before, mid, ops.drop_last()) && #[trigger] crate::output::drew_well(
                mid,
                after,
                ops.last(),
            );
        lemma_buffer_drew_all(before, mid, ops.drop_last());
    }
}

} // verus!
