//! Stacks of elements.

use crate::element::{added, lemma_added_more, lemma_added_none, Element};
use crate::elements::containers::Collection;
use crate::events::Events;
use crate::input::Input;
use crate::output::{drew_all, lemma_drew_all_concat, DrawOp, Output};
use crate::vec2::Vec2;
use vstd::prelude::*;

verus! {

/// The drawing calls of the first `upto` elements of a collection, one element after the
/// other.
pub open spec fn stacked_ops<E: Collection>(elements: &E, size: Vec2<u16>, upto: nat) -> Seq<DrawOp>
    decreases upto,
{
    if upto == 0 {
        Seq::empty()
    } else {
        stacked_ops(elements, size, (upto - 1) as nat) + elements.drawing_at(upto - 1, size)
    }
}

/// Whether the first `upto` elements of a collection, asked one after the other, may
/// answer the input with these events.
pub open spec fn all_react<E: Collection>(elements: &E, input: Input, events: Seq<E::Event>, upto: nat) -> bool
    decreases upto,
{
    if upto == 0 {
        events.len() == 0
    } else {
        exists|k: int|
            0 <= k <= events.len() && all_react(elements, input, events.take(k), (upto - 1) as nat)
                && #[trigger] elements.reacts_at(upto - 1, input, events.skip(k))
    }
}

/// The largest of the widths that the first `upto` elements ask for.
pub open spec fn widest<E: Collection>(elements: &E, height: u16, max_width: Option<u16>, upto: nat) -> u16
    decreases upto,
{
    if upto == 0 {
        0
    } else {
        let before = widest(elements, height, max_width, (upto - 1) as nat);
        let width = elements.width_at(upto - 1, height, max_width);
        if width > before {
            width
        } else {
            before
        }
    }
}

/// The largest of the heights that the first `upto` elements ask for.
pub open spec fn tallest<E: Collection>(elements: &E, width: u16, max_height: Option<u16>, upto: nat) -> u16
    decreases upto,
{
    if upto == 0 {
        0
    } else {
        let before = tallest(elements, width, max_height, (upto - 1) as nat);
        let height = elements.height_at(upto - 1, width, max_height);
        if height > before {
            height
        } else {
            before
        }
    }
}

/// The largest width and the largest height of the sizes that the first `upto` elements
/// ask for.
pub open spec fn largest<E: Collection>(elements: &E, maximum: Vec2<Option<u16>>, upto: nat) -> Vec2<u16>
    decreases upto,
{
    if upto == 0 {
        Vec2 { x: 0, y: 0 }
    } else {
        let before = largest(elements, maximum, (upto - 1) as nat);
        let size = elements.size_at(upto - 1, maximum);
        Vec2 {
            x: if size.x > before.x {
                size.x
            } else {
                before.x
            },
            y: if size.y > before.y {
                size.y
            } else {
                before.y
            },
        }
    }
}

/// Draws the elements of a collection to the output, one after the other.
pub fn draw_all<E: Collection, O: Output>(elements: &E, output: O) -> (after: O)
    requires
        elements.wf(),
        output.valid(),
    ensures
        after.valid(),
        after.extent() == output.extent(),
        drew_all(output, after, stacked_ops(elements, output.extent(), elements.count())),
{
    let len = elements.len();
    let mut drawn = output;
    let mut i: usize = 0;
    while i < len
        invariant
            i <= len,
            len == elements.count(),
            elements.wf(),
            drawn.valid(),
            drawn.extent() == output.extent(),
            drew_all(output, drawn, stacked_ops(elements, output.extent(), i as nat)),
        decreases len - i,
    {
        let ghost before = drawn;
        drawn = elements.draw_at(i, drawn);
        proof {
            lemma_drew_all_concat(
                output,
                before,
                drawn,
                stacked_ops(elements, output.extent(), i as nat),
                elements.drawing_at(i as int, output.extent()),
            );
        }
        i += 1;
    }
    drawn
}

/// Lets the elements of a collection react to the input, one after the other.
pub fn handle_all<E: Collection, C: Events<E::Event>>(elements: &E, input: Input, events: &mut C)
    requires
        elements.wf(),
    ensures
        added(old(events).collected(), final(events).collected()),
        all_react(
            elements,
            input,
            final(events).collected().skip(old(events).collected().len() as int),
            elements.count(),
        ),
{
    let len = elements.len();
    let ghost start = events.collected();
    let mut i: usize = 0;
    proof {
        lemma_added_none(start);
    }
    while i < len
        invariant
            i <= len,
            len == elements.count(),
            elements.wf(),
            start == old(events).collected(),
            added(start, events.collected()),
            all_react(elements, input, events.collected().skip(start.len() as int), i as nat),
        decreases len - i,
    {
        let ghost mid = events.collected();
        elements.handle_at(i, input, events);
        proof {
            let after = events.collected();
            lemma_added_more(start, mid, after);
            let given = after.skip(start.len() as int);
            let k = mid.len() - start.len();
            assert(given.take(k) =~= mid.skip(start.len() as int));
            assert(given.skip(k) =~= after.skip(mid.len() as int));
            let upto = (i + 1) as nat;
            assert(0 <= k <= given.len());
            assert(all_react(elements, input, given.take(k), (upto - 1) as nat));
            assert(elements.reacts_at(upto - 1, input, given.skip(k)));
            assert(all_react(elements, input, given, upto));
        }
        i += 1;
    }
}

/// A stack of elements: they are drawn one over the other, the first at the bottom.
/// Created by the [`stack`] function.
#[derive(Debug, Clone, Copy, PartialEq, Eq)]
#[non_exhaustive]
pub struct Stack<E> {
    /// The elements in the stack.
    pub elements: E,
    /// Whether to broadcast inputs to all elements. If `false`, only the top element will
    /// receive inputs.
    pub broadcast_inputs: bool,
}

impl<E> Stack<E> {
    /// Broadcast inputs to all elements, instead of just the top one.
    #[must_use]
    pub fn broadcast_inputs(self) -> (stack: Self)
        ensures
            stack == (Stack { broadcast_inputs: true, ..self }),
    {
        Self { broadcast_inputs: true, ..self }
    }
}

impl<E: Collection> Element for Stack<E> {
    type Event = E::Event;

    open spec fn wf(&self) -> bool {
        self.elements.wf()
    }

    open spec fn drawing(&self, size: Vec2<u16>) -> Seq<DrawOp> {
        stacked_ops(&self.elements, size, self.elements.count())
    }

    /// Every element is asked where inputs are broadcast, and the top element alone
    /// otherwise. An empty stack answers nothing.
    open spec fn reacts(&self, input: Input, events: Seq<E::Event>) -> bool {
        if self.broadcast_inputs {
            all_react(&self.elements, input, events, self.elements.count())
        } else if self.elements.count() > 0 {
            self.elements.reacts_at(self.elements.count() - 1, input, events)
        } else {
            events.len() == 0
        }
    }

    open spec fn width_for(&self, height: u16, max_width: Option<u16>) -> u16 {
        widest(&self.elements, height, max_width, self.elements.count())
    }

    open spec fn height_for(&self, width: u16, max_height: Option<u16>) -> u16 {
        tallest(&self.elements, width, max_height, self.elements.count())
    }

    open spec fn size_for(&self, maximum: Vec2<Option<u16>>) -> Vec2<u16> {
        largest(&self.elements, maximum, self.elements.count())
    }

    fn draw<O: Output>(&self, output: O) -> (after: O) {
        draw_all(&self.elements, output)
    }

    fn ideal_width(&self, height: u16, max_width: Option<u16>) -> (width: u16) {
        let len = self.elements.len();
        let mut widest_yet: u16 = 0;
        let mut i: usize = 0;
        while i < len
            invariant
                i <= len,
                len == self.elements.count(),
                self.elements.wf(),
                widest_yet == widest(&self.elements, height, max_width, i as nat),
            decreases len - i,
        {
            let width = self.elements.ideal_width_at(i, height, max_width);
            if width > widest_yet {
                widest_yet = width;
            }
            i += 1;
        }
        widest_yet
    }

    fn ideal_height(&self, width: u16, max_height: Option<u16>) -> (height: u16) {
        let len = self.elements.len();
        let mut tallest_yet: u16 = 0;
        let mut i: usize = 0;
        while i < len
            invariant
                i <= len,
                len == self.elements.count(),
                self.elements.wf(),
                tallest_yet == tallest(&self.elements, width, max_height, i as nat),
            decreases len - i,
        {
            let height = self.elements.ideal_height_at(i, width, max_height);
            if height > tallest_yet {
                tallest_yet = height;
            }
            i += 1;
        }
        tallest_yet
    }

    fn ideal_size(&self, maximum: Vec2<Option<u16>>) -> (size: Vec2<u16>) {
        let len = self.elements.len();
        let mut largest_yet = Vec2 { x: 0u16, y: 0u16 };
        let mut i: usize = 0;
        while i < len
            invariant
                i <= len,
                len == self.elements.count(),
                self.elements.wf(),
                largest_yet == largest(&self.elements, maximum, i as nat),
            decreases len - i,
        {
            let size = self.elements.ideal_size_at(i, maximum);
            largest_yet = Vec2 {
                x: if size.x > largest_yet.x {
                    size.x
                } else {
                    largest_yet.x
                },
                y: if size.y > largest_yet.y {
                    size.y
                } else {
                    largest_yet.y
                },
            };
            i += 1;
        }
        largest_yet
    }

    fn handle<C: Events<E::Event>>(&self, input: Input, events: &mut C) {
        if self.broadcast_inputs {
            handle_all(&self.elements, input, events);
        } else {
            let len = self.elements.len();
            if len > 0 {
                self.elements.handle_at(len - 1, input, events);
            } else {
                proof {
                    lemma_added_none(events.collected());
                }
            }
        }
    }
}

/// Create a stack of elements.
///
/// By default inputs will not be broadcast to all elements.
#[must_use]
pub fn stack<E: Collection>(elements: E) -> (stack: Stack<E>)
    ensures
        stack == (Stack { elements, broadcast_inputs: false }),
{
    Stack { elements, broadcast_inputs: false }
}

} // verus!
