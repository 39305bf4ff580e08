//! Events on inputs.

use crate::element::{lemma_added_more, lemma_added_none, Element};
use crate::elements::filter::Filter;
use crate::events::Events;
use crate::input::{Input, Pattern};
use crate::output::{DrawOp, Output};
use crate::vec2::Vec2;
use vstd::prelude::*;

verus! {

/// A filter that triggers an event when an input occurs.
#[derive(Debug, Clone, Copy)]
#[non_exhaustive]
pub struct On<I, F> {
    /// The pattern of inputs that trigger the event.
    pub input_pattern: I,
    /// The function that makes the event.
    pub event: F,
    /// Whether the inner element gets the inputs that trigger the event, too.
    pub passive: bool,
}

impl<I, F> On<I, F> {
    /// Create a filter that listens actively: an input that triggers the event does not
    /// reach the element.
    #[must_use]
    pub fn new(input_pattern: I, event: F) -> (on: Self)
        ensures
            on == (On { input_pattern, event, passive: false }),
    {
        Self { input_pattern, event, passive: false }
    }

    /// Make the filter listen passively: the element gets every input.
    #[must_use]
    pub fn passive(self) -> (on: Self)
        ensures
            on == (On { passive: true, ..self }),
    {
        Self { passive: true, ..self }
    }
}

impl<T: Element, I: Pattern, F: Fn(Input) -> T::Event> Filter<T> for On<I, F> {
    open spec fn wf(&self) -> bool {
        &&& forall|input: Input| #[trigger] self.input_pattern.admits(input)
        &&& forall|input: Input| #[trigger] self.event.requires((input,))
    }

    open spec fn drawing(&self, element: &T, size: Vec2<u16>) -> Seq<DrawOp> {
        element.drawing(size)
    }

    /// Where the pattern matches, the events begin with the event that the function
    /// makes. The element's own events follow where the pattern does not match, or the
    /// filter listens passively.
    open spec fn reacts(&self, element: &T, input: Input, events: Seq<T::Event>) -> bool {
        ||| {
            &&& self.input_pattern.accepts(input, true)
            &&& events.len() > 0
            &&& self.event.ensures((input,), events[0])
            &&& if self.passive {
                element.reacts(input, events.skip(1))
            } else {
                events.len() == 1
            }
        }
        ||| self.input_pattern.accepts(input, false) && element.reacts(input, events)
    }

    open spec fn width_for(&self, element: &T, height: u16, max_width: Option<u16>) -> u16 {
        element.width_for(height, max_width)
    }

    open spec fn height_for(&self, element: &T, width: u16, max_height: Option<u16>) -> u16 {
        element.height_for(width, max_height)
    }

    open spec fn size_for(&self, element: &T, maximum: Vec2<Option<u16>>) -> Vec2<u16> {
        element.size_for(maximum)
    }

    fn draw<O: Output>(&self, element: &T, output: O) -> (after: O) {
        element.draw(output)
    }

    fn ideal_width(&self, element: &T, height: u16, max_width: Option<u16>) -> (width: u16) {
        element.ideal_width(height, max_width)
    }

    fn ideal_height(&self, element: &T, width: u16, max_height: Option<u16>) -> (height: u16) {
        element.ideal_height(width, max_height)
    }

    fn ideal_size(&self, element: &T, maximum: Vec2<Option<u16>>) -> (size: Vec2<u16>) {
        element.ideal_size(maximum)
    }

    fn handle<C: Events<T::Event>>(&self, element: &T, input: Input, events: &mut C) {
        let ghost before = events.collected();
        let matches = self.input_pattern.matches(input);
        if matches {
            let event = (self.event)(input);
            events.add(event);
            let ghost mid = events.collected();
            assert(mid.take(before.len() as int) =~= before);
            assert(mid.skip(before.len() as int) =~= seq![event]);
            if self.passive {
                element.handle(input, events);
                proof {
                    let after = events.collected();
                    lemma_added_more(before, mid, after);
                    assert(after.skip(before.len() as int).skip(1) =~= after.skip(mid.len() as int));
                }
            }
        } else {
            element.handle(input, events);
        }
    }
}

} // verus!
