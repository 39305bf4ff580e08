//! Masks on the inputs that reach an element.

use crate::element::{lemma_added_none, Element};
use crate::elements::filter::Filter;
use crate::events::Events;
use crate::input::{Input, Pattern};
use crate::output::{DrawOp, Output};
use crate::vec2::Vec2;
use vstd::prelude::*;

verus! {

/// A filter that masks the inputs that reach an element: the element gets the inputs that
/// the pattern matches.
#[derive(Debug, Clone, Copy)]
pub struct InputMask<P> {
    /// The pattern of the inputs that pass.
    pub pattern: P,
}

impl<T: Element, P: Pattern> Filter<T> for InputMask<P> {
    open spec fn wf(&self) -> bool {
        forall|input: Input| #[trigger] self.pattern.admits(input)
    }

    open spec fn drawing(&self, element: &T, size: Vec2<u16>) -> Seq<DrawOp> {
        element.drawing(size)
    }

    open spec fn reacts(&self, element: &T, input: Input, events: Seq<T::Event>) -> bool {
        ||| self.pattern.accepts(input, true) && element.reacts(input, events)
        ||| self.pattern.accepts(input, false) && events.len() == 0
    }

    open spec fn width_for(&self, element: &T, height: u16, max_width: Option<u16>) -> u16 {
        element.width_for(height, max_width)
    }

    open spec fn height_for(&self, element: &T, width: u16, max_height: Option<u16>) -> u16 {
        element.height_for(width, max_height)
    }

    open spec fn size_for(&self, element: &T, maximum: Vec2<Option<u16>>) -> Vec2<u16> {
        element.size_for(maximum)
    }

    fn draw<O: Output>(&self, element: &T, output: O) -> (after: O) {
        element.draw(output)
    }

    fn ideal_width(&self, element: &T, height: u16, max_width: Option<u16>) -> (width: u16) {
        element.ideal_width(height, max_width)
    }

    fn ideal_height(&self, element: &T, width: u16, max_height: Option<u16>) -> (height: u16) {
        element.ideal_height(width, max_height)
    }

    fn ideal_size(&self, element: &T, maximum: Vec2<Option<u16>>) -> (size: Vec2<u16>) {
        element.ideal_size(maximum)
    }

    fn handle<C: Events<T::Event>>(&self, element: &T, input: Input, events: &mut C) {
        if self.pattern.matches(input) {
            element.handle(input, events);
        } else {
            proof {
                lemma_added_none(events.collected());
            }
        }
    }
}

} // verus!
