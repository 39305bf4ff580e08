//! Titles.

use crate::element::Element;
use crate::elements::filter::Filter;
use crate::elements::span::Label;
use crate::events::Events;
use crate::input::Input;
use crate::output::{lemma_drew_all_push, DrawOp, Output};
use crate::vec2::Vec2;
use vstd::prelude::*;

verus! {

/// A filter that sets the title of an element.
#[derive(Debug, Hash, PartialEq, Eq, Clone, Copy)]
#[non_exhaustive]
pub struct Title<T> {
    /// The title.
    pub title: T,
}

impl<T> Title<T> {
    /// Create a filter that sets the title of an element.
    #[must_use]
    pub fn new(title: T) -> (filter: Self)
        ensures
            filter.title == title,
    {
        Self { title }
    }
}

impl<E: Element, T: Label> Filter<E> for Title<T> {
    open spec fn wf(&self) -> bool {
        true
    }

    /// The element is drawn, then the title is set: a title that the element has set is
    /// replaced.
    open spec fn drawing(&self, element: &E, size: Vec2<u16>) -> Seq<DrawOp> {
        element.drawing(size).push(DrawOp::Title(self.title.text()))
    }

    open spec fn reacts(&self, element: &E, input: Input, events: Seq<E::Event>) -> bool {
        element.reacts(input, events)
    }

    open spec fn width_for(&self, element: &E, height: u16, max_width: Option<u16>) -> u16 {
        element.width_for(height, max_width)
    }

    open spec fn height_for(&self, element: &E, width: u16, max_height: Option<u16>) -> u16 {
        element.height_for(width, max_height)
    }

    open spec fn size_for(&self, element: &E, maximum: Vec2<Option<u16>>) -> Vec2<u16> {
        element.size_for(maximum)
    }

    fn draw<O: Output>(&self, element: &E, output: O) -> (after: O) {
        let mut drawn = element.draw(output);
        let ghost mid = drawn;
        drawn.set_title(self.title.as_str());
        proof {
            lemma_drew_all_push(
                output,
                mid,
                drawn,
                element.drawing(output.extent()),
                DrawOp::Title(self.title.text()),
            );
        }
        drawn
    }

    fn ideal_width(&self, element: &E, height: u16, max_width: Option<u16>) -> (width: u16) {
        element.ideal_width(height, max_width)
    }

    fn ideal_height(&self, element: &E, width: u16, max_height: Option<u16>) -> (height: u16) {
        element.ideal_height(width, max_height)
    }

    fn ideal_size(&self, element: &E, maximum: Vec2<Option<u16>>) -> (size: Vec2<u16>) {
        element.ideal_size(maximum)
    }

    fn handle<C: Events<E::Event>>(&self, element: &E, input: Input, events: &mut C) {
        element.handle(input, events)
    }
}

} // verus!
