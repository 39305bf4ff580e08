//! Filters that can be applied to elements.
//!
//! Filters implement the [`Filter`] trait. You can apply a filter to an element by creating a
//! [`Filtered`].

pub mod border;
pub mod fill_background;
pub mod float;
pub mod input_mask;
pub mod on;
pub mod scroll;
pub mod size;
pub mod tile;
pub mod title;

pub use border::Border;
pub use fill_background::FillBackground;
pub use float::Float;
pub use input_mask::InputMask;
pub use on::On;
pub use scroll::{Scroll, ScrollOffset};
pub use size::Size;
pub use tile::Tile;
pub use title::Title;

use crate::element::{added, Element};
use crate::events::Events;
use crate::input::Input;
use crate::output::{drew_all, DrawOp, Output};
use crate::vec2::Vec2;
use vstd::prelude::*;

verus! {

/// A wrapper around a single element that modifies it.
///
/// A filter says of each method what it makes of the element's own answer.
pub trait Filter<T: Element> {
    /// The implementor's invariant. Every method asks for it.
    open spec fn wf(&self) -> bool {
        true
    }

    /// The drawing calls that the filtered element makes on an output of the given size.
    open spec fn drawing(&self, element: &T, size: Vec2<u16>) -> Seq<DrawOp> {
        arbitrary()
    }

    /// Whether the filtered element may answer the input with these events.
    open spec fn reacts(&self, element: &T, input: Input, events: Seq<T::Event>) -> bool {
        true
    }

    /// The width that the filtered element asks for.
    open spec fn width_for(&self, element: &T, height: u16, max_width: Option<u16>) -> u16 {
        arbitrary()
    }

    /// The height that the filtered element asks for.
    open spec fn height_for(&self, element: &T, width: u16, max_height: Option<u16>) -> u16 {
        arbitrary()
    }

    /// The size that the filtered element asks for.
    open spec fn size_for(&self, element: &T, maximum: Vec2<Option<u16>>) -> Vec2<u16> {
        arbitrary()
    }

    /// Draw the filtered element to the output.
    fn draw<O: Output>(&self, element: &T, output: O) -> (after: O)
        requires
            self.wf(),
            element.wf(),
            output.valid(),
        ensures
            after.valid(),
            after.extent() == output.extent(),
            drew_all(output, after, self.drawing(element, output.extent())),
    ;

    /// Get the ideal width of the filtered element.
    fn ideal_width(&self, element: &T, height: u16, max_width: Option<u16>) -> (width: u16)
        requires
            self.wf(),
            element.wf(),
        ensures
            width == self.width_for(element, height, max_width),
    ;

    /// Get the ideal height of the filtered element.
    fn ideal_height(&self, element: &T, width: u16, max_height: Option<u16>) -> (height: u16)
        requires
            self.wf(),
            element.wf(),
        ensures
            height == self.height_for(element, width, max_height),
    ;

    /// Get the ideal size of the filtered element.
    fn ideal_size(&self, element: &T, maximum: Vec2<Option<u16>>) -> (size: Vec2<u16>)
        requires
            self.wf(),
            element.wf(),
        ensures
            size == self.size_for(element, maximum),
    ;

    /// React to the input and output events if necessary.
    fn handle<C: Events<T::Event>>(&self, element: &T, input: Input, events: &mut C)
        requires
            self.wf(),
            element.wf(),
        ensures
            added(old(events).collected(), final(events).collected()),
            self.reacts(
                element,
                input,
                final(events).collected().skip(old(events).collected().len() as int),
            ),
    ;
}

/// An element with a filter applied.
#[derive(Debug, Clone, Copy)]
pub struct Filtered<T, F> {
    /// The element the filter is applied to.
    pub element: T,
    /// The filter applied to the element.
    pub filter: F,
}

impl<T, F> Filtered<T, F> {
    /// Create a new filtered element.
    #[must_use]
    pub fn new(element: T, filter: F) -> (filtered: Self)
        ensures
            filtered == (Filtered { element, filter }),
    {
        Self { element, filter }
    }
}

impl<T: Element, F: Filter<T>> Element for Filtered<T, F> {
    type Event = T::Event;

    open spec fn wf(&self) -> bool {
        self.element.wf() && self.filter.wf()
    }

    open spec fn drawing(&self, size: Vec2<u16>) -> Seq<DrawOp> {
        self.filter.drawing(&self.element, size)
    }

    open spec fn reacts(&self, input: Input, events: Seq<T::Event>) -> bool {
        self.filter.reacts(&self.element, input, events)
    }

    open spec fn width_for(&self, height: u16, max_width: Option<u16>) -> u16 {
        self.filter.width_for(&self.element, height, max_width)
    }

    open spec fn height_for(&self, width: u16, max_height: Option<u16>) -> u16 {
        self.filter.height_for(&self.element, width, max_height)
    }

    open spec fn size_for(&self, maximum: Vec2<Option<u16>>) -> Vec2<u16> {
        self.filter.size_for(&self.element, maximum)
    }

    fn draw<O: Output>(&self, output: O) -> (after: O) {
        self.filter.draw(&self.element, output)
    }

    fn ideal_width(&self, height: u16, max_width: Option<u16>) -> (width: u16) {
        self.filter.ideal_width(&self.element, height, max_width)
    }

    fn ideal_height(&self, width: u16, max_height: Option<u16>) -> (height: u16) {
        self.filter.ideal_height(&self.element, width, max_height)
    }

    fn ideal_size(&self, maximum: Vec2<Option<u16>>) -> (size: Vec2<u16>) {
        self.filter.ideal_size(&self.element, maximum)
    }

    fn handle<C: Events<T::Event>>(&self, input: Input, events: &mut C) {
        self.filter.handle(&self.element, input, events);
    }
}

/// An alignment along an axis.
#[derive(Debug, Clone, Copy, PartialEq, Eq, Hash, Structural)]
pub enum Alignment {
    /// Aligned to the start of the axis: the left or the top.
    Start,
    /// Aligned to the middle of the axis.
    Middle,
    /// Aligned to the end of the axis: the right or the bottom.
    End,
}

/// The mouse input as an element sees it that is drawn to the area at `offset` of the
/// given size, or `None` where the input is outside the area.
pub open spec fn mouse_within(mouse: crate::input::Mouse, offset: Vec2<u16>, size: Vec2<u16>) -> Option<
    crate::input::Mouse,
> {
    if mouse.at.x >= offset.x && mouse.at.y >= offset.y && mouse.at.x - offset.x < size.x
        && mouse.at.y - offset.y < size.y {
        Some(
            crate::input::Mouse {
                at: Vec2 { x: (mouse.at.x - offset.x) as u16, y: (mouse.at.y - offset.y) as u16 },
                size,
                ..mouse
            },
        )
    } else {
        None
    }
}

/// Computes [`mouse_within`].
pub fn mouse_in_area(mouse: crate::input::Mouse, offset: Vec2<u16>, size: Vec2<u16>) -> (r: Option<
    crate::input::Mouse,
>)
    ensures
        r == mouse_within(mouse, offset, size),
{
    if mouse.at.x >= offset.x && mouse.at.y >= offset.y && mouse.at.x - offset.x < size.x
        && mouse.at.y - offset.y < size.y {
        Some(
            crate::input::Mouse {
                at: Vec2 { x: mouse.at.x - offset.x, y: mouse.at.y - offset.y },
                size,
                ..mouse
            },
        )
    } else {
        None
    }
}

} // verus!
