//! Common elements for building user interfaces.

pub mod block;
pub mod containers;
pub mod dev;
pub mod filter;
pub mod layout;
pub mod map_event;
pub mod span;

pub use block::{empty, fill, Block};
pub use containers::{
    flow, row, stack, stretch, Axis, Collection, Container1D, End, Flow, InnerElement,
    Layout1D, Stack, Static, Stretch,
};
pub use dev::Dev;
pub use filter::{
    Alignment, Border, FillBackground, Filter, Filtered, Float, InputMask, On, Scroll,
    ScrollOffset, Size, Tile, Title,
};
pub use map_event::MapEvent;
pub use span::{span, text, Label, Span, Text};

use crate::element::Element;
use crate::input::{Input, Pattern};
use crate::style::Color;
use crate::vec2::Vec2;
use vstd::prelude::*;
use vstd::std_specs::convert::IntoSpec;

verus! {

/// An extension trait for elements providing useful methods.
pub trait ElementExt: Element + Sized {
    /// Filter this element using the given filter.
    ///
    /// This is a shortcut method for [`Filtered::new`].
    #[must_use]
    fn filter<F: Filter<Self>>(self, filter: F) -> (filtered: Filtered<Self, F>)
        ensures
            filtered == (Filtered { element: self, filter }),
    {
        Filtered::new(self, filter)
    }

    /// Trigger an event when an input occurs.
    ///
    /// The created element will listen to inputs _actively_; the input if it occurs will not be
    /// passed to the inner element.
    #[must_use]
    fn on<I: Pattern, F: Fn(Input) -> Self::Event>(self, input_pattern: I, event: F) -> (filtered: Filtered<
        Self,
        On<I, F>,
    >)
        ensures
            filtered == (Filtered {
                element: self,
                filter: On { input_pattern, event, passive: false },
            }),
    {
        Filtered::new(self, On::new(input_pattern, event))
    }

    /// Trigger an event when an input occurs, passively; the inner element will still receive
    /// all inputs.
    #[must_use]
    fn on_passive<I: Pattern, F: Fn(Input) -> Self::Event>(self, input_pattern: I, event: F) -> (filtered:
        Filtered<Self, On<I, F>>)
        ensures
            filtered == (Filtered {
                element: self,
                filter: On { input_pattern, event, passive: true },
            }),
    {
        Filtered::new(self, On::new(input_pattern, event).passive())
    }

    /// Make the element float in both axes with the given alignment.
    #[must_use]
    fn float<A: Into<Vec2<Alignment>>>(self, align: A) -> (filtered: Filtered<Self, Float>)
        ensures
            filtered.element == self,
            A::obeys_into_spec() ==> filtered.filter.align == (Vec2 {
                x: Some(align.into_spec().x),
                y: Some(align.into_spec().y),
            }),
    {
        let align: Vec2<Alignment> = align.into();
        Filtered::new(self, Float::new(Vec2 { x: Some(align.x), y: Some(align.y) }))
    }

    /// Make the element float in the X axis only with the given alignment.
    #[must_use]
    fn float_x(self, align: Alignment) -> (filtered: Filtered<Self, Float>)
        ensures
            filtered.element == self,
            filtered.filter.align == (Vec2 { x: Some(align), y: None::<Alignment> }),
    {
        Filtered::new(self, Float::new(Vec2 { x: Some(align), y: None }))
    }

    /// Make the element float in the Y axis only with the given alignment.
    #[must_use]
    fn float_y(self, align: Alignment) -> (filtered: Filtered<Self, Float>)
        ensures
            filtered.element == self,
            filtered.filter.align == (Vec2 { x: None::<Alignment>, y: Some(align) }),
    {
        Filtered::new(self, Float::new(Vec2 { x: None, y: Some(align) }))
    }

    /// Set the title of the element.
    #[must_use]
    fn title<T: Label>(self, title: T) -> (filtered: Filtered<Self, Title<T>>)
        ensures
            filtered.element == self,
            filtered.filter.title == title,
    {
        Filtered::new(self, Title::new(title))
    }

    /// Set the width that the element asks for.
    #[must_use]
    fn width(self, width: u16) -> (filtered: Filtered<Self, Size>)
        ensures
            filtered == (Filtered {
                element: self,
                filter: Size { size: Vec2 { x: Some(width), y: None } },
            }),
    {
        Filtered::new(self, Size { size: Vec2 { x: Some(width), y: None } })
    }

    /// Set the height that the element asks for.
    #[must_use]
    fn height(self, height: u16) -> (filtered: Filtered<Self, Size>)
        ensures
            filtered == (Filtered {
                element: self,
                filter: Size { size: Vec2 { x: None, y: Some(height) } },
            }),
    {
        Filtered::new(self, Size { size: Vec2 { x: None, y: Some(height) } })
    }

    /// Set the size that the element asks for.
    #[must_use]
    fn size<S: Into<Vec2<u16>>>(self, size: S) -> (filtered: Filtered<Self, Size>)
        ensures
            filtered.element == self,
            S::obeys_into_spec() ==> filtered.filter.size == (Vec2 {
                x: Some(size.into_spec().x),
                y: Some(size.into_spec().y),
            }),
    {
        let size: Vec2<u16> = size.into();
        Filtered::new(self, Size { size: Vec2 { x: Some(size.x), y: Some(size.y) } })
    }

    /// Map the type of event produced by the element.
    #[must_use]
    fn map_event<Event2, F: Fn(Self::Event) -> Event2>(self, f: F) -> (mapped: MapEvent<Self, F>)
        ensures
            mapped == (MapEvent { inner: self, f }),
    {
        MapEvent { inner: self, f }
    }

    /// Mask the type of inputs that go through to the element according to the pattern.
    #[must_use]
    fn mask_inputs<P: Pattern>(self, pattern: P) -> (filtered: Filtered<Self, InputMask<P>>)
        ensures
            filtered == (Filtered { element: self, filter: InputMask { pattern } }),
    {
        Filtered::new(self, InputMask { pattern })
    }

    /// Scroll the element by a certain amount in the X axis.
    #[must_use]
    fn scroll_x(self, x: ScrollOffset) -> (filtered: Filtered<Self, Scroll>)
        ensures
            filtered == (Filtered {
                element: self,
                filter: Scroll { by: Vec2 { x: Some(x), y: None } },
            }),
    {
        Filtered::new(self, Scroll { by: Vec2 { x: Some(x), y: None } })
    }

    /// Scroll the element by a certain amount in the Y axis.
    #[must_use]
    fn scroll_y(self, y: ScrollOffset) -> (filtered: Filtered<Self, Scroll>)
        ensures
            filtered == (Filtered {
                element: self,
                filter: Scroll { by: Vec2 { x: None, y: Some(y) } },
            }),
    {
        Filtered::new(self, Scroll { by: Vec2 { x: None, y: Some(y) } })
    }

    /// Scroll the element by a certain amount in both axes.
    #[must_use]
    fn scroll<S: Into<Vec2<ScrollOffset>>>(self, by: S) -> (filtered: Filtered<Self, Scroll>)
        ensures
            filtered.element == self,
            S::obeys_into_spec() ==> filtered.filter.by == (Vec2 {
                x: Some(by.into_spec().x),
                y: Some(by.into_spec().y),
            }),
    {
        let by: Vec2<ScrollOffset> = by.into();
        Filtered::new(self, Scroll { by: Vec2 { x: Some(by.x), y: Some(by.y) } })
    }

    /// Tile the element in the X axis, with the first tile offset by a number of cells.
    #[must_use]
    fn tile_x(self, offset: u16) -> (filtered: Filtered<Self, Tile>)
        ensures
            filtered.element == self,
            filtered.filter.offset == (Vec2 { x: Some(offset), y: None::<u16> }),
    {
        Filtered::new(self, Tile::new(Vec2 { x: Some(offset), y: None }))
    }

    /// Tile the element in the Y axis, with the first tile offset by a number of cells.
    #[must_use]
    fn tile_y(self, offset: u16) -> (filtered: Filtered<Self, Tile>)
        ensures
            filtered.element == self,
            filtered.filter.offset == (Vec2 { x: None::<u16>, y: Some(offset) }),
    {
        Filtered::new(self, Tile::new(Vec2 { x: None, y: Some(offset) }))
    }

    /// Tile the element in both axes, with the first tile offset by a number of cells.
    #[must_use]
    fn tile<S: Into<Vec2<u16>>>(self, offset: S) -> (filtered: Filtered<Self, Tile>)
        ensures
            filtered.element == self,
            S::obeys_into_spec() ==> filtered.filter.offset == (Vec2 {
                x: Some(offset.into_spec().x),
                y: Some(offset.into_spec().y),
            }),
    {
        let offset: Vec2<u16> = offset.into();
        Filtered::new(self, Tile::new(Vec2 { x: Some(offset.x), y: Some(offset.y) }))
    }

    /// Fill the background of the element with a color.
    #[must_use]
    fn fill_background(self, color: Color) -> (filtered: Filtered<Self, FillBackground>)
        ensures
            filtered == (Filtered { element: self, filter: FillBackground { color } }),
    {
        Filtered::new(self, FillBackground { color })
    }
}

impl<T: Element> ElementExt for T {

}

} // verus!
