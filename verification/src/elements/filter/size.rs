//! Fixed sizes.

use crate::element::Element;
use crate::elements::filter::Filter;
use crate::events::Events;
use crate::input::Input;
use crate::output::{DrawOp, Output};
use crate::vec2::Vec2;
use vstd::prelude::*;

verus! {

/// A filter that sets the size of an element.
#[derive(Debug, Hash, PartialEq, Eq, Clone, Copy, Structural)]
pub struct Size {
    /// The size that the element asks for, where one is set.
    pub size: Vec2<Option<u16>>,
}

impl<T: Element> Filter<T> for Size {
    open spec fn wf(&self) -> bool {
        true
    }

    open spec fn drawing(&self, element: &T, size: Vec2<u16>) -> Seq<DrawOp> {
        element.drawing(size)
    }

    open spec fn reacts(&self, element: &T, input: Input, events: Seq<T::Event>) -> bool {
        element.reacts(input, events)
    }

    open spec fn width_for(&self, element: &T, height: u16, max_width: Option<u16>) -> u16 {
        match self.size.x {
            Some(width) => width,
            None => element.width_for(height, max_width),
        }
    }

    open spec fn height_for(&self, element: &T, width: u16, max_height: Option<u16>) -> u16 {
        match self.size.y {
            Some(height) => height,
            None => element.height_for(width, max_height),
        }
    }

    open spec fn size_for(&self, element: &T, maximum: Vec2<Option<u16>>) -> Vec2<u16> {
        Vec2 {
            x: match self.size.x {
                Some(width) => width,
                None => element.size_for(maximum).x,
            },
            y: match self.size.y {
                Some(height) => height,
                None => element.size_for(maximum).y,
            },
        }
    }

    fn draw<O: Output>(&self, element: &T, output: O) -> (after: O) {
        element.draw(output)
    }

    fn ideal_width(&self, element: &T, height: u16, max_width: Option<u16>) -> (width: u16) {
        match self.size.x {
            Some(width) => width,
            None => element.ideal_width(height, max_width),
        }
    }

    fn ideal_height(&self, element: &T, width: u16, max_height: Option<u16>) -> (height: u16) {
        match self.size.y {
            Some(height) => height,
            None => element.ideal_height(width, max_height),
        }
    }

    fn ideal_size(&self, element: &T, maximum: Vec2<Option<u16>>) -> (size: Vec2<u16>) {
        match self.size.x {
            Some(x) => match self.size.y {
                // Avoid getting the element's size if we can
                Some(y) => Vec2 { x, y },
                None => Vec2 { x, y: element.ideal_size(maximum).y },
            },
            None => {
                let element_size = element.ideal_size(maximum);
                match self.size.y {
                    Some(y) => Vec2 { x: element_size.x, y },
                    None => element_size,
                }
            },
        }
    }

    fn handle<C: Events<T::Event>>(&self, element: &T, input: Input, events: &mut C) {
        element.handle(input, events)
    }
}

} // verus!
