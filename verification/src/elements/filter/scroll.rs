//! Scrolling.

use crate::element::Element;
use crate::elements::filter::Filter;
use crate::events::Events;
use crate::input::{Input, Mouse};
use crate::output::{area_ops, draw_in_area, DrawOp, Output};
use crate::vec2::Vec2;
use vstd::prelude::*;

verus! {

/// How far an element is scrolled along an axis.
#[derive(Debug, Clone, Copy, PartialEq, Eq, Hash, Structural)]
pub enum ScrollOffset {
    /// The number of cells that are hidden before the part that is shown.
    Start(u16),
    /// The number of cells that are hidden behind the part that is shown.
    End(u16),
}

/// The length that a scrolled element gets along an axis: what it asks for, and at
/// least what the output has.
pub open spec fn scroll_length(ideal: u16, shown: u16) -> u16 {
    if ideal >= shown {
        ideal
    } else {
        shown
    }
}

/// The number of cells that are hidden before the part that is shown, for an element of
/// the given length in an output that shows `shown` cells of it. An element is never
/// scrolled further than to its end.
pub open spec fn scroll_start(offset: ScrollOffset, length: u16, shown: u16) -> u16 {
    let most = if length >= shown {
        (length - shown) as u16
    } else {
        0
    };
    match offset {
        ScrollOffset::Start(start) => if start <= most {
            start
        } else {
            most
        },
        ScrollOffset::End(end) => if most >= end {
            (most - end) as u16
        } else {
            0
        },
    }
}

/// Computes [`scroll_start`].
fn start_of(offset: ScrollOffset, length: u16, shown: u16) -> (start: u16)
    ensures
        start == scroll_start(offset, length, shown),
{
    let most = length.saturating_sub(shown);
    match offset {
        ScrollOffset::Start(start) => if start <= most {
            start
        } else {
            most
        },
        ScrollOffset::End(end) => most.saturating_sub(end),
    }
}

/// A filter that scrolls an element.
#[derive(Debug, Clone, Copy, PartialEq, Eq, Hash, Structural)]
pub struct Scroll {
    /// How far the element is scrolled along each axis. Along an axis without an offset
    /// the element is not scrolled.
    pub by: Vec2<Option<ScrollOffset>>,
}

impl Scroll {
    /// The size that the element gets in an output of the given size.
    ///
    /// Along an axis that is scrolled the element gets the length that it asks for, and at
    /// least the length of the output. Along the others it gets the width of the output.
    pub open spec fn size_in<T: Element>(self, element: &T, output_size: Vec2<u16>) -> Vec2<u16> {
        Vec2 {
            x: match self.by.x {
                Some(_) => scroll_length(element.width_for(output_size.y, None), output_size.x),
                None => output_size.x,
            },
            y: match self.by.y {
                Some(_) => scroll_length(element.height_for(output_size.x, None), output_size.y),
                None => output_size.x,
            },
        }
    }

    /// The cell of the element that is shown in the first cell of the output.
    pub open spec fn offset_in<T: Element>(self, element: &T, output_size: Vec2<u16>) -> Vec2<u16> {
        let size = self.size_in(element, output_size);
        Vec2 {
            x: match self.by.x {
                Some(offset) => scroll_start(offset, size.x, output_size.x),
                None => 0,
            },
            y: match self.by.y {
                Some(offset) => scroll_start(offset, size.y, output_size.y),
                None => 0,
            },
        }
    }

    /// The size that the element gets in an output of the given size, and the cell of the
    /// element that is shown in the first cell of the output.
    pub fn layout<T: Element>(self, element: &T, output_size: Vec2<u16>) -> (r: (Vec2<u16>, Vec2<u16>))
        requires
            element.wf(),
        ensures
            r == (self.size_in(element, output_size), self.offset_in(element, output_size)),
    {
        let (width, x) = match self.by.x {
            Some(offset) => {
                let ideal = element.ideal_width(output_size.y, None);
                let width = if ideal >= output_size.x {
                    ideal
                } else {
                    output_size.x
                };
                (width, start_of(offset, width, output_size.x))
            },
            None => (output_size.x, 0),
        };
        let (height, y) = match self.by.y {
            Some(offset) => {
                let ideal = element.ideal_height(output_size.x, None);
                let height = if ideal >= output_size.y {
                    ideal
                } else {
                    output_size.y
                };
                (height, start_of(offset, height, output_size.y))
            },
            None => (output_size.x, 0),
        };
        (Vec2 { x: width, y: height }, Vec2 { x, y })
    }
}

/// The position of the first cell of an element that is scrolled by `offset`.
pub open spec fn scrolled(offset: Vec2<u16>) -> Vec2<i32> {
    Vec2 { x: (-(offset.x as int)) as i32, y: (-(offset.y as int)) as i32 }
}

/// The mouse input as an element sees it that is scrolled by `offset` and has the given
/// size.
pub open spec fn mouse_scrolled(mouse: Mouse, offset: Vec2<u16>, size: Vec2<u16>) -> Mouse {
    Mouse {
        at: Vec2 {
            x: if mouse.at.x + offset.x <= u16::MAX {
                (mouse.at.x + offset.x) as u16
            } else {
                u16::MAX
            },
            y: if mouse.at.y + offset.y <= u16::MAX {
                (mouse.at.y + offset.y) as u16
            } else {
                u16::MAX
            },
        },
        size,
        ..mouse
    }
}

impl<T: Element> Filter<T> for Scroll {
    open spec fn wf(&self) -> bool {
        true
    }

    /// The element is drawn to an area that begins before the output's first cell, so
    /// that the output shows the part that was scrolled to.
    open spec fn drawing(&self, element: &T, size: Vec2<u16>) -> Seq<DrawOp> {
        area_ops(
            scrolled(self.offset_in(element, size)),
            self.size_in(element, size),
            element.drawing(self.size_in(element, size)),
        )
    }

    /// A key press goes to the element as it is, and a mouse input at the cell of the
    /// element that it points at.
    open spec fn reacts(&self, element: &T, input: Input, events: Seq<T::Event>) -> bool {
        match input {
            Input::Key(_) => element.reacts(input, events),
            Input::Mouse(mouse) => element.reacts(
                Input::Mouse(
                    mouse_scrolled(
                        mouse,
                        self.offset_in(element, mouse.size),
                        self.size_in(element, mouse.size),
                    ),
                ),
                events,
            ),
        }
    }

    open spec fn width_for(&self, element: &T, height: u16, max_width: Option<u16>) -> u16 {
        match self.by.x {
            Some(_) => 1,
            None => element.width_for(height, max_width),
        }
    }

    open spec fn height_for(&self, element: &T, width: u16, max_height: Option<u16>) -> u16 {
        match self.by.y {
            Some(_) => 1,
            None => element.height_for(width, max_height),
        }
    }

    open spec fn size_for(&self, element: &T, maximum: Vec2<Option<u16>>) -> Vec2<u16> {
        Vec2 {
            x: match self.by.x {
                Some(_) => 1,
                None => element.size_for(maximum).x,
            },
            y: match self.by.y {
                Some(_) => 1,
                None => element.size_for(maximum).y,
            },
        }
    }

    fn draw<O: Output>(&self, element: &T, output: O) -> (after: O) {
        let (size, offset) = self.layout(element, output.size());
        draw_in_area(
            element,
            output,
            Vec2 { x: -(offset.x as i32), y: -(offset.y as i32) },
            size,
        )
    }

    fn ideal_width(&self, element: &T, height: u16, max_width: Option<u16>) -> (width: u16) {
        match self.by.x {
            Some(_) => 1,
            None => element.ideal_width(height, max_width),
        }
    }

    fn ideal_height(&self, element: &T, width: u16, max_height: Option<u16>) -> (height: u16) {
        match self.by.y {
            Some(_) => 1,
            None => element.ideal_height(width, max_height),
        }
    }

    fn ideal_size(&self, element: &T, maximum: Vec2<Option<u16>>) -> (size: Vec2<u16>) {
        match self.by.x {
            Some(_) => match self.by.y {
                Some(_) => Vec2 { x: 1, y: 1 },
                None => Vec2 { x: 1, y: element.ideal_size(maximum).y },
            },
            None => {
                let size = element.ideal_size(maximum);
                match self.by.y {
                    Some(_) => Vec2 { x: size.x, y: 1 },
                    None => size,
                }
            },
        }
    }

    fn handle<C: Events<T::Event>>(&self, element: &T, input: Input, events: &mut C) {
        match input {
            Input::Mouse(mouse) => {
                let (size, offset) = self.layout(element, mouse.size);
                let at = Vec2 {
                    x: mouse.at.x.saturating_add(offset.x),
                    y: mouse.at.y.saturating_add(offset.y),
                };
                element.handle(Input::Mouse(Mouse { at, size, ..mouse }), events);
            },
            Input::Key(key) => {
                element.handle(Input::Key(key), events);
            },
        }
    }
}

} // verus!
