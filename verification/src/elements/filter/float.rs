//! Floating elements.

use crate::element::{lemma_added_none, Element};
use crate::elements::filter::{mouse_in_area, mouse_within, Alignment, Filter};
use crate::events::Events;
use crate::input::{Input, Mouse};
use crate::output::{area_ops, draw_in_area, DrawOp, Output};
use crate::vec2::Vec2;
use vstd::prelude::*;

verus! {

/// The smaller of two lengths.
pub open spec fn at_most(a: u16, b: u16) -> u16 {
    if a <= b {
        a
    } else {
        b
    }
}

/// Where a part of length `size` starts in a whole of length `total`, for the given
/// alignment. Without an alignment the part starts where the whole starts.
pub open spec fn float_offset(align: Option<Alignment>, size: u16, total: u16) -> u16 {
    match align {
        Some(Alignment::Middle) => if total / 2 >= size / 2 {
            (total / 2 - size / 2) as u16
        } else {
            0
        },
        Some(Alignment::End) => if total >= size {
            (total - size) as u16
        } else {
            0
        },
        _ => 0,
    }
}

/// A filter that makes an element float: along an axis with an alignment the element gets
/// its ideal size and is put where the alignment says.
#[derive(Debug, Clone, Copy, PartialEq, Eq, Structural)]
#[non_exhaustive]
pub struct Float {
    /// The alignment along each axis. Along an axis without one the element takes all
    /// the space.
    pub align: Vec2<Option<Alignment>>,
}

impl Float {
    /// Create a filter that makes an element float.
    #[must_use]
    pub fn new(align: Vec2<Option<Alignment>>) -> (float: Self)
        ensures
            float.align == align,
    {
        Self { align }
    }

    /// The size that the element gets in an output of the given size: the size that it
    /// asks for along the axes with an alignment, and never more than the output has.
    pub open spec fn size_in<T: Element>(self, element: &T, output_size: Vec2<u16>) -> Vec2<u16> {
        match (self.align.x, self.align.y) {
            (Some(_), Some(_)) => {
                let ideal = element.size_for(Vec2 { x: Some(output_size.x), y: Some(output_size.y) });
                Vec2 { x: at_most(ideal.x, output_size.x), y: at_most(ideal.y, output_size.y) }
            },
            (Some(_), None) => Vec2 {
                x: at_most(element.width_for(output_size.y, Some(output_size.x)), output_size.x),
                y: output_size.y,
            },
            (None, Some(_)) => Vec2 {
                x: output_size.x,
                y: at_most(element.height_for(output_size.x, Some(output_size.y)), output_size.y),
            },
            (None, None) => output_size,
        }
    }

    /// Where the element is put in an output of the given size.
    pub open spec fn offset_in<T: Element>(self, element: &T, output_size: Vec2<u16>) -> Vec2<u16> {
        let size = self.size_in(element, output_size);
        Vec2 {
            x: float_offset(self.align.x, size.x, output_size.x),
            y: float_offset(self.align.y, size.y, output_size.y),
        }
    }

    /// Where the element is put in an output of the given size, and the size that it gets.
    pub fn calculate_layout<T: Element>(self, element: &T, output_size: Vec2<u16>) -> (r: (
        Vec2<u16>,
        Vec2<u16>,
    ))
        requires
            element.wf(),
        ensures
            r == (self.offset_in(element, output_size), self.size_in(element, output_size)),
    {
        let size = match self.align.x {
            Some(_) => match self.align.y {
                Some(_) => element.ideal_size(
                    Vec2 { x: Some(output_size.x), y: Some(output_size.y) },
                ),
                None => Vec2 {
                    x: element.ideal_width(output_size.y, Some(output_size.x)),
                    y: output_size.y,
                },
            },
            None => match self.align.y {
                Some(_) => Vec2 {
                    x: output_size.x,
                    y: element.ideal_height(output_size.x, Some(output_size.y)),
                },
                None => output_size,
            },
        };
        let size = Vec2 {
            x: if size.x <= output_size.x {
                size.x
            } else {
                output_size.x
            },
            y: if size.y <= output_size.y {
                size.y
            } else {
                output_size.y
            },
        };
        let offset = Vec2 {
            x: offset_of(self.align.x, size.x, output_size.x),
            y: offset_of(self.align.y, size.y, output_size.y),
        };
        (offset, size)
    }
}

/// Computes [`float_offset`].
fn offset_of(align: Option<Alignment>, size: u16, total: u16) -> (offset: u16)
    ensures
        offset == float_offset(align, size, total),
{
    match align {
        Some(Alignment::Middle) => (total / 2).saturating_sub(size / 2),
        Some(Alignment::End) => total.saturating_sub(size),
        _ => 0,
    }
}

/// The offset as a signed position.
pub open spec fn signed(offset: Vec2<u16>) -> Vec2<i32> {
    Vec2 { x: offset.x as i32, y: offset.y as i32 }
}

impl<T: Element> Filter<T> for Float {
    open spec fn wf(&self) -> bool {
        true
    }

    /// The element is drawn to the area where it floats.
    open spec fn drawing(&self, element: &T, size: Vec2<u16>) -> Seq<DrawOp> {
        area_ops(
            signed(self.offset_in(element, size)),
            self.size_in(element, size),
            element.drawing(self.size_in(element, size)),
        )
    }

    /// A key press goes to the element. A mouse input goes to the element where it lies
    /// in the area where the element floats, and is dropped otherwise.
    open spec fn reacts(&self, element: &T, input: Input, events: Seq<T::Event>) -> bool {
        match input {
            Input::Key(_) => element.reacts(input, events),
            Input::Mouse(mouse) => match mouse_within(
                mouse,
                self.offset_in(element, mouse.size),
                self.size_in(element, mouse.size),
            ) {
                Some(inner) => element.reacts(Input::Mouse(inner), events),
                None => events.len() == 0,
            },
        }
    }

    open spec fn width_for(&self, element: &T, height: u16, max_width: Option<u16>) -> u16 {
        element.width_for(height, max_width)
    }

    open spec fn height_for(&self, element: &T, width: u16, max_height: Option<u16>) -> u16 {
        element.height_for(width, max_height)
    }

    open spec fn size_for(&self, element: &T, maximum: Vec2<Option<u16>>) -> Vec2<u16> {
        element.size_for(maximum)
    }

    fn draw<O: Output>(&self, element: &T, output: O) -> (after: O) {
        let (offset, size) = self.calculate_layout(element, output.size());
        draw_in_area(element, output, Vec2 { x: offset.x as i32, y: offset.y as i32 }, size)
    }

    fn ideal_width(&self, element: &T, height: u16, max_width: Option<u16>) -> (width: u16) {
        element.ideal_width(height, max_width)
    }

    fn ideal_height(&self, element: &T, width: u16, max_height: Option<u16>) -> (height: u16) {
        element.ideal_height(width, max_height)
    }

    fn ideal_size(&self, element: &T, maximum: Vec2<Option<u16>>) -> (size: Vec2<u16>) {
        element.ideal_size(maximum)
    }

    fn handle<C: Events<T::Event>>(&self, element: &T, input: Input, events: &mut C) {
        match input {
            Input::Key(key) => {
                element.handle(Input::Key(key), events);
            },
            Input::Mouse(mouse) => {
                let (offset, size) = self.calculate_layout(element, mouse.size);
                match mouse_in_area(mouse, offset, size) {
                    Some(inner) => {
                        element.handle(Input::Mouse(inner), events);
                    },
                    None => {
                        proof {
                            lemma_added_none(events.collected());
                        }
                    },
                }
            },
        }
    }
}

} // verus!
