//! Backgrounds.

use crate::element::Element;
use crate::elements::block::{fill_ops, fill_output};
use crate::elements::filter::Filter;
use crate::events::Events;
use crate::input::Input;
use crate::output::{lemma_drew_all_concat, DrawOp, Output};
use crate::style::{Attributes, Color, Style};
use crate::vec2::Vec2;
use vstd::prelude::*;

verus! {

/// A filter that fills the background of an element with a color before the element is
/// drawn.
#[derive(Debug, Clone, Copy, PartialEq, Eq, Structural)]
pub struct FillBackground {
    /// The color of the background.
    pub color: Color,
}

impl<T: Element> Filter<T> for FillBackground {
    open spec fn wf(&self) -> bool {
        true
    }

    open spec fn drawing(&self, element: &T, size: Vec2<u16>) -> Seq<DrawOp> {
        fill_ops(
            size,
            Style {
                foreground: Color::Default,
                background: self.color,
                attributes: Attributes::plain(),
            },
        ) + element.drawing(size)
    }

    open spec fn reacts(&self, element: &T, input: Input, events: Seq<T::Event>) -> bool {
        element.reacts(input, events)
    }

    open spec fn width_for(&self, element: &T, height: u16, max_width: Option<u16>) -> u16 {
        element.width_for(height, max_width)
    }

    open spec fn height_for(&self, element: &T, width: u16, max_height: Option<u16>) -> u16 {
        element.height_for(width, max_height)
    }

    open spec fn size_for(&self, element: &T, maximum: Vec2<Option<u16>>) -> Vec2<u16> {
        element.size_for(maximum)
    }

    fn draw<O: Output>(&self, element: &T, output: O) -> (after: O) {
        let mut filled = output;
        let style = Style::new(Color::Default, self.color, Attributes::new());
        fill_output(&mut filled, style);
        let ghost mid = filled;
        let drawn = element.draw(filled);
        proof {
            lemma_drew_all_concat(
                output,
                mid,
                drawn,
                fill_ops(output.extent(), style),
                element.drawing(output.extent()),
            );
        }
        drawn
    }

    fn ideal_width(&self, element: &T, height: u16, max_width: Option<u16>) -> (width: u16) {
        element.ideal_width(height, max_width)
    }

    fn ideal_height(&self, element: &T, width: u16, max_height: Option<u16>) -> (height: u16) {
        element.ideal_height(width, max_height)
    }

    fn ideal_size(&self, element: &T, maximum: Vec2<Option<u16>>) -> (size: Vec2<u16>) {
        element.ideal_size(maximum)
    }

    fn handle<C: Events<T::Event>>(&self, element: &T, input: Input, events: &mut C) {
        element.handle(input, events)
    }
}

} // verus!
