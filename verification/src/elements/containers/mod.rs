//! Containers for several elements.
//!
//! # Which 1D layout to use?
//!
//! The 1D container, [`Container1D`], can use multiple [layouts](Layout1D) to draw its elements.
//!
//! - [`Static`] is the simplest and fastest layout. It gives each element the minimum space it
//! needs, and any extra space is left blank.
//! - [`Stretch`] is more advanced and also fast. It gives each element except one the minimum space
//! it needs, and then gives all the rest of the space to the one element.
//! - [`Flow`] is the most advanced and the slowest. It gives each element the minimum space it
//! needs, and then distributes all remaining space evenly among the elements.

pub mod container_1d;
pub mod stack;
pub mod tuples;

pub use container_1d::{
    flow, row, stretch, Axis, Container1D, End, Flow, InnerElement, Layout1D, Static,
    Stretch,
};
pub use stack::{stack, Stack};

use crate::element::{added, Element};
use crate::events::Events;
use crate::input::Input;
use crate::output::{drew_all, DrawOp, Output};
use crate::vec2::Vec2;
use vstd::prelude::*;

verus! {

/// A collection of elements, held by containers.
///
/// This trait is implemented for vectors of elements and tuples of elements (which can be
/// different types). The elements are reached by their index.
pub trait Collection {
    /// The events of the elements in the collection.
    type Event;

    /// The implementor's invariant: its elements are well formed.
    open spec fn wf(&self) -> bool {
        true
    }

    /// The number of elements.
    open spec fn count(&self) -> nat {
        arbitrary()
    }

    /// The drawing calls of the element at `index`.
    open spec fn drawing_at(&self, index: int, size: Vec2<u16>) -> Seq<DrawOp> {
        arbitrary()
    }

    /// Whether the element at `index` may answer the input with these events.
    open spec fn reacts_at(&self, index: int, input: Input, events: Seq<Self::Event>) -> bool {
        true
    }

    /// The width that the element at `index` asks for.
    open spec fn width_at(&self, index: int, height: u16, max_width: Option<u16>) -> u16 {
        arbitrary()
    }

    /// The height that the element at `index` asks for.
    open spec fn height_at(&self, index: int, width: u16, max_height: Option<u16>) -> u16 {
        arbitrary()
    }

    /// The size that the element at `index` asks for.
    open spec fn size_at(&self, index: int, maximum: Vec2<Option<u16>>) -> Vec2<u16> {
        arbitrary()
    }

    /// Get the number of elements in the collection.
    fn len(&self) -> (n: usize)
        requires
            self.wf(),
        ensures
            n == self.count(),
    ;

    /// Draw the element at `index` to the output.
    fn draw_at<O: Output>(&self, index: usize, output: O) -> (after: O)
        requires
            self.wf(),
            index < self.count(),
            output.valid(),
        ensures
            after.valid(),
            after.extent() == output.extent(),
            drew_all(output, after, self.drawing_at(index as int, output.extent())),
    ;

    /// Get the ideal width of the element at `index`.
    fn ideal_width_at(&self, index: usize, height: u16, max_width: Option<u16>) -> (width: u16)
        requires
            self.wf(),
            index < self.count(),
        ensures
            width == self.width_at(index as int, height, max_width),
    ;

    /// Get the ideal height of the element at `index`.
    fn ideal_height_at(&self, index: usize, width: u16, max_height: Option<u16>) -> (height: u16)
        requires
            self.wf(),
            index < self.count(),
        ensures
            height == self.height_at(index as int, width, max_height),
    ;

    /// Get the ideal size of the element at `index`.
    fn ideal_size_at(&self, index: usize, maximum: Vec2<Option<u16>>) -> (size: Vec2<u16>)
        requires
            self.wf(),
            index < self.count(),
        ensures
            size == self.size_at(index as int, maximum),
    ;

    /// Let the element at `index` react to the input.
    fn handle_at<S: Events<Self::Event>>(&self, index: usize, input: Input, events: &mut S)
        requires
            self.wf(),
            index < self.count(),
        ensures
            added(old(events).collected(), final(events).collected()),
            self.reacts_at(
                index as int,
                input,
                final(events).collected().skip(old(events).collected().len() as int),
            ),
    ;
}

impl<E: Element> Collection for Vec<E> {
    type Event = E::Event;

    open spec fn wf(&self) -> bool {
        forall|i: int| 0 <= i < self@.len() ==> (#[trigger] self@[i]).wf()
    }

    open spec fn count(&self) -> nat {
        self@.len()
    }

    open spec fn drawing_at(&self, index: int, size: Vec2<u16>) -> Seq<DrawOp> {
        self@[index].drawing(size)
    }

    open spec fn reacts_at(&self, index: int, input: Input, events: Seq<E::Event>) -> bool {
        self@[index].reacts(input, events)
    }

    open spec fn width_at(&self, index: int, height: u16, max_width: Option<u16>) -> u16 {
        self@[index].width_for(height, max_width)
    }

    open spec fn height_at(&self, index: int, width: u16, max_height: Option<u16>) -> u16 {
        self@[index].height_for(width, max_height)
    }

    open spec fn size_at(&self, index: int, maximum: Vec2<Option<u16>>) -> Vec2<u16> {
        self@[index].size_for(maximum)
    }

    fn len(&self) -> (n: usize) {
        Vec::len(self)
    }

    fn draw_at<O: Output>(&self, index: usize, output: O) -> (after: O) {
        self[index].draw(output)
    }

    fn ideal_width_at(&self, index: usize, height: u16, max_width: Option<u16>) -> (width: u16) {
        self[index].ideal_width(height, max_width)
    }

    fn ideal_height_at(&self, index: usize, width: u16, max_height: Option<u16>) -> (height: u16) {
        self[index].ideal_height(width, max_height)
    }

    fn ideal_size_at(&self, index: usize, maximum: Vec2<Option<u16>>) -> (size: Vec2<u16>) {
        self[index].ideal_size(maximum)
    }

    fn handle_at<S: Events<E::Event>>(&self, index: usize, input: Input, events: &mut S) {
        self[index].handle(input, events)
    }
}

} // verus!
