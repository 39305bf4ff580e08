//! Elements whose events are mapped.

use crate::element::Element;
use crate::events::{add_mapped, mapped, Events, Vector};
use crate::input::Input;
use crate::output::{DrawOp, Output};
use crate::vec2::Vec2;
use vstd::prelude::*;

verus! {

/// An element that maps the events of another element.
#[derive(Debug, Clone, Copy)]
pub struct MapEvent<T, F> {
    /// The element whose events are mapped.
    pub inner: T,
    /// The function that maps the events.
    pub f: F,
}

impl<T: Element, F: Fn(T::Event) -> Event2, Event2> Element for MapEvent<T, F> {
    type Event = Event2;

    open spec fn wf(&self) -> bool {
        &&& self.inner.wf()
        &&& forall|event: T::Event| #[trigger] self.f.requires((event,))
    }

    open spec fn drawing(&self, size: Vec2<u16>) -> Seq<DrawOp> {
        self.inner.drawing(size)
    }

    /// The events are what the function makes of the events of the inner element.
    open spec fn reacts(&self, input: Input, events: Seq<Event2>) -> bool {
        exists|made: Seq<T::Event>| #[trigger] self.inner.reacts(input, made) && mapped(self.f, made, events)
    }

    open spec fn width_for(&self, height: u16, max_width: Option<u16>) -> u16 {
        self.inner.width_for(height, max_width)
    }

    open spec fn height_for(&self, width: u16, max_height: Option<u16>) -> u16 {
        self.inner.height_for(width, max_height)
    }

    open spec fn size_for(&self, maximum: Vec2<Option<u16>>) -> Vec2<u16> {
        self.inner.size_for(maximum)
    }

    fn draw<O: Output>(&self, output: O) -> (after: O) {
        self.inner.draw(output)
    }

    fn ideal_width(&self, height: u16, max_width: Option<u16>) -> (width: u16) {
        self.inner.ideal_width(height, max_width)
    }

    fn ideal_height(&self, width: u16, max_height: Option<u16>) -> (height: u16) {
        self.inner.ideal_height(width, max_height)
    }

    fn ideal_size(&self, maximum: Vec2<Option<u16>>) -> (size: Vec2<u16>) {
        self.inner.ideal_size(maximum)
    }

    fn handle<C: Events<Event2>>(&self, input: Input, events: &mut C) {
        let mut made = Vector(Vec::new());
        self.inner.handle(input, &mut made);
        assert(made.0@.skip(0) =~= made.0@);
        add_mapped(events, &self.f, made.0);
    }
}

} // verus!
