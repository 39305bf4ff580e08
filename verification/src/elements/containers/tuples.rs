//! Tuples of elements as collections: the elements may be of different types.

use crate::element::Element;
use crate::elements::containers::Collection;
use crate::events::Events;
use crate::input::Input;
use crate::output::{DrawOp, Output};
use crate::vec2::Vec2;
use vstd::prelude::*;

verus! {

impl<A: Element> Collection for (A,) {
    type Event = A::Event;

    open spec fn wf(&self) -> bool {
        self.0.wf()
    }

    open spec fn count(&self) -> nat {
        1
    }

    open spec fn drawing_at(&self, index: int, size: Vec2<u16>) -> Seq<DrawOp> {
        if index == 0 {
            self.0.drawing(size)
        } else {
            Seq::empty()
        }
    }

    open spec fn reacts_at(&self, index: int, input: Input, events: Seq<A::Event>) -> bool {
        if index == 0 {
            self.0.reacts(input, events)
        } else {
            events.len() == 0
        }
    }

    open spec fn width_at(&self, index: int, height: u16, max_width: Option<u16>) -> u16 {
        if index == 0 {
            self.0.width_for(height, max_width)
        } else {
            0
        }
    }

    open spec fn height_at(&self, index: int, width: u16, max_height: Option<u16>) -> u16 {
        if index == 0 {
            self.0.height_for(width, max_height)
        } else {
            0
        }
    }

    open spec fn size_at(&self, index: int, maximum: Vec2<Option<u16>>) -> Vec2<u16> {
        if index == 0 {
            self.0.size_for(maximum)
        } else {
            Vec2 { x: 0, y: 0 }
        }
    }

    fn len(&self) -> (n: usize) {
        1
    }

    fn draw_at<O: Output>(&self, index: usize, output: O) -> (after: O) {
        self.0.draw(output)
    }

    fn ideal_width_at(&self, index: usize, height: u16, max_width: Option<u16>) -> (width: u16) {
        self.0.ideal_width(height, max_width)
    }

    fn ideal_height_at(&self, index: usize, width: u16, max_height: Option<u16>) -> (height: u16) {
        self.0.ideal_height(width, max_height)
    }

    fn ideal_size_at(&self, index: usize, maximum: Vec2<Option<u16>>) -> (size: Vec2<u16>) {
        self.0.ideal_size(maximum)
    }

    fn handle_at<S: Events<A::Event>>(&self, index: usize, input: Input, events: &mut S) {
        self.0.handle(input, events)
    }
}

impl<A: Element, B: Element<Event = A::Event>> Collection for (A, B) {
    type Event = A::Event;

    open spec fn wf(&self) -> bool {
        self.0.wf() && self.1.wf()
    }

    open spec fn count(&self) -> nat {
        2
    }

    open spec fn drawing_at(&self, index: int, size: Vec2<u16>) -> Seq<DrawOp> {
        if index == 0 {
            self.0.drawing(size)
        } else if index == 1 {
            self.1.drawing(size)
        } else {
            Seq::empty()
        }
    }

    open spec fn reacts_at(&self, index: int, input: Input, events: Seq<A::Event>) -> bool {
        if index == 0 {
            self.0.reacts(input, events)
        } else if index == 1 {
            self.1.reacts(input, events)
        } else {
            events.len() == 0
        }
    }

    open spec fn width_at(&self, index: int, height: u16, max_width: Option<u16>) -> u16 {
        if index == 0 {
            self.0.width_for(height, max_width)
        } else if index == 1 {
            self.1.width_for(height, max_width)
        } else {
            0
        }
    }

    open spec fn height_at(&self, index: int, width: u16, max_height: Option<u16>) -> u16 {
        if index == 0 {
            self.0.height_for(width, max_height)
        } else if index == 1 {
            self.1.height_for(width, max_height)
        } else {
            0
        }
    }

    open spec fn size_at(&self, index: int, maximum: Vec2<Option<u16>>) -> Vec2<u16> {
        if index == 0 {
            self.0.size_for(maximum)
        } else if index == 1 {
            self.1.size_for(maximum)
        } else {
            Vec2 { x: 0, y: 0 }
        }
    }

    fn len(&self) -> (n: usize) {
        2
    }

    fn draw_at<O: Output>(&self, index: usize, output: O) -> (after: O) {
        if index == 0 {
            self.0.draw(output)
        } else {
            self.1.draw(output)
        }
    }

    fn ideal_width_at(&self, index: usize, height: u16, max_width: Option<u16>) -> (width: u16) {
        if index == 0 {
            self.0.ideal_width(height, max_width)
        } else {
            self.1.ideal_width(height, max_width)
        }
    }

    fn ideal_height_at(&self, index: usize, width: u16, max_height: Option<u16>) -> (height: u16) {
        if index == 0 {
            self.0.ideal_height(width, max_height)
        } else {
            self.1.ideal_height(width, max_height)
        }
    }

    fn ideal_size_at(&self, index: usize, maximum: Vec2<Option<u16>>) -> (size: Vec2<u16>) {
        if index == 0 {
            self.0.ideal_size(maximum)
        } else {
            self.1.ideal_size(maximum)
        }
    }

    fn handle_at<S: Events<A::Event>>(&self, index: usize, input: Input, events: &mut S) {
        if index == 0 {
            self.0.handle(input, events)
        } else {
            self.1.handle(input, events)
        }
    }
}

impl<
    A: Element,
    B: Element<Event = A::Event>,
    C: Element<Event = A::Event>,
> Collection for (A, B, C) {
    type Event = A::Event;

    open spec fn wf(&self) -> bool {
        self.0.wf() && self.1.wf() && self.2.wf()
    }

    open spec fn count(&self) -> nat {
        3
    }

    open spec fn drawing_at(&self, index: int, size: Vec2<u16>) -> Seq<DrawOp> {
        if index == 0 {
            self.0.drawing(size)
        } else if index == 1 {
            self.1.drawing(size)
        } else if index == 2 {
            self.2.drawing(size)
        } else {
            Seq::empty()
        }
    }

    open spec fn reacts_at(&self, index: int, input: Input, events: Seq<A::Event>) -> bool {
        if index == 0 {
            self.0.reacts(input, events)
        } else if index == 1 {
            self.1.reacts(input, events)
        } else if index == 2 {
            self.2.reacts(input, events)
        } else {
            events.len() == 0
        }
    }

    open spec fn width_at(&self, index: int, height: u16, max_width: Option<u16>) -> u16 {
        if index == 0 {
            self.0.width_for(height, max_width)
        } else if index == 1 {
            self.1.width_for(height, max_width)
        } else if index == 2 {
            self.2.width_for(height, max_width)
        } else {
            0
        }
    }

    open spec fn height_at(&self, index: int, width: u16, max_height: Option<u16>) -> u16 {
        if index == 0 {
            self.0.height_for(width, max_height)
        } else if index == 1 {
            self.1.height_for(width, max_height)
        } else if index == 2 {
            self.2.height_for(width, max_height)
        } else {
            0
        }
    }

    open spec fn size_at(&self, index: int, maximum: Vec2<Option<u16>>) -> Vec2<u16> {
        if index == 0 {
            self.0.size_for(maximum)
        } else if index == 1 {
            self.1.size_for(maximum)
        } else if index == 2 {
            self.2.size_for(maximum)
        } else {
            Vec2 { x: 0, y: 0 }
        }
    }

    fn len(&self) -> (n: usize) {
        3
    }

    fn draw_at<O: Output>(&self, index: usize, output: O) -> (after: O) {
        if index == 0 {
            self.0.draw(output)
        } else if index == 1 {
            self.1.draw(output)
        } else {
            self.2.draw(output)
        }
    }

    fn ideal_width_at(&self, index: usize, height: u16, max_width: Option<u16>) -> (width: u16) {
        if index == 0 {
            self.0.ideal_width(height, max_width)
        } else if index == 1 {
            self.1.ideal_width(height, max_width)
        } else {
            self.2.ideal_width(height, max_width)
        }
    }

    fn ideal_height_at(&self, index: usize, width: u16, max_height: Option<u16>) -> (height: u16) {
        if index == 0 {
            self.0.ideal_height(width, max_height)
        } else if index == 1 {
            self.1.ideal_height(width, max_height)
        } else {
            self.2.ideal_height(width, max_height)
        }
    }

    fn ideal_size_at(&self, index: usize, maximum: Vec2<Option<u16>>) -> (size: Vec2<u16>) {
        if index == 0 {
            self.0.ideal_size(maximum)
        } else if index == 1 {
            self.1.ideal_size(maximum)
        } else {
            self.2.ideal_size(maximum)
        }
    }

    fn handle_at<S: Events<A::Event>>(&self, index: usize, input: Input, events: &mut S) {
        if index == 0 {
            self.0.handle(input, events)
        } else if index == 1 {
            self.1.handle(input, events)
        } else {
            self.2.handle(input, events)
        }
    }
}

impl<
    A: Element,
    B: Element<Event = A::Event>,
    C: Element<Event = A::Event>,
    D: Element<Event = A::Event>,
> Collection for (A, B, C, D) {
    type Event = A::Event;

    open spec fn wf(&self) -> bool {
        self.0.wf() && self.1.wf() && self.2.wf() && self.3.wf()
    }

    open spec fn count(&self) -> nat {
        4
    }

    open spec fn drawing_at(&self, index: int, size: Vec2<u16>) -> Seq<DrawOp> {
        if index == 0 {
            self.0.drawing(size)
        } else if index == 1 {
            self.1.drawing(size)
        } else if index == 2 {
            self.2.drawing(size)
        } else if index == 3 {
            self.3.drawing(size)
        } else {
            Seq::empty()
        }
    }

    open spec fn reacts_at(&self, index: int, input: Input, events: Seq<A::Event>) -> bool {
        if index == 0 {
            self.0.reacts(input, events)
        } else if index == 1 {
            self.1.reacts(input, events)
        } else if index == 2 {
            self.2.reacts(input, events)
        } else if index == 3 {
            self.3.reacts(input, events)
        } else {
            events.len() == 0
        }
    }

    open spec fn width_at(&self, index: int, height: u16, max_width: Option<u16>) -> u16 {
        if index == 0 {
            self.0.width_for(height, max_width)
        } else if index == 1 {
            self.1.width_for(height, max_width)
        } else if index == 2 {
            self.2.width_for(height, max_width)
        } else if index == 3 {
            self.3.width_for(height, max_width)
        } else {
            0
        }
    }

    open spec fn height_at(&self, index: int, width: u16, max_height: Option<u16>) -> u16 {
        if index == 0 {
            self.0.height_for(width, max_height)
        } else if index == 1 {
            self.1.height_for(width, max_height)
        } else if index == 2 {
            self.2.height_for(width, max_height)
        } else if index == 3 {
            self.3.height_for(width, max_height)
        } else {
            0
        }
    }

    open spec fn size_at(&self, index: int, maximum: Vec2<Option<u16>>) -> Vec2<u16> {
        if index == 0 {
            self.0.size_for(maximum)
        } else if index == 1 {
            self.1.size_for(maximum)
        } else if index == 2 {
            self.2.size_for(maximum)
        } else if index == 3 {
            self.3.size_for(maximum)
        } else {
            Vec2 { x: 0, y: 0 }
        }
    }

    fn len(&self) -> (n: usize) {
        4
    }

    fn draw_at<O: Output>(&self, index: usize, output: O) -> (after: O) {
        if index == 0 {
            self.0.draw(output)
        } else if index == 1 {
            self.1.draw(output)
        } else if index == 2 {
            self.2.draw(output)
        } else {
            self.3.draw(output)
        }
    }

    fn ideal_width_at(&self, index: usize, height: u16, max_width: Option<u16>) -> (width: u16) {
        if index == 0 {
            self.0.ideal_width(height, max_width)
        } else if index == 1 {
            self.1.ideal_width(height, max_width)
        } else if index == 2 {
            self.2.ideal_width(height, max_width)
        } else {
            self.3.ideal_width(height, max_width)
        }
    }

    fn ideal_height_at(&self, index: usize, width: u16, max_height: Option<u16>) -> (height: u16) {
        if index == 0 {
            self.0.ideal_height(width, max_height)
        } else if index == 1 {
            self.1.ideal_height(width, max_height)
        } else if index == 2 {
            self.2.ideal_height(width, max_height)
        } else {
            self.3.ideal_height(width, max_height)
        }
    }

    fn ideal_size_at(&self, index: usize, maximum: Vec2<Option<u16>>) -> (size: Vec2<u16>) {
        if index == 0 {
            self.0.ideal_size(maximum)
        } else if index == 1 {
            self.1.ideal_size(maximum)
        } else if index == 2 {
            self.2.ideal_size(maximum)
        } else {
            self.3.ideal_size(maximum)
        }
    }

    fn handle_at<S: Events<A::Event>>(&self, index: usize, input: Input, events: &mut S) {
        if index == 0 {
            self.0.handle(input, events)
        } else if index == 1 {
            self.1.handle(input, events)
        } else if index == 2 {
            self.2.handle(input, events)
        } else {
            self.3.handle(input, events)
        }
    }
}

impl<
    A: Element,
    B: Element<Event = A::Event>,
    C: Element<Event = A::Event>,
    D: Element<Event = A::Event>,
    E: Element<Event = A::Event>,
> Collection for (A, B, C, D, E) {
    type Event = A::Event;

    open spec fn wf(&self) -> bool {
        self.0.wf() && self.1.wf() && self.2.wf() && self.3.wf() && self.4.wf()
    }

    open spec fn count(&self) -> nat {
        5
    }

    open spec fn drawing_at(&self, index: int, size: Vec2<u16>) -> Seq<DrawOp> {
        if index == 0 {
            self.0.drawing(size)
        } else if index == 1 {
            self.1.drawing(size)
        } else if index == 2 {
            self.2.drawing(size)
        } else if index == 3 {
            self.3.drawing(size)
        } else if index == 4 {
            self.4.drawing(size)
        } else {
            Seq::empty()
        }
    }

    open spec fn reacts_at(&self, index: int, input: Input, events: Seq<A::Event>) -> bool {
        if index == 0 {
            self.0.reacts(input, events)
        } else if index == 1 {
            self.1.reacts(input, events)
        } else if index == 2 {
            self.2.reacts(input, events)
        } else if index == 3 {
            self.3.reacts(input, events)
        } else if index == 4 {
            self.4.reacts(input, events)
        } else {
            events.len() == 0
        }
    }

    open spec fn width_at(&self, index: int, height: u16, max_width: Option<u16>) -> u16 {
        if index == 0 {
            self.0.width_for(height, max_width)
        } else if index == 1 {
            self.1.width_for(height, max_width)
        } else if index == 2 {
            self.2.width_for(height, max_width)
        } else if index == 3 {
            self.3.width_for(height, max_width)
        } else if index == 4 {
            self.4.width_for(height, max_width)
        } else {
            0
        }
    }

    open spec fn height_at(&self, index: int, width: u16, max_height: Option<u16>) -> u16 {
        if index == 0 {
            self.0.height_for(width, max_height)
        } else if index == 1 {
            self.1.height_for(width, max_height)
        } else if index == 2 {
            self.2.height_for(width, max_height)
        } else if index == 3 {
            self.3.height_for(width, max_height)
        } else if index == 4 {
            self.4.height_for(width, max_height)
        } else {
            0
        }
    }

    open spec fn size_at(&self, index: int, maximum: Vec2<Option<u16>>) -> Vec2<u16> {
        if index == 0 {
            self.0.size_for(maximum)
        } else if index == 1 {
            self.1.size_for(maximum)
        } else if index == 2 {
            self.2.size_for(maximum)
        } else if index == 3 {
            self.3.size_for(maximum)
        } else if index == 4 {
            self.4.size_for(maximum)
        } else {
            Vec2 { x: 0, y: 0 }
        }
    }

    fn len(&self) -> (n: usize) {
        5
    }

    fn draw_at<O: Output>(&self, index: usize, output: O) -> (after: O) {
        if index == 0 {
            self.0.draw(output)
        } else if index == 1 {
            self.1.draw(output)
        } else if index == 2 {
            self.2.draw(output)
        } else if index == 3 {
            self.3.draw(output)
        } else {
            self.4.draw(output)
        }
    }

    fn ideal_width_at(&self, index: usize, height: u16, max_width: Option<u16>) -> (width: u16) {
        if index == 0 {
            self.0.ideal_width(height, max_width)
        } else if index == 1 {
            self.1.ideal_width(height, max_width)
        } else if index == 2 {
            self.2.ideal_width(height, max_width)
        } else if index == 3 {
            self.3.ideal_width(height, max_width)
        } else {
            self.4.ideal_width(height, max_width)
        }
    }

    fn ideal_height_at(&self, index: usize, width: u16, max_height: Option<u16>) -> (height: u16) {
        if index == 0 {
            self.0.ideal_height(width, max_height)
        } else if index == 1 {
            self.1.ideal_height(width, max_height)
        } else if index == 2 {
            self.2.ideal_height(width, max_height)
        } else if index == 3 {
            self.3.ideal_height(width, max_height)
        } else {
            self.4.ideal_height(width, max_height)
        }
    }

    fn ideal_size_at(&self, index: usize, maximum: Vec2<Option<u16>>) -> (size: Vec2<u16>) {
        if index == 0 {
            self.0.ideal_size(maximum)
        } else if index == 1 {
            self.1.ideal_size(maximum)
        } else if index == 2 {
            self.2.ideal_size(maximum)
        } else if index == 3 {
            self.3.ideal_size(maximum)
        } else {
            self.4.ideal_size(maximum)
        }
    }

    fn handle_at<S: Events<A::Event>>(&self, index: usize, input: Input, events: &mut S) {
        if index == 0 {
            self.0.handle(input, events)
        } else if index == 1 {
            self.1.handle(input, events)
        } else if index == 2 {
            self.2.handle(input, events)
        } else if index == 3 {
            self.3.handle(input, events)
        } else {
            self.4.handle(input, events)
        }
    }
}

impl<
    A: Element,
    B: Element<Event = A::Event>,
    C: Element<Event = A::Event>,
    D: Element<Event = A::Event>,
    E: Element<Event = A::Event>,
    F: Element<Event = A::Event>,
> Collection for (A, B, C, D, E, F) {
    type Event = A::Event;

    open spec fn wf(&self) -> bool {
        self.0.wf() && self.1.wf() && self.2.wf() && self.3.wf() && self.4.wf() && self.5.wf()
    }

    open spec fn count(&self) -> nat {
        6
    }

    open spec fn drawing_at(&self, index: int, size: Vec2<u16>) -> Seq<DrawOp> {
        if index == 0 {
            self.0.drawing(size)
        } else if index == 1 {
            self.1.drawing(size)
        } else if index == 2 {
            self.2.drawing(size)
        } else if index == 3 {
            self.3.drawing(size)
        } else if index == 4 {
            self.4.drawing(size)
        } else if index == 5 {
            self.5.drawing(size)
        } else {
            Seq::empty()
        }
    }

    open spec fn reacts_at(&self, index: int, input: Input, events: Seq<A::Event>) -> bool {
        if index == 0 {
            self.0.reacts(input, events)
        } else if index == 1 {
            self.1.reacts(input, events)
        } else if index == 2 {
            self.2.reacts(input, events)
        } else if index == 3 {
            self.3.reacts(input, events)
        } else if index == 4 {
            self.4.reacts(input, events)
        } else if index == 5 {
            self.5.reacts(input, events)
        } else {
            events.len() == 0
        }
    }

    open spec fn width_at(&self, index: int, height: u16, max_width: Option<u16>) -> u16 {
        if index == 0 {
            self.0.width_for(height, max_width)
        } else if index == 1 {
            self.1.width_for(height, max_width)
        } else if index == 2 {
            self.2.width_for(height, max_width)
        } else if index == 3 {
            self.3.width_for(height, max_width)
        } else if index == 4 {
            self.4.width_for(height, max_width)
        } else if index == 5 {
            self.5.width_for(height, max_width)
        } else {
            0
        }
    }

    open spec fn height_at(&self, index: int, width: u16, max_height: Option<u16>) -> u16 {
        if index == 0 {
            self.0.height_for(width, max_height)
        } else if index == 1 {
            self.1.height_for(width, max_height)
        } else if index == 2 {
            self.2.height_for(width, max_height)
        } else if index == 3 {
            self.3.height_for(width, max_height)
        } else if index == 4 {
            self.4.height_for(width, max_height)
        } else if index == 5 {
            self.5.height_for(width, max_height)
        } else {
            0
        }
    }

    open spec fn size_at(&self, index: int, maximum: Vec2<Option<u16>>) -> Vec2<u16> {
        if index == 0 {
            self.0.size_for(maximum)
        } else if index == 1 {
            self.1.size_for(maximum)
        } else if index == 2 {
            self.2.size_for(maximum)
        } else if index == 3 {
            self.3.size_for(maximum)
        } else if index == 4 {
            self.4.size_for(maximum)
        } else if index == 5 {
            self.5.size_for(maximum)
        } else {
            Vec2 { x: 0, y: 0 }
        }
    }

    fn len(&self) -> (n: usize) {
        6
    }

    fn draw_at<O: Output>(&self, index: usize, output: O) -> (after: O) {
        if index == 0 {
            self.0.draw(output)
        } else if index == 1 {
            self.1.draw(output)
        } else if index == 2 {
            self.2.draw(output)
        } else if index == 3 {
            self.3.draw(output)
        } else if index == 4 {
            self.4.draw(output)
        } else {
            self.5.draw(output)
        }
    }

    fn ideal_width_at(&self, index: usize, height: u16, max_width: Option<u16>) -> (width: u16) {
        if index == 0 {
            self.0.ideal_width(height, max_width)
        } else if index == 1 {
            self.1.ideal_width(height, max_width)
        } else if index == 2 {
            self.2.ideal_width(height, max_width)
        } else if index == 3 {
            self.3.ideal_width(height, max_width)
        } else if index == 4 {
            self.4.ideal_width(height, max_width)
        } else {
            self.5.ideal_width(height, max_width)
        }
    }

    fn ideal_height_at(&self, index: usize, width: u16, max_height: Option<u16>) -> (height: u16) {
        if index == 0 {
            self.0.ideal_height(width, max_height)
        } else if index == 1 {
            self.1.ideal_height(width, max_height)
        } else if index == 2 {
            self.2.ideal_height(width, max_height)
        } else if index == 3 {
            self.3.ideal_height(width, max_height)
        } else if index == 4 {
            self.4.ideal_height(width, max_height)
        } else {
            self.5.ideal_height(width, max_height)
        }
    }

    fn ideal_size_at(&self, index: usize, maximum: Vec2<Option<u16>>) -> (size: Vec2<u16>) {
        if index == 0 {
            self.0.ideal_size(maximum)
        } else if index == 1 {
            self.1.ideal_size(maximum)
        } else if index == 2 {
            self.2.ideal_size(maximum)
        } else if index == 3 {
            self.3.ideal_size(maximum)
        } else if index == 4 {
            self.4.ideal_size(maximum)
        } else {
            self.5.ideal_size(maximum)
        }
    }

    fn handle_at<S: Events<A::Event>>(&self, index: usize, input: Input, events: &mut S) {
        if index == 0 {
            self.0.handle(input, events)
        } else if index == 1 {
            self.1.handle(input, events)
        } else if index == 2 {
            self.2.handle(input, events)
        } else if index == 3 {
            self.3.handle(input, events)
        } else if index == 4 {
            self.4.handle(input, events)
        } else {
            self.5.handle(input, events)
        }
    }
}

impl<
    A: Element,
    B: Element<Event = A::Event>,
    C: Element<Event = A::Event>,
    D: Element<Event = A::Event>,
    E: Element<Event = A::Event>,
    F: Element<Event = A::Event>,
    G: Element<Event = A::Event>,
> Collection for (A, B, C, D, E, F, G) {
    type Event = A::Event;

    open spec fn wf(&self) -> bool {
        self.0.wf() && self.1.wf() && self.2.wf() && self.3.wf() && self.4.wf() && self.5.wf()
            && self.6.wf()
    }

    open spec fn count(&self) -> nat {
        7
    }

    open spec fn drawing_at(&self, index: int, size: Vec2<u16>) -> Seq<DrawOp> {
        if index == 0 {
            self.0.drawing(size)
        } else if index == 1 {
            self.1.drawing(size)
        } else if index == 2 {
            self.2.drawing(size)
        } else if index == 3 {
            self.3.drawing(size)
        } else if index == 4 {
            self.4.drawing(size)
        } else if index == 5 {
            self.5.drawing(size)
        } else if index == 6 {
            self.6.drawing(size)
        } else {
            Seq::empty()
        }
    }

    open spec fn reacts_at(&self, index: int, input: Input, events: Seq<A::Event>) -> bool {
        if index == 0 {
            self.0.reacts(input, events)
        } else if index == 1 {
            self.1.reacts(input, events)
        } else if index == 2 {
            self.2.reacts(input, events)
        } else if index == 3 {
            self.3.reacts(input, events)
        } else if index == 4 {
            self.4.reacts(input, events)
        } else if index == 5 {
            self.5.reacts(input, events)
        } else if index == 6 {
            self.6.reacts(input, events)
        } else {
            events.len() == 0
        }
    }

    open spec fn width_at(&self, index: int, height: u16, max_width: Option<u16>) -> u16 {
        if index == 0 {
            self.0.width_for(height, max_width)
        } else if index == 1 {
            self.1.width_for(height, max_width)
        } else if index == 2 {
            self.2.width_for(height, max_width)
        } else if index == 3 {
            self.3.width_for(height, max_width)
        } else if index == 4 {
            self.4.width_for(height, max_width)
        } else if index == 5 {
            self.5.width_for(height, max_width)
        } else if index == 6 {
            self.6.width_for(height, max_width)
        } else {
            0
        }
    }

    open spec fn height_at(&self, index: int, width: u16, max_height: Option<u16>) -> u16 {
        if index == 0 {
            self.0.height_for(width, max_height)
        } else if index == 1 {
            self.1.height_for(width, max_height)
        } else if index == 2 {
            self.2.height_for(width, max_height)
        } else if index == 3 {
            self.3.height_for(width, max_height)
        } else if index == 4 {
            self.4.height_for(width, max_height)
        } else if index == 5 {
            self.5.height_for(width, max_height)
        } else if index == 6 {
            self.6.height_for(width, max_height)
        } else {
            0
        }
    }

    open spec fn size_at(&self, index: int, maximum: Vec2<Option<u16>>) -> Vec2<u16> {
        if index == 0 {
            self.0.size_for(maximum)
        } else if index == 1 {
            self.1.size_for(maximum)
        } else if index == 2 {
            self.2.size_for(maximum)
        } else if index == 3 {
            self.3.size_for(maximum)
        } else if index == 4 {
            self.4.size_for(maximum)
        } else if index == 5 {
            self.5.size_for(maximum)
        } else if index == 6 {
            self.6.size_for(maximum)
        } else {
            Vec2 { x: 0, y: 0 }
        }
    }

    fn len(&self) -> (n: usize) {
        7
    }

    fn draw_at<O: Output>(&self, index: usize, output: O) -> (after: O) {
        if index == 0 {
            self.0.draw(output)
        } else if index == 1 {
            self.1.draw(output)
        } else if index == 2 {
            self.2.draw(output)
        } else if index == 3 {
            self.3.draw(output)
        } else if index == 4 {
            self.4.draw(output)
        } else if index == 5 {
            self.5.draw(output)
        } else {
            self.6.draw(output)
        }
    }

    fn ideal_width_at(&self, index: usize, height: u16, max_width: Option<u16>) -> (width: u16) {
        if index == 0 {
            self.0.ideal_width(height, max_width)
        } else if index == 1 {
            self.1.ideal_width(height, max_width)
        } else if index == 2 {
            self.2.ideal_width(height, max_width)
        } else if index == 3 {
            self.3.ideal_width(height, max_width)
        } else if index == 4 {
            self.4.ideal_width(height, max_width)
        } else if index == 5 {
            self.5.ideal_width(height, max_width)
        } else {
            self.6.ideal_width(height, max_width)
        }
    }

    fn ideal_height_at(&self, index: usize, width: u16, max_height: Option<u16>) -> (height: u16) {
        if index == 0 {
            self.0.ideal_height(width, max_height)
        } else if index == 1 {
            self.1.ideal_height(width, max_height)
        } else if index == 2 {
            self.2.ideal_height(width, max_height)
        } else if index == 3 {
            self.3.ideal_height(width, max_height)
        } else if index == 4 {
            self.4.ideal_height(width, max_height)
        } else if index == 5 {
            self.5.ideal_height(width, max_height)
        } else {
            self.6.ideal_height(width, max_height)
        }
    }

    fn ideal_size_at(&self, index: usize, maximum: Vec2<Option<u16>>) -> (size: Vec2<u16>) {
        if index == 0 {
            self.0.ideal_size(maximum)
        } else if index == 1 {
            self.1.ideal_size(maximum)
        } else if index == 2 {
            self.2.ideal_size(maximum)
        } else if index == 3 {
            self.3.ideal_size(maximum)
        } else if index == 4 {
            self.4.ideal_size(maximum)
        } else if index == 5 {
            self.5.ideal_size(maximum)
        } else {
            self.6.ideal_size(maximum)
        }
    }

    fn handle_at<S: Events<A::Event>>(&self, index: usize, input: Input, events: &mut S) {
        if index == 0 {
            self.0.handle(input, events)
        } else if index == 1 {
            self.1.handle(input, events)
        } else if index == 2 {
            self.2.handle(input, events)
        } else if index == 3 {
            self.3.handle(input, events)
        } else if index == 4 {
            self.4.handle(input, events)
        } else if index == 5 {
            self.5.handle(input, events)
        } else {
            self.6.handle(input, events)
        }
    }
}

impl<
    A: Element,
    B: Element<Event = A::Event>,
    C: Element<Event = A::Event>,
    D: Element<Event = A::Event>,
    E: Element<Event = A::Event>,
    F: Element<Event = A::Event>,
    G: Element<Event = A::Event>,
    H: Element<Event = A::Event>,
> Collection for (A, B, C, D, E, F, G, H) {
    type Event = A::Event;

    open spec fn wf(&self) -> bool {
        self.0.wf() && self.1.wf() && self.2.wf() && self.3.wf() && self.4.wf() && self.5.wf()
            && self.6.wf() && self.7.wf()
    }

    open spec fn count(&self) -> nat {
        8
    }

    open spec fn drawing_at(&self, index: int, size: Vec2<u16>) -> Seq<DrawOp> {
        if index == 0 {
            self.0.drawing(size)
        } else if index == 1 {
            self.1.drawing(size)
        } else if index == 2 {
            self.2.drawing(size)
        } else if index == 3 {
            self.3.drawing(size)
        } else if index == 4 {
            self.4.drawing(size)
        } else if index == 5 {
            self.5.drawing(size)
        } else if index == 6 {
            self.6.drawing(size)
        } else if index == 7 {
            self.7.drawing(size)
        } else {
            Seq::empty()
        }
    }

    open spec fn reacts_at(&self, index: int, input: Input, events: Seq<A::Event>) -> bool {
        if index == 0 {
            self.0.reacts(input, events)
        } else if index == 1 {
            self.1.reacts(input, events)
        } else if index == 2 {
            self.2.reacts(input, events)
        } else if index == 3 {
            self.3.reacts(input, events)
        } else if index == 4 {
            self.4.reacts(input, events)
        } else if index == 5 {
            self.5.reacts(input, events)
        } else if index == 6 {
            self.6.reacts(input, events)
        } else if index == 7 {
            self.7.reacts(input, events)
        } else {
            events.len() == 0
        }
    }

    open spec fn width_at(&self, index: int, height: u16, max_width: Option<u16>) -> u16 {
        if index == 0 {
            self.0.width_for(height, max_width)
        } else if index == 1 {
            self.1.width_for(height, max_width)
        } else if index == 2 {
            self.2.width_for(height, max_width)
        } else if index == 3 {
            self.3.width_for(height, max_width)
        } else if index == 4 {
            self.4.width_for(height, max_width)
        } else if index == 5 {
            self.5.width_for(height, max_width)
        } else if index == 6 {
            self.6.width_for(height, max_width)
        } else if index == 7 {
            self.7.width_for(height, max_width)
        } else {
            0
        }
    }

    open spec fn height_at(&self, index: int, width: u16, max_height: Option<u16>) -> u16 {
        if index == 0 {
            self.0.height_for(width, max_height)
        } else if index == 1 {
            self.1.height_for(width, max_height)
        } else if index == 2 {
            self.2.height_for(width, max_height)
        } else if index == 3 {
            self.3.height_for(width, max_height)
        } else if index == 4 {
            self.4.height_for(width, max_height)
        } else if index == 5 {
            self.5.height_for(width, max_height)
        } else if index == 6 {
            self.6.height_for(width, max_height)
        } else if index == 7 {
            self.7.height_for(width, max_height)
        } else {
            0
        }
    }

    open spec fn size_at(&self, index: int, maximum: Vec2<Option<u16>>) -> Vec2<u16> {
        if index == 0 {
            self.0.size_for(maximum)
        } else if index == 1 {
            self.1.size_for(maximum)
        } else if index == 2 {
            self.2.size_for(maximum)
        } else if index == 3 {
            self.3.size_for(maximum)
        } else if index == 4 {
            self.4.size_for(maximum)
        } else if index == 5 {
            self.5.size_for(maximum)
        } else if index == 6 {
            self.6.size_for(maximum)
        } else if index == 7 {
            self.7.size_for(maximum)
        } else {
            Vec2 { x: 0, y: 0 }
        }
    }

    fn len(&self) -> (n: usize) {
        8
    }

    fn draw_at<O: Output>(&self, index: usize, output: O) -> (after: O) {
        if index == 0 {
            self.0.draw(output)
        } else if index == 1 {
            self.1.draw(output)
        } else if index == 2 {
            self.2.draw(output)
        } else if index == 3 {
            self.3.draw(output)
        } else if index == 4 {
            self.4.draw(output)
        } else if index == 5 {
            self.5.draw(output)
        } else if index == 6 {
            self.6.draw(output)
        } else {
            self.7.draw(output)
        }
    }

    fn ideal_width_at(&self, index: usize, height: u16, max_width: Option<u16>) -> (width: u16) {
        if index == 0 {
            self.0.ideal_width(height, max_width)
        } else if index == 1 {
            self.1.ideal_width(height, max_width)
        } else if index == 2 {
            self.2.ideal_width(height, max_width)
        } else if index == 3 {
            self.3.ideal_width(height, max_width)
        } else if index == 4 {
            self.4.ideal_width(height, max_width)
        } else if index == 5 {
            self.5.ideal_width(height, max_width)
        } else if index == 6 {
            self.6.ideal_width(height, max_width)
        } else {
            self.7.ideal_width(height, max_width)
        }
    }

    fn ideal_height_at(&self, index: usize, width: u16, max_height: Option<u16>) -> (height: u16) {
        if index == 0 {
            self.0.ideal_height(width, max_height)
        } else if index == 1 {
            self.1.ideal_height(width, max_height)
        } else if index == 2 {
            self.2.ideal_height(width, max_height)
        } else if index == 3 {
            self.3.ideal_height(width, max_height)
        } else if index == 4 {
            self.4.ideal_height(width, max_height)
        } else if index == 5 {
            self.5.ideal_height(width, max_height)
        } else if index == 6 {
            self.6.ideal_height(width, max_height)
        } else {
            self.7.ideal_height(width, max_height)
        }
    }

    fn ideal_size_at(&self, index: usize, maximum: Vec2<Option<u16>>) -> (size: Vec2<u16>) {
        if index == 0 {
            self.0.ideal_size(maximum)
        } else if index == 1 {
            self.1.ideal_size(maximum)
        } else if index == 2 {
            self.2.ideal_size(maximum)
        } else if index == 3 {
            self.3.ideal_size(maximum)
        } else if index == 4 {
            self.4.ideal_size(maximum)
        } else if index == 5 {
            self.5.ideal_size(maximum)
        } else if index == 6 {
            self.6.ideal_size(maximum)
        } else {
            self.7.ideal_size(maximum)
        }
    }

    fn handle_at<S: Events<A::Event>>(&self, index: usize, input: Input, events: &mut S) {
        if index == 0 {
            self.0.handle(input, events)
        } else if index == 1 {
            self.1.handle(input, events)
        } else if index == 2 {
            self.2.handle(input, events)
        } else if index == 3 {
            self.3.handle(input, events)
        } else if index == 4 {
            self.4.handle(input, events)
        } else if index == 5 {
            self.5.handle(input, events)
        } else if index == 6 {
            self.6.handle(input, events)
        } else {
            self.7.handle(input, events)
        }
    }
}

impl<
    A: Element,
    B: Element<Event = A::Event>,
    C: Element<Event = A::Event>,
    D: Element<Event = A::Event>,
    E: Element<Event = A::Event>,
    F: Element<Event = A::Event>,
    G: Element<Event = A::Event>,
    H: Element<Event = A::Event>,
    I: Element<Event = A::Event>,
> Collection for (A, B, C, D, E, F, G, H, I) {
    type Event = A::Event;

    open spec fn wf(&self) -> bool {
        self.0.wf() && self.1.wf() && self.2.wf() && self.3.wf() && self.4.wf() && self.5.wf()
            && self.6.wf() && self.7.wf() && self.8.wf()
    }

    open spec fn count(&self) -> nat {
        9
    }

    open spec fn drawing_at(&self, index: int, size: Vec2<u16>) -> Seq<DrawOp> {
        if index == 0 {
            self.0.drawing(size)
        } else if index == 1 {
            self.1.drawing(size)
        } else if index == 2 {
            self.2.drawing(size)
        } else if index == 3 {
            self.3.drawing(size)
        } else if index == 4 {
            self.4.drawing(size)
        } else if index == 5 {
            self.5.drawing(size)
        } else if index == 6 {
            self.6.drawing(size)
        } else if index == 7 {
            self.7.drawing(size)
        } else if index == 8 {
            self.8.drawing(size)
        } else {
            Seq::empty()
        }
    }

    open spec fn reacts_at(&self, index: int, input: Input, events: Seq<A::Event>) -> bool {
        if index == 0 {
            self.0.reacts(input, events)
        } else if index == 1 {
            self.1.reacts(input, events)
        } else if index == 2 {
            self.2.reacts(input, events)
        } else if index == 3 {
            self.3.reacts(input, events)
        } else if index == 4 {
            self.4.reacts(input, events)
        } else if index == 5 {
            self.5.reacts(input, events)
        } else if index == 6 {
            self.6.reacts(input, events)
        } else if index == 7 {
            self.7.reacts(input, events)
        } else if index == 8 {
            self.8.reacts(input, events)
        } else {
            events.len() == 0
        }
    }

    open spec fn width_at(&self, index: int, height: u16, max_width: Option<u16>) -> u16 {
        if index == 0 {
            self.0.width_for(height, max_width)
        } else if index == 1 {
            self.1.width_for(height, max_width)
        } else if index == 2 {
            self.2.width_for(height, max_width)
        } else if index == 3 {
            self.3.width_for(height, max_width)
        } else if index == 4 {
            self.4.width_for(height, max_width)
        } else if index == 5 {
            self.5.width_for(height, max_width)
        } else if index == 6 {
            self.6.width_for(height, max_width)
        } else if index == 7 {
            self.7.width_for(height, max_width)
        } else if index == 8 {
            self.8.width_for(height, max_width)
        } else {
            0
        }
    }

    open spec fn height_at(&self, index: int, width: u16, max_height: Option<u16>) -> u16 {
        if index == 0 {
            self.0.height_for(width, max_height)
        } else if index == 1 {
            self.1.height_for(width, max_height)
        } else if index == 2 {
            self.2.height_for(width, max_height)
        } else if index == 3 {
            self.3.height_for(width, max_height)
        } else if index == 4 {
            self.4.height_for(width, max_height)
        } else if index == 5 {
            self.5.height_for(width, max_height)
        } else if index == 6 {
            self.6.height_for(width, max_height)
        } else if index == 7 {
            self.7.height_for(width, max_height)
        } else if index == 8 {
            self.8.height_for(width, max_height)
        } else {
            0
        }
    }

    open spec fn size_at(&self, index: int, maximum: Vec2<Option<u16>>) -> Vec2<u16> {
        if index == 0 {
            self.0.size_for(maximum)
        } else if index == 1 {
            self.1.size_for(maximum)
        } else if index == 2 {
            self.2.size_for(maximum)
        } else if index == 3 {
            self.3.size_for(maximum)
        } else if index == 4 {
            self.4.size_for(maximum)
        } else if index == 5 {
            self.5.size_for(maximum)
        } else if index == 6 {
            self.6.size_for(maximum)
        } else if index == 7 {
            self.7.size_for(maximum)
        } else if index == 8 {
            self.8.size_for(maximum)
        } else {
            Vec2 { x: 0, y: 0 }
        }
    }

    fn len(&self) -> (n: usize) {
        9
    }

    fn draw_at<O: Output>(&self, index: usize, output: O) -> (after: O) {
        if index == 0 {
            self.0.draw(output)
        } else if index == 1 {
            self.1.draw(output)
        } else if index == 2 {
            self.2.draw(output)
        } else if index == 3 {
            self.3.draw(output)
        } else if index == 4 {
            self.4.draw(output)
        } else if index == 5 {
            self.5.draw(output)
        } else if index == 6 {
            self.6.draw(output)
        } else if index == 7 {
            self.7.draw(output)
        } else {
            self.8.draw(output)
        }
    }

    fn ideal_width_at(&self, index: usize, height: u16, max_width: Option<u16>) -> (width: u16) {
        if index == 0 {
            self.0.ideal_width(height, max_width)
        } else if index == 1 {
            self.1.ideal_width(height, max_width)
        } else if index == 2 {
            self.2.ideal_width(height, max_width)
        } else if index == 3 {
            self.3.ideal_width(height, max_width)
        } else if index == 4 {
            self.4.ideal_width(height, max_width)
        } else if index == 5 {
            self.5.ideal_width(height, max_width)
        } else if index == 6 {
            self.6.ideal_width(height, max_width)
        } else if index == 7 {
            self.7.ideal_width(height, max_width)
        } else {
            self.8.ideal_width(height, max_width)
        }
    }

    fn ideal_height_at(&self, index: usize, width: u16, max_height: Option<u16>) -> (height: u16) {
        if index == 0 {
            self.0.ideal_height(width, max_height)
        } else if index == 1 {
            self.1.ideal_height(width, max_height)
        } else if index == 2 {
            self.2.ideal_height(width, max_height)
        } else if index == 3 {
            self.3.ideal_height(width, max_height)
        } else if index == 4 {
            self.4.ideal_height(width, max_height)
        } else if index == 5 {
            self.5.ideal_height(width, max_height)
        } else if index == 6 {
            self.6.ideal_height(width, max_height)
        } else if index == 7 {
            self.7.ideal_height(width, max_height)
        } else {
            self.8.ideal_height(width, max_height)
        }
    }

    fn ideal_size_at(&self, index: usize, maximum: Vec2<Option<u16>>) -> (size: Vec2<u16>) {
        if index == 0 {
            self.0.ideal_size(maximum)
        } else if index == 1 {
            self.1.ideal_size(maximum)
        } else if index == 2 {
            self.2.ideal_size(maximum)
        } else if index == 3 {
            self.3.ideal_size(maximum)
        } else if index == 4 {
            self.4.ideal_size(maximum)
        } else if index == 5 {
            self.5.ideal_size(maximum)
        } else if index == 6 {
            self.6.ideal_size(maximum)
        } else if index == 7 {
            self.7.ideal_size(maximum)
        } else {
            self.8.ideal_size(maximum)
        }
    }

    fn handle_at<S: Events<A::Event>>(&self, index: usize, input: Input, events: &mut S) {
        if index == 0 {
            self.0.handle(input, events)
        } else if index == 1 {
            self.1.handle(input, events)
        } else if index == 2 {
            self.2.handle(input, events)
        } else if index == 3 {
            self.3.handle(input, events)
        } else if index == 4 {
            self.4.handle(input, events)
        } else if index == 5 {
            self.5.handle(input, events)
        } else if index == 6 {
            self.6.handle(input, events)
        } else if index == 7 {
            self.7.handle(input, events)
        } else {
            self.8.handle(input, events)
        }
    }
}

impl<
    A: Element,
    B: Element<Event = A::Event>,
    C: Element<Event = A::Event>,
    D: Element<Event = A::Event>,
    E: Element<Event = A::Event>,
    F: Element<Event = A::Event>,
    G: Element<Event = A::Event>,
    H: Element<Event = A::Event>,
    I: Element<Event = A::Event>,
    J: Element<Event = A::Event>,
> Collection for (A, B, C, D, E, F, G, H, I, J) {
    type Event = A::Event;

    open spec fn wf(&self) -> bool {
        self.0.wf() && self.1.wf() && self.2.wf() && self.3.wf() && self.4.wf() && self.5.wf()
            && self.6.wf() && self.7.wf() && self.8.wf() && self.9.wf()
    }

    open spec fn count(&self) -> nat {
        10
    }

    open spec fn drawing_at(&self, index: int, size: Vec2<u16>) -> Seq<DrawOp> {
        if index == 0 {
            self.0.drawing(size)
        } else if index == 1 {
            self.1.drawing(size)
        } else if index == 2 {
            self.2.drawing(size)
        } else if index == 3 {
            self.3.drawing(size)
        } else if index == 4 {
            self.4.drawing(size)
        } else if index == 5 {
            self.5.drawing(size)
        } else if index == 6 {
            self.6.drawing(size)
        } else if index == 7 {
            self.7.drawing(size)
        } else if index == 8 {
            self.8.drawing(size)
        } else if index == 9 {
            self.9.drawing(size)
        } else {
            Seq::empty()
        }
    }

    open spec fn reacts_at(&self, index: int, input: Input, events: Seq<A::Event>) -> bool {
        if index == 0 {
            self.0.reacts(input, events)
        } else if index == 1 {
            self.1.reacts(input, events)
        } else if index == 2 {
            self.2.reacts(input, events)
        } else if index == 3 {
            self.3.reacts(input, events)
        } else if index == 4 {
            self.4.reacts(input, events)
        } else if index == 5 {
            self.5.reacts(input, events)
        } else if index == 6 {
            self.6.reacts(input, events)
        } else if index == 7 {
            self.7.reacts(input, events)
        } else if index == 8 {
            self.8.reacts(input, events)
        } else if index == 9 {
            self.9.reacts(input, events)
        } else {
            events.len() == 0
        }
    }

    open spec fn width_at(&self, index: int, height: u16, max_width: Option<u16>) -> u16 {
        if index == 0 {
            self.0.width_for(height, max_width)
        } else if index == 1 {
            self.1.width_for(height, max_width)
        } else if index == 2 {
            self.2.width_for(height, max_width)
        } else if index == 3 {
            self.3.width_for(height, max_width)
        } else if index == 4 {
            self.4.width_for(height, max_width)
        } else if index == 5 {
            self.5.width_for(height, max_width)
        } else if index == 6 {
            self.6.width_for(height, max_width)
        } else if index == 7 {
            self.7.width_for(height, max_width)
        } else if index == 8 {
            self.8.width_for(height, max_width)
        } else if index == 9 {
            self.9.width_for(height, max_width)
        } else {
            0
        }
    }

    open spec fn height_at(&self, index: int, width: u16, max_height: Option<u16>) -> u16 {
        if index == 0 {
            self.0.height_for(width, max_height)
        } else if index == 1 {
            self.1.height_for(width, max_height)
        } else if index == 2 {
            self.2.height_for(width, max_height)
        } else if index == 3 {
            self.3.height_for(width, max_height)
        } else if index == 4 {
            self.4.height_for(width, max_height)
        } else if index == 5 {
            self.5.height_for(width, max_height)
        } else if index == 6 {
            self.6.height_for(width, max_height)
        } else if index == 7 {
            self.7.height_for(width, max_height)
        } else if index == 8 {
            self.8.height_for(width, max_height)
        } else if index == 9 {
            self.9.height_for(width, max_height)
        } else {
            0
        }
    }

    open spec fn size_at(&self, index: int, maximum: Vec2<Option<u16>>) -> Vec2<u16> {
        if index == 0 {
            self.0.size_for(maximum)
        } else if index == 1 {
            self.1.size_for(maximum)
        } else if index == 2 {
            self.2.size_for(maximum)
        } else if index == 3 {
            self.3.size_for(maximum)
        } else if index == 4 {
            self.4.size_for(maximum)
        } else if index == 5 {
            self.5.size_for(maximum)
        } else if index == 6 {
            self.6.size_for(maximum)
        } else if index == 7 {
            self.7.size_for(maximum)
        } else if index == 8 {
            self.8.size_for(maximum)
        } else if index == 9 {
            self.9.size_for(maximum)
        } else {
            Vec2 { x: 0, y: 0 }
        }
    }

    fn len(&self) -> (n: usize) {
        10
    }

    fn draw_at<O: Output>(&self, index: usize, output: O) -> (after: O) {
        if index == 0 {
            self.0.draw(output)
        } else if index == 1 {
            self.1.draw(output)
        } else if index == 2 {
            self.2.draw(output)
        } else if index == 3 {
            self.3.draw(output)
        } else if index == 4 {
            self.4.draw(output)
        } else if index == 5 {
            self.5.draw(output)
        } else if index == 6 {
            self.6.draw(output)
        } else if index == 7 {
            self.7.draw(output)
        } else if index == 8 {
            self.8.draw(output)
        } else {
            self.9.draw(output)
        }
    }

    fn ideal_width_at(&self, index: usize, height: u16, max_width: Option<u16>) -> (width: u16) {
        if index == 0 {
            self.0.ideal_width(height, max_width)
        } else if index == 1 {
            self.1.ideal_width(height, max_width)
        } else if index == 2 {
            self.2.ideal_width(height, max_width)
        } else if index == 3 {
            self.3.ideal_width(height, max_width)
        } else if index == 4 {
            self.4.ideal_width(height, max_width)
        } else if index == 5 {
            self.5.ideal_width(height, max_width)
        } else if index == 6 {
            self.6.ideal_width(height, max_width)
        } else if index == 7 {
            self.7.ideal_width(height, max_width)
        } else if index == 8 {
            self.8.ideal_width(height, max_width)
        } else {
            self.9.ideal_width(height, max_width)
        }
    }

    fn ideal_height_at(&self, index: usize, width: u16, max_height: Option<u16>) -> (height: u16) {
        if index == 0 {
            self.0.ideal_height(width, max_height)
        } else if index == 1 {
            self.1.ideal_height(width, max_height)
        } else if index == 2 {
            self.2.ideal_height(width, max_height)
        } else if index == 3 {
            self.3.ideal_height(width, max_height)
        } else if index == 4 {
            self.4.ideal_height(width, max_height)
        } else if index == 5 {
            self.5.ideal_height(width, max_height)
        } else if index == 6 {
            self.6.ideal_height(width, max_height)
        } else if index == 7 {
            self.7.ideal_height(width, max_height)
        } else if index == 8 {
            self.8.ideal_height(width, max_height)
        } else {
            self.9.ideal_height(width, max_height)
        }
    }

    fn ideal_size_at(&self, index: usize, maximum: Vec2<Option<u16>>) -> (size: Vec2<u16>) {
        if index == 0 {
            self.0.ideal_size(maximum)
        } else if index == 1 {
            self.1.ideal_size(maximum)
        } else if index == 2 {
            self.2.ideal_size(maximum)
        } else if index == 3 {
            self.3.ideal_size(maximum)
        } else if index == 4 {
            self.4.ideal_size(maximum)
        } else if index == 5 {
            self.5.ideal_size(maximum)
        } else if index == 6 {
            self.6.ideal_size(maximum)
        } else if index == 7 {
            self.7.ideal_size(maximum)
        } else if index == 8 {
            self.8.ideal_size(maximum)
        } else {
            self.9.ideal_size(maximum)
        }
    }

    fn handle_at<S: Events<A::Event>>(&self, index: usize, input: Input, events: &mut S) {
        if index == 0 {
            self.0.handle(input, events)
        } else if index == 1 {
            self.1.handle(input, events)
        } else if index == 2 {
            self.2.handle(input, events)
        } else if index == 3 {
            self.3.handle(input, events)
        } else if index == 4 {
            self.4.handle(input, events)
        } else if index == 5 {
            self.5.handle(input, events)
        } else if index == 6 {
            self.6.handle(input, events)
        } else if index == 7 {
            self.7.handle(input, events)
        } else if index == 8 {
            self.8.handle(input, events)
        } else {
            self.9.handle(input, events)
        }
    }
}

impl<
    A: Element,
    B: Element<Event = A::Event>,
    C: Element<Event = A::Event>,
    D: Element<Event = A::Event>,
    E: Element<Event = A::Event>,
    F: Element<Event = A::Event>,
    G: Element<Event = A::Event>,
    H: Element<Event = A::Event>,
    I: Element<Event = A::Event>,
    J: Element<Event = A::Event>,
    K: Element<Event = A::Event>,
> Collection for (A, B, C, D, E, F, G, H, I, J, K) {
    type Event = A::Event;

    open spec fn wf(&self) -> bool {
        self.0.wf() && self.1.wf() && self.2.wf() && self.3.wf() && self.4.wf() && self.5.wf()
            && self.6.wf() && self.7.wf() && self.8.wf() && self.9.wf() && self.10.wf()
    }

    open spec fn count(&self) -> nat {
        11
    }

    open spec fn drawing_at(&self, index: int, size: Vec2<u16>) -> Seq<DrawOp> {
        if index == 0 {
            self.0.drawing(size)
        } else if index == 1 {
            self.1.drawing(size)
        } else if index == 2 {
            self.2.drawing(size)
        } else if index == 3 {
            self.3.drawing(size)
        } else if index == 4 {
            self.4.drawing(size)
        } else if index == 5 {
            self.5.drawing(size)
        } else if index == 6 {
            self.6.drawing(size)
        } else if index == 7 {
            self.7.drawing(size)
        } else if index == 8 {
            self.8.drawing(size)
        } else if index == 9 {
            self.9.drawing(size)
        } else if index == 10 {
            self.10.drawing(size)
        } else {
            Seq::empty()
        }
    }

    open spec fn reacts_at(&self, index: int, input: Input, events: Seq<A::Event>) -> bool {
        if index == 0 {
            self.0.reacts(input, events)
        } else if index == 1 {
            self.1.reacts(input, events)
        } else if index == 2 {
            self.2.reacts(input, events)
        } else if index == 3 {
            self.3.reacts(input, events)
        } else if index == 4 {
            self.4.reacts(input, events)
        } else if index == 5 {
            self.5.reacts(input, events)
        } else if index == 6 {
            self.6.reacts(input, events)
        } else if index == 7 {
            self.7.reacts(input, events)
        } else if index == 8 {
            self.8.reacts(input, events)
        } else if index == 9 {
            self.9.reacts(input, events)
        } else if index == 10 {
            self.10.reacts(input, events)
        } else {
            events.len() == 0
        }
    }

    open spec fn width_at(&self, index: int, height: u16, max_width: Option<u16>) -> u16 {
        if index == 0 {
            self.0.width_for(height, max_width)
        } else if index == 1 {
            self.1.width_for(height, max_width)
        } else if index == 2 {
            self.2.width_for(height, max_width)
        } else if index == 3 {
            self.3.width_for(height, max_width)
        } else if index == 4 {
            self.4.width_for(height, max_width)
        } else if index == 5 {
            self.5.width_for(height, max_width)
        } else if index == 6 {
            self.6.width_for(height, max_width)
        } else if index == 7 {
            self.7.width_for(height, max_width)
        } else if index == 8 {
            self.8.width_for(height, max_width)
        } else if index == 9 {
            self.9.width_for(height, max_width)
        } else if index == 10 {
            self.10.width_for(height, max_width)
        } else {
            0
        }
    }

    open spec fn height_at(&self, index: int, width: u16, max_height: Option<u16>) -> u16 {
        if index == 0 {
            self.0.height_for(width, max_height)
        } else if index == 1 {
            self.1.height_for(width, max_height)
        } else if index == 2 {
            self.2.height_for(width, max_height)
        } else if index == 3 {
            self.3.height_for(width, max_height)
        } else if index == 4 {
            self.4.height_for(width, max_height)
        } else if index == 5 {
            self.5.height_for(width, max_height)
        } else if index == 6 {
            self.6.height_for(width, max_height)
        } else if index == 7 {
            self.7.height_for(width, max_height)
        } else if index == 8 {
            self.8.height_for(width, max_height)
        } else if index == 9 {
            self.9.height_for(width, max_height)
        } else if index == 10 {
            self.10.height_for(width, max_height)
        } else {
            0
        }
    }

    open spec fn size_at(&self, index: int, maximum: Vec2<Option<u16>>) -> Vec2<u16> {
        if index == 0 {
            self.0.size_for(maximum)
        } else if index == 1 {
            self.1.size_for(maximum)
        } else if index == 2 {
            self.2.size_for(maximum)
        } else if index == 3 {
            self.3.size_for(maximum)
        } else if index == 4 {
            self.4.size_for(maximum)
        } else if index == 5 {
            self.5.size_for(maximum)
        } else if index == 6 {
            self.6.size_for(maximum)
        } else if index == 7 {
            self.7.size_for(maximum)
        } else if index == 8 {
            self.8.size_for(maximum)
        } else if index == 9 {
            self.9.size_for(maximum)
        } else if index == 10 {
            self.10.size_for(maximum)
        } else {
            Vec2 { x: 0, y: 0 }
        }
    }

    fn len(&self) -> (n: usize) {
        11
    }

    fn draw_at<O: Output>(&self, index: usize, output: O) -> (after: O) {
        if index == 0 {
            self.0.draw(output)
        } else if index == 1 {
            self.1.draw(output)
        } else if index == 2 {
            self.2.draw(output)
        } else if index == 3 {
            self.3.draw(output)
        } else if index == 4 {
            self.4.draw(output)
        } else if index == 5 {
            self.5.draw(output)
        } else if index == 6 {
            self.6.draw(output)
        } else if index == 7 {
            self.7.draw(output)
        } else if index == 8 {
            self.8.draw(output)
        } else if index == 9 {
            self.9.draw(output)
        } else {
            self.10.draw(output)
        }
    }

    fn ideal_width_at(&self, index: usize, height: u16, max_width: Option<u16>) -> (width: u16) {
        if index == 0 {
            self.0.ideal_width(height, max_width)
        } else if index == 1 {
            self.1.ideal_width(height, max_width)
        } else if index == 2 {
            self.2.ideal_width(height, max_width)
        } else if index == 3 {
            self.3.ideal_width(height, max_width)
        } else if index == 4 {
            self.4.ideal_width(height, max_width)
        } else if index == 5 {
            self.5.ideal_width(height, max_width)
        } else if index == 6 {
            self.6.ideal_width(height, max_width)
        } else if index == 7 {
            self.7.ideal_width(height, max_width)
        } else if index == 8 {
            self.8.ideal_width(height, max_width)
        } else if index == 9 {
            self.9.ideal_width(height, max_width)
        } else {
            self.10.ideal_width(height, max_width)
        }
    }

    fn ideal_height_at(&self, index: usize, width: u16, max_height: Option<u16>) -> (height: u16) {
        if index == 0 {
            self.0.ideal_height(width, max_height)
        } else if index == 1 {
            self.1.ideal_height(width, max_height)
        } else if index == 2 {
            self.2.ideal_height(width, max_height)
        } else if index == 3 {
            self.3.ideal_height(width, max_height)
        } else if index == 4 {
            self.4.ideal_height(width, max_height)
        } else if index == 5 {
            self.5.ideal_height(width, max_height)
        } else if index == 6 {
            self.6.ideal_height(width, max_height)
        } else if index == 7 {
            self.7.ideal_height(width, max_height)
        } else if index == 8 {
            self.8.ideal_height(width, max_height)
        } else if index == 9 {
            self.9.ideal_height(width, max_height)
        } else {
            self.10.ideal_height(width, max_height)
        }
    }

    fn ideal_size_at(&self, index: usize, maximum: Vec2<Option<u16>>) -> (size: Vec2<u16>) {
        if index == 0 {
            self.0.ideal_size(maximum)
        } else if index == 1 {
            self.1.ideal_size(maximum)
        } else if index == 2 {
            self.2.ideal_size(maximum)
        } else if index == 3 {
            self.3.ideal_size(maximum)
        } else if index == 4 {
            self.4.ideal_size(maximum)
        } else if index == 5 {
            self.5.ideal_size(maximum)
        } else if index == 6 {
            self.6.ideal_size(maximum)
        } else if index == 7 {
            self.7.ideal_size(maximum)
        } else if index == 8 {
            self.8.ideal_size(maximum)
        } else if index == 9 {
            self.9.ideal_size(maximum)
        } else {
            self.10.ideal_size(maximum)
        }
    }

    fn handle_at<S: Events<A::Event>>(&self, index: usize, input: Input, events: &mut S) {
        if index == 0 {
            self.0.handle(input, events)
        } else if index == 1 {
            self.1.handle(input, events)
        } else if index == 2 {
            self.2.handle(input, events)
        } else if index == 3 {
            self.3.handle(input, events)
        } else if index == 4 {
            self.4.handle(input, events)
        } else if index == 5 {
            self.5.handle(input, events)
        } else if index == 6 {
            self.6.handle(input, events)
        } else if index == 7 {
            self.7.handle(input, events)
        } else if index == 8 {
            self.8.handle(input, events)
        } else if index == 9 {
            self.9.handle(input, events)
        } else {
            self.10.handle(input, events)
        }
    }
}

} // verus!
