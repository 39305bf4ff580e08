//! Elements and outputs that are one of two: `Either` of the crate `either`.

use crate::cursor::Cursor;
use crate::element::Element;
use crate::elements::containers::Collection;
use crate::events::Events;
use crate::input::Input;
use crate::output::{DrawOp, Output};
use crate::style::Style;
use crate::vec2::Vec2;
use either::Either;
use vstd::prelude::*;

verus! {

/// `Either` of the crate `either`: a value of the one type, `Left`, or of the other,
/// `Right`.
#[verifier::external_type_specification]
#[verifier::reject_recursive_types(L)]
#[verifier::reject_recursive_types(R)]
pub struct ExEither<L, R>(either::Either<L, R>);

impl<L: Output, R: Output> Output for Either<L, R> {
    open spec fn valid(&self) -> bool {
        match self {
            Either::Left(l) => l.valid(),
            Either::Right(r) => r.valid(),
        }
    }

    open spec fn extent(&self) -> Vec2<u16> {
        match self {
            Either::Left(l) => l.extent(),
            Either::Right(r) => r.extent(),
        }
    }

    open spec fn drew(&self, after: &Self, op: DrawOp) -> bool {
        match (self, after) {
            (Either::Left(l), Either::Left(after)) => l.drew(after, op),
            (Either::Right(r), Either::Right(after)) => r.drew(after, op),
            _ => false,
        }
    }

    fn size(&self) -> (size: Vec2<u16>) {
        match self {
            Either::Left(l) => l.size(),
            Either::Right(r) => r.size(),
        }
    }

    fn write_char(&mut self, pos: Vec2<u16>, c: char, style: Style) {
        match self {
            Either::Left(l) => l.write_char(pos, c, style),
            Either::Right(r) => r.write_char(pos, c, style),
        }
    }

    fn set_title(&mut self, title: &str) {
        match self {
            Either::Left(l) => l.set_title(title),
            Either::Right(r) => r.set_title(title),
        }
    }

    fn set_cursor(&mut self, cursor: Option<Cursor>) {
        match self {
            Either::Left(l) => l.set_cursor(cursor),
            Either::Right(r) => r.set_cursor(cursor),
        }
    }
}

impl<L: Element, R: Element<Event = L::Event>> Element for Either<L, R> {
    type Event = L::Event;

    open spec fn wf(&self) -> bool {
        match self {
            Either::Left(l) => l.wf(),
            Either::Right(r) => r.wf(),
        }
    }

    open spec fn drawing(&self, size: Vec2<u16>) -> Seq<DrawOp> {
        match self {
            Either::Left(l) => l.drawing(size),
            Either::Right(r) => r.drawing(size),
        }
    }

    open spec fn reacts(&self, input: Input, events: Seq<L::Event>) -> bool {
        match self {
            Either::Left(l) => l.reacts(input, events),
            Either::Right(r) => r.reacts(input, events),
        }
    }

    open spec fn width_for(&self, height: u16, max_width: Option<u16>) -> u16 {
        match self {
            Either::Left(l) => l.width_for(height, max_width),
            Either::Right(r) => r.width_for(height, max_width),
        }
    }

    open spec fn height_for(&self, width: u16, max_height: Option<u16>) -> u16 {
        match self {
            Either::Left(l) => l.height_for(width, max_height),
            Either::Right(r) => r.height_for(width, max_height),
        }
    }

    open spec fn size_for(&self, maximum: Vec2<Option<u16>>) -> Vec2<u16> {
        match self {
            Either::Left(l) => l.size_for(maximum),
            Either::Right(r) => r.size_for(maximum),
        }
    }

    fn draw<O: Output>(&self, output: O) -> (after: O) {
        match self {
            Either::Left(l) => l.draw(output),
            Either::Right(r) => r.draw(output),
        }
    }

    fn ideal_width(&self, height: u16, max_width: Option<u16>) -> (width: u16) {
        match self {
            Either::Left(l) => l.ideal_width(height, max_width),
            Either::Right(r) => r.ideal_width(height, max_width),
        }
    }

    fn ideal_height(&self, width: u16, max_height: Option<u16>) -> (height: u16) {
        match self {
            Either::Left(l) => l.ideal_height(width, max_height),
            Either::Right(r) => r.ideal_height(width, max_height),
        }
    }

    fn ideal_size(&self, maximum: Vec2<Option<u16>>) -> (size: Vec2<u16>) {
        match self {
            Either::Left(l) => l.ideal_size(maximum),
            Either::Right(r) => r.ideal_size(maximum),
        }
    }

    fn handle<C: Events<L::Event>>(&self, input: Input, events: &mut C) {
        match self {
            Either::Left(l) => l.handle(input, events),
            Either::Right(r) => r.handle(input, events),
        }
    }
}

impl<L: Collection, R: Collection<Event = L::Event>> Collection for Either<L, R> {
    type Event = L::Event;

    open spec fn wf(&self) -> bool {
        match self {
            Either::Left(l) => l.wf(),
            Either::Right(r) => r.wf(),
        }
    }

    open spec fn count(&self) -> nat {
        match self {
            Either::Left(l) => l.count(),
            Either::Right(r) => r.count(),
        }
    }

    open spec fn drawing_at(&self, index: int, size: Vec2<u16>) -> Seq<DrawOp> {
        match self {
            Either::Left(l) => l.drawing_at(index, size),
            Either::Right(r) => r.drawing_at(index, size),
        }
    }

    open spec fn reacts_at(&self, index: int, input: Input, events: Seq<L::Event>) -> bool {
        match self {
            Either::Left(l) => l.reacts_at(index, input, events),
            Either::Right(r) => r.reacts_at(index, input, events),
        }
    }

    open spec fn width_at(&self, index: int, height: u16, max_width: Option<u16>) -> u16 {
        match self {
            Either::Left(l) => l.width_at(index, height, max_width),
            Either::Right(r) => r.width_at(index, height, max_width),
        }
    }

    open spec fn height_at(&self, index: int, width: u16, max_height: Option<u16>) -> u16 {
        match self {
            Either::Left(l) => l.height_at(index, width, max_height),
            Either::Right(r) => r.height_at(index, width, max_height),
        }
    }

    open spec fn size_at(&self, index: int, maximum: Vec2<Option<u16>>) -> Vec2<u16> {
        match self {
            Either::Left(l) => l.size_at(index, maximum),
            Either::Right(r) => r.size_at(index, maximum),
        }
    }

    fn len(&self) -> (n: usize) {
        match self {
            Either::Left(l) => l.len(),
            Either::Right(r) => r.len(),
        }
    }

    fn draw_at<O: Output>(&self, index: usize, output: O) -> (after: O) {
        match self {
            Either::Left(l) => l.draw_at(index, output),
            Either::Right(r) => r.draw_at(index, output),
        }
    }

    fn ideal_width_at(&self, index: usize, height: u16, max_width: Option<u16>) -> (width: u16) {
        match self {
            Either::Left(l) => l.ideal_width_at(index, height, max_width),
            Either::Right(r) => r.ideal_width_at(index, height, max_width),
        }
    }

    fn ideal_height_at(&self, index: usize, width: u16, max_height: Option<u16>) -> (height: u16) {
        match self {
            Either::Left(l) => l.ideal_height_at(index, width, max_height),
            Either::Right(r) => r.ideal_height_at(index, width, max_height),
        }
    }

    fn ideal_size_at(&self, index: usize, maximum: Vec2<Option<u16>>) -> (size: Vec2<u16>) {
        match self {
            Either::Left(l) => l.ideal_size_at(index, maximum),
            Either::Right(r) => r.ideal_size_at(index, maximum),
        }
    }

    fn handle_at<S: Events<L::Event>>(&self, index: usize, input: Input, events: &mut S) {
        match self {
            Either::Left(l) => l.handle_at(index, input, events),
            Either::Right(r) => r.handle_at(index, input, events),
        }
    }
}

} // verus!
