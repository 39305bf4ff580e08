//! Spans of text.

use crate::element::{lemma_added_none, Element};
use crate::events::Events;
use crate::input::Input;
use crate::output::{text_ops, DrawOp, Ext, Output};
use crate::style::Style;
use crate::vec2::Vec2;
use crate::width::{char_width, display_width, present};
use core::marker::PhantomData;
use vstd::prelude::*;
use vstd::std_specs::iter::IteratorSpec;

verus! {

/// A text that an element can show.
pub trait Label {
    /// The characters of the text.
    open spec fn text(&self) -> Seq<char> {
        arbitrary()
    }

    /// The text as a string slice.
    fn as_str(&self) -> (s: &str)
        ensures
            s@ == self.text(),
    ;
}

impl<'a> Label for &'a str {
    open spec fn text(&self) -> Seq<char> {
        (*self)@
    }

    fn as_str(&self) -> (s: &str) {
        *self
    }
}

impl Label for String {
    open spec fn text(&self) -> Seq<char> {
        self@
    }

    fn as_str(&self) -> (s: &str) {
        self.as_str()
    }
}

/// The number of columns that a text takes: the widths of its characters added up, with
/// nothing for a control character.
pub open spec fn text_width(text: Seq<char>) -> nat
    decreases text.len(),
{
    if text.len() == 0 {
        0
    } else {
        text_width(text.drop_last()) + (match display_width(text.last()) {
            Some(width) => width as nat,
            None => 0,
        })
    }
}

/// The number of columns that a text takes, as far as it can be told in 16 bits.
pub open spec fn text_columns(text: Seq<char>) -> u16 {
    if text_width(text) <= u16::MAX {
        text_width(text) as u16
    } else {
        u16::MAX
    }
}

/// Computes [`text_columns`].
pub fn columns_of(text: &str) -> (columns: u16)
    ensures
        columns == text_columns(text@),
{
    let mut columns: u16 = 0;
    let ghost mut seen: Seq<char> = Seq::empty();
    let mut chars = text.chars();
    loop
        invariant_except_break
            seen + chars.remaining() == text@,
            columns == text_columns(seen),
        invariant
            chars.obeys_prophetic_iter_laws(),
            chars.decrease() is Some,
        ensures
            columns == text_columns(text@),
        decreases chars.decrease().unwrap(),
    {
        let ghost rest = chars.remaining();
        let next = chars.next();
        if next.is_none() {
            assert(seen + rest =~= seen);
            break ;
        }
        let c = present(next);
        proof {
            assert(seen.push(c).drop_last() =~= seen);
            assert(seen.push(c) + rest.drop_first() =~= seen + rest);
        }
        let measured = char_width(c);
        if measured.is_some() {
            let width = measured.unwrap();
            columns = if width >= (u16::MAX - columns) as usize {
                u16::MAX
            } else {
                columns + width as u16
            };
        }
        proof {
            seen = seen.push(c);
        }
    }
    columns
}

/// A span of text, created by the [`span`] function.
#[derive(Debug, Hash, PartialEq, Eq)]
pub struct Span<T, Event> {
    /// The text being displayed.
    pub text: T,
    /// The style to display the text in.
    pub style: Style,
    /// The events that the span produces: none.
    pub event: PhantomData<Event>,
}

impl<T: Clone, Event> Clone for Span<T, Event> {
    /// A span of the same text in the same style.
    fn clone(&self) -> (span: Self)
        ensures
            span.style == self.style,
    {
        Self { text: self.text.clone(), style: self.style, event: PhantomData }
    }
}

impl<T: Label, Event> Element for Span<T, Event> {
    type Event = Event;

    open spec fn wf(&self) -> bool {
        true
    }

    /// The text is written from the output's first cell on and cut off at its width.
    open spec fn drawing(&self, size: Vec2<u16>) -> Seq<DrawOp> {
        text_ops(Vec2 { x: 0, y: 0 }, self.text.text(), self.style, size.x)
    }

    /// A span answers no input.
    open spec fn reacts(&self, input: Input, events: Seq<Event>) -> bool {
        events.len() == 0
    }

    open spec fn width_for(&self, height: u16, max_width: Option<u16>) -> u16 {
        text_columns(self.text.text())
    }

    open spec fn height_for(&self, width: u16, max_height: Option<u16>) -> u16 {
        1
    }

    open spec fn size_for(&self, maximum: Vec2<Option<u16>>) -> Vec2<u16> {
        Vec2 { x: text_columns(self.text.text()), y: 1 }
    }

    fn draw<O: Output>(&self, output: O) -> (after: O) {
        let mut output = output;
        crate::output::write_text(&mut output, Vec2 { x: 0, y: 0 }, self.text.as_str(), self.style);
        output
    }

    fn ideal_width(&self, _height: u16, _max_width: Option<u16>) -> (width: u16) {
        columns_of(self.text.as_str())
    }

    fn ideal_height(&self, _width: u16, _max_height: Option<u16>) -> (height: u16) {
        1
    }

    fn ideal_size(&self, _maximum: Vec2<Option<u16>>) -> (size: Vec2<u16>) {
        Vec2 { x: columns_of(self.text.as_str()), y: 1 }
    }

    fn handle<C: Events<Event>>(&self, _input: Input, events: &mut C) {
        proof {
            lemma_added_none(events.collected());
        }
    }
}

/// Create a span of text in the default style.
#[must_use]
pub fn span<T: Label, Event>(text: T) -> (span: Span<T, Event>)
    ensures
        span.text == text,
        span.style == Style::plain(),
{
    Span { text, style: Style::default(), event: PhantomData }
}

/// A single line of text in a style.
#[derive(Debug, Hash, PartialEq, Eq)]
pub struct Text<T> {
    /// The text being displayed.
    pub item: T,
    /// The style to display the text in.
    pub style: Style,
}

impl<T> Text<T> {
    /// Create a line of text with the given style.
    #[must_use]
    pub fn new(item: T, style: Style) -> (text: Self)
        ensures
            text == (Text { item, style }),
    {
        Self { item, style }
    }
}

/// Create a single line of text.
///
/// Shortcut function for [`Text::new`].
#[must_use]
pub fn text<T>(item: T, style: Style) -> (text: Text<T>)
    ensures
        text == (Text { item, style }),
{
    Text::new(item, style)
}

impl<T: Label> Element for Text<T> {
    type Event = ();

    open spec fn wf(&self) -> bool {
        true
    }

    /// The text is written from the output's first cell on and cut off at its width.
    open spec fn drawing(&self, size: Vec2<u16>) -> Seq<DrawOp> {
        text_ops(Vec2 { x: 0, y: 0 }, self.item.text(), self.style, size.x)
    }

    /// A text answers no input.
    open spec fn reacts(&self, input: Input, events: Seq<()>) -> bool {
        events.len() == 0
    }

    open spec fn width_for(&self, height: u16, max_width: Option<u16>) -> u16 {
        text_columns(self.item.text())
    }

    open spec fn height_for(&self, width: u16, max_height: Option<u16>) -> u16 {
        0
    }

    open spec fn size_for(&self, maximum: Vec2<Option<u16>>) -> Vec2<u16> {
        Vec2 { x: text_columns(self.item.text()), y: 0 }
    }

    fn draw<O: Output>(&self, output: O) -> (after: O) {
        let mut output = output;
        crate::output::write_text(&mut output, Vec2 { x: 0, y: 0 }, self.item.as_str(), self.style);
        output
    }

    fn ideal_width(&self, _height: u16, _max_width: Option<u16>) -> (width: u16) {
        columns_of(self.item.as_str())
    }

    fn ideal_height(&self, _width: u16, _max_height: Option<u16>) -> (height: u16) {
        0
    }

    fn ideal_size(&self, _maximum: Vec2<Option<u16>>) -> (size: Vec2<u16>) {
        Vec2 { x: columns_of(self.item.as_str()), y: 0 }
    }

    fn handle<C: Events<()>>(&self, _input: Input, events: &mut C) {
        proof {
            lemma_added_none(events.collected());
        }
    }
}

} // verus!
